use quantify_data::api_managers::{get_managers_in_priority, Provider};
use quantify_data::error::{StoreError, TaskError};
use quantify_data::candle::Granularity;
use quantify_data::server::{
    add_ticker, add_ticker_reply, remove_ticker_reply, update_candle_data, update_candle_data_reply,
    GranularityType,
};

#[test]
fn providers_come_in_priority_order() {
    assert_eq!(get_managers_in_priority(), vec![Provider::Polygon, Provider::Tiingo]);
}

#[test]
fn error_messages() {
    assert_eq!(TaskError::NoData { ticker: "zzzz".to_string() }.message(), "No data found for zzzz");
    assert_eq!(TaskError::Range.message(), "default start date is out of range");
    assert_eq!(TaskError::Store(StoreError { message: "disk full".to_string() }).message(), "disk full");
    assert_eq!(TaskError::OutOfTurn.message(), "event out of turn");
}

#[test]
fn request_without_ticker_is_answered_at_once() {
    let reply = add_ticker(&None).unwrap_err();
    assert!(!reply.success);
    assert_eq!(reply.info, Some("Ticker not provided".to_string()));
}

#[test]
fn request_with_ticker_gives_the_task() {
    let task = add_ticker(&Some("GOOGL".to_string())).unwrap();
    assert_eq!(task.ticker, "GOOGL");
}

#[test]
fn replies_to_registration() {
    let reply = add_ticker_reply(&Ok(()));
    assert!(reply.success);
    assert_eq!(reply.info, Some("Subscribed to ticker".to_string()));
    let reply = add_ticker_reply(&Err(TaskError::Store(StoreError { message: "disk full".to_string() })));
    assert!(!reply.success);
    assert_eq!(reply.info, Some("Ticker subscription failed: disk full".to_string()));
}

#[test]
fn replies_to_update() {
    let reply = update_candle_data_reply(&Ok(()));
    assert!(reply.success);
    assert_eq!(reply.info, Some("Added candle data".to_string()));
    let reply = update_candle_data_reply(&Err(TaskError::Range));
    assert!(!reply.success);
    assert_eq!(reply.info, Some("Candle data update failed: default start date is out of range".to_string()));
    let reply = update_candle_data_reply(&Err(TaskError::NoData { ticker: "ACME".to_string() }));
    assert!(!reply.success);
    assert_eq!(reply.info, Some("Candle data update failed: No data found for ACME".to_string()));
}

#[test]
fn reply_to_removal() {
    let reply = remove_ticker_reply();
    assert!(reply.success);
    assert_eq!(reply.info, Some("Removed ticker".to_string()));
}

#[test]
fn update_request_gives_the_task() {
    let task = update_candle_data(&Some("GOOGL".to_string()), GranularityType::Hours, 4).unwrap();
    assert_eq!(task.ticker, "GOOGL");
    assert_eq!(task.granularity, Granularity::Hours(4));
    assert_eq!(task.max_historical_duration.num_seconds(), 260 * 7 * 86_400);
    let task = update_candle_data(&Some("GOOGL".to_string()), GranularityType::Days, 1).unwrap();
    assert_eq!(task.granularity, Granularity::Days(1));
    let task = update_candle_data(&Some("GOOGL".to_string()), GranularityType::Minutes, 15).unwrap();
    assert_eq!(task.granularity, Granularity::Minutes(15));
    let reply = update_candle_data(&None, GranularityType::Days, 1).unwrap_err();
    assert!(!reply.success);
    assert_eq!(reply.info, Some("Ticker not provided".to_string()));
}
