use chrono::NaiveDate;
use quantify_data::api_managers::Provider;
use quantify_data::calendar::{Date, Lookback, MAX_EPOCH_DAY, MIN_EPOCH_DAY};
use quantify_data::candle::{
    fresh_observations, plan, reconcile_timeseries, CandleData, Granularity, Price, UpdateAction,
    UpdateCandleDataTask, UpdateEvent, UpdateState, DAY_CANDLE_COLLECTION, HOUR_CANDLE_COLLECTION,
    MINUTE_CANDLE_COLLECTION,
};
use quantify_data::error::{FetchError, StoreError, TaskError};

fn ymd(year: i32, month: u32, day: u32) -> Date {
    Date::from_epoch_days(NaiveDate::from_ymd_opt(year, month, day).unwrap().to_epoch_days()).unwrap()
}

fn midnight(year: i32, month: u32, day: u32) -> i64 {
    (NaiveDate::from_ymd_opt(year, month, day).unwrap().to_epoch_days() as i64) * 86_400
}

fn price(value: f64) -> Price {
    Price { bits: value.to_bits() }
}

fn candle(ticker: &str, timestamp: i64, close: f64) -> CandleData {
    CandleData {
        ticker: ticker.to_string(),
        timestamp,
        open: price(close - 1.0),
        close: price(close),
        high: price(close + 2.0),
        low: price(close - 2.0),
        volume: 1000,
        num_transactions: 10,
    }
}

fn keys(candles: &Vec<CandleData>) -> Vec<(String, i64, f64)> {
    candles.iter().map(|c| (c.ticker.clone(), c.timestamp, f64::from_bits(c.close.bits))).collect()
}

fn fetch_error(message: &str) -> FetchError {
    FetchError { message: message.to_string() }
}

#[test]
fn collection_names() {
    assert_eq!(Granularity::Days(1).collection_name(), "day_candle");
    assert_eq!(Granularity::Days(5).collection_name(), "day_candle");
    assert_eq!(Granularity::Hours(1).collection_name(), "hour_candle");
    assert_eq!(Granularity::Minutes(15).collection_name(), "minute_candle");
    assert_eq!(DAY_CANDLE_COLLECTION, "day_candle");
    assert_eq!(HOUR_CANDLE_COLLECTION, "hour_candle");
    assert_eq!(MINUTE_CANDLE_COLLECTION, "minute_candle");
}

#[test]
fn price_keeps_the_bits_of_a_double() {
    let p = price(1115.46);
    assert_eq!(f64::from_bits(p.bits), 1115.46);
    assert_eq!(p, Price { bits: 1115.46f64.to_bits() });
}

#[test]
fn plan_fresh_ticker_looks_back_from_today() {
    let today = ymd(2024, 6, 1);
    let p = plan("ACME", Granularity::Days(1), &None, today, Lookback::weeks(52).unwrap())
        .unwrap();
    assert_eq!(p.ticker, "ACME");
    assert_eq!(p.granularity, Granularity::Days(1));
    assert_eq!(p.start, ymd(2023, 6, 3));
    assert_eq!(p.start.to_text(), "2023-06-03");
    assert_eq!(p.end, today);
    assert_eq!(p.end.to_text(), "2024-06-01");
}

#[test]
fn plan_fresh_ticker_one_year_back() {
    let today = ymd(2024, 6, 1);
    let p = plan("ACME", Granularity::Days(1), &None, today, Lookback::days(365).unwrap())
        .unwrap();
    assert_eq!(p.start, ymd(2023, 6, 2));
    assert_eq!(p.end, ymd(2024, 6, 1));
}

#[test]
fn plan_continues_from_latest_observation() {
    let today = ymd(2024, 6, 1);
    let latest = Some(candle("ACME", midnight(2024, 5, 30), 10.0));
    let p = plan("ACME", Granularity::Days(1), &latest, today, Lookback::weeks(52).unwrap())
        .unwrap();
    assert_eq!(p.start, ymd(2024, 5, 30));
    assert_eq!(p.end, today);
    let latest = Some(candle("ACME", midnight(2024, 5, 30) + 86_399, 10.0));
    let p = plan("ACME", Granularity::Hours(1), &latest, today, Lookback::weeks(52).unwrap())
        .unwrap();
    assert_eq!(p.start, ymd(2024, 5, 30));
    assert_eq!(p.granularity, Granularity::Hours(1));
}

#[test]
fn plan_fails_when_look_back_leaves_the_calendar() {
    let first = Date::from_epoch_days(MIN_EPOCH_DAY).unwrap();
    let r = plan("ACME", Granularity::Days(1), &None, first, Lookback::days(1).unwrap());
    assert!(matches!(r, Err(TaskError::Range)));
    let latest = Some(candle("ACME", 0, 10.0));
    let r = plan("ACME", Granularity::Days(1), &latest, first, Lookback::days(1).unwrap());
    assert!(matches!(r, Err(TaskError::Range)));
    let last = Date::from_epoch_days(MAX_EPOCH_DAY).unwrap();
    let r = plan("ACME", Granularity::Days(1), &None, last, Lookback::days(-1).unwrap());
    assert!(matches!(r, Err(TaskError::Range)));
    let r = plan("ACME", Granularity::Days(1), &None, first, Lookback::days(0).unwrap());
    assert_eq!(r.unwrap().start, first);
}

#[test]
fn plan_fails_when_latest_lies_outside_the_calendar() {
    let today = ymd(2024, 6, 1);
    let latest = Some(candle("ACME", i64::MAX, 10.0));
    let r = plan("ACME", Granularity::Days(1), &latest, today, Lookback::weeks(52).unwrap());
    assert!(matches!(r, Err(TaskError::Range)));
    let latest = Some(candle("ACME", i64::MIN, 10.0));
    let r = plan("ACME", Granularity::Days(1), &latest, today, Lookback::weeks(52).unwrap());
    assert!(matches!(r, Err(TaskError::Range)));
}

#[test]
fn fresh_keeps_everything_without_watermark() {
    let fetched = vec![candle("ACME", 10, 1.0), candle("ACME", 20, 2.0), candle("ACME", 30, 3.0)];
    let kept = fresh_observations(fetched, "ACME", None);
    assert_eq!(
        keys(&kept),
        vec![("ACME".to_string(), 10, 1.0), ("ACME".to_string(), 20, 2.0), ("ACME".to_string(), 30, 3.0)]
    );
}

#[test]
fn fresh_drops_what_is_not_after_the_watermark() {
    let fetched = vec![candle("ACME", 10, 1.0), candle("ACME", 20, 2.0), candle("ACME", 30, 3.0)];
    let kept = fresh_observations(fetched, "ACME", Some(20));
    assert_eq!(keys(&kept), vec![("ACME".to_string(), 30, 3.0)]);
    let fetched = vec![candle("ACME", 10, 1.0), candle("ACME", 20, 2.0)];
    assert!(fresh_observations(fetched, "ACME", Some(20)).is_empty());
    let fetched = vec![candle("ACME", i64::MIN, 1.0), candle("ACME", i64::MAX, 2.0)];
    let kept = fresh_observations(fetched, "ACME", Some(i64::MIN));
    assert_eq!(keys(&kept), vec![("ACME".to_string(), i64::MAX, 2.0)]);
}

#[test]
fn fresh_keeps_first_seen_of_each_timestamp() {
    let fetched = vec![
        candle("ACME", 30, 3.0),
        candle("ACME", 10, 1.0),
        candle("ACME", 30, 33.0),
        candle("ACME", 10, 11.0),
        candle("ACME", 20, 2.0),
        candle("ACME", 30, 333.0),
    ];
    let kept = fresh_observations(fetched, "ACME", None);
    assert_eq!(
        keys(&kept),
        vec![("ACME".to_string(), 30, 3.0), ("ACME".to_string(), 10, 1.0), ("ACME".to_string(), 20, 2.0)]
    );
}

#[test]
fn fresh_drops_other_tickers() {
    let fetched = vec![candle("OTHER", 30, 3.0), candle("ACME", 30, 33.0), candle("acme", 40, 4.0)];
    let kept = fresh_observations(fetched, "ACME", None);
    assert_eq!(keys(&kept), vec![("ACME".to_string(), 30, 33.0)]);
}

#[test]
fn fresh_of_nothing_is_nothing() {
    assert!(fresh_observations(Vec::new(), "ACME", None).is_empty());
    assert!(fresh_observations(Vec::new(), "ACME", Some(5)).is_empty());
}

#[test]
fn fresh_keeps_the_whole_observation() {
    let fetched = vec![CandleData {
        ticker: "ACME".to_string(),
        timestamp: 77,
        open: price(1.5),
        close: price(2.5),
        high: price(3.5),
        low: price(0.5),
        volume: 123,
        num_transactions: 45,
    }];
    let kept = fresh_observations(fetched, "ACME", Some(76));
    assert_eq!(kept.len(), 1);
    assert_eq!(kept[0].ticker, "ACME");
    assert_eq!(kept[0].timestamp, 77);
    assert_eq!(f64::from_bits(kept[0].open.bits), 1.5);
    assert_eq!(f64::from_bits(kept[0].close.bits), 2.5);
    assert_eq!(f64::from_bits(kept[0].high.bits), 3.5);
    assert_eq!(f64::from_bits(kept[0].low.bits), 0.5);
    assert_eq!(kept[0].volume, 123);
    assert_eq!(kept[0].num_transactions, 45);
}

#[test]
fn reconcile_takes_primary_when_it_answers() {
    let results = vec![
        Ok(vec![candle("ACME", 10, 1.0)]),
        Ok(vec![candle("ACME", 10, 9.0), candle("ACME", 20, 9.0)]),
    ];
    let kept = reconcile_timeseries("ACME", results, None).unwrap();
    assert_eq!(keys(&kept), vec![("ACME".to_string(), 10, 1.0)]);
}

#[test]
fn reconcile_does_not_fall_back_on_an_empty_answer() {
    let results = vec![Ok(Vec::new()), Ok(vec![candle("ACME", 10, 9.0)])];
    let kept = reconcile_timeseries("ACME", results, None).unwrap();
    assert!(kept.is_empty());
}

#[test]
fn reconcile_falls_back_to_first_provider_that_answers() {
    let results = vec![
        Err(fetch_error("rate limit")),
        Ok(vec![candle("ACME", 10, 2.0), candle("ACME", 20, 2.5)]),
        Ok(vec![candle("ACME", 10, 3.0), candle("ACME", 30, 3.5)]),
    ];
    let kept = reconcile_timeseries("ACME", results, None).unwrap();
    assert_eq!(keys(&kept), vec![("ACME".to_string(), 10, 2.0), ("ACME".to_string(), 20, 2.5)]);
    let results = vec![
        Err(fetch_error("rate limit")),
        Err(fetch_error("timeout")),
        Ok(vec![candle("ACME", 10, 3.0), candle("ACME", 30, 3.5)]),
    ];
    let kept = reconcile_timeseries("ACME", results, Some(10)).unwrap();
    assert_eq!(keys(&kept), vec![("ACME".to_string(), 30, 3.5)]);
}

#[test]
fn reconcile_without_any_answer_is_no_data() {
    let results = vec![Err(fetch_error("rate limit")), Err(fetch_error("timeout"))];
    match reconcile_timeseries("ACME", results, None) {
        Err(TaskError::NoData { ticker }) => assert_eq!(ticker, "ACME"),
        other => panic!("unexpected outcome {:?}", other),
    }
    match reconcile_timeseries("ACME", Vec::new(), None) {
        Err(TaskError::NoData { ticker }) => assert_eq!(ticker, "ACME"),
        other => panic!("unexpected outcome {:?}", other),
    }
}

#[test]
fn new_task_uses_given_look_back() {
    let task = UpdateCandleDataTask::new("GOOGL", Granularity::Hours(1), Some(Lookback::weeks(4).unwrap()));
    assert_eq!(task.ticker, "GOOGL");
    assert_eq!(task.granularity, Granularity::Hours(1));
    assert_eq!(task.max_historical_duration.num_seconds(), 4 * 7 * 86_400);
}

#[test]
fn new_task_defaults_to_260_weeks() {
    let task = UpdateCandleDataTask::new("GOOGL", Granularity::Days(1), None);
    assert_eq!(task.max_historical_duration.num_seconds(), 260 * 7 * 86_400);
    assert_eq!(task.max_historical_duration, Lookback::weeks(260).unwrap());
}

fn begin(task: &UpdateCandleDataTask, today: Date) -> UpdateState {
    let (state, action) = task.step(UpdateState::Start, UpdateEvent::Begin { today });
    match action {
        UpdateAction::FindLatest { collection, ticker } => {
            assert_eq!(collection, task.granularity.collection_name());
            assert_eq!(ticker, task.ticker);
        }
        other => panic!("unexpected action {:?}", other),
    }
    assert!(matches!(state, UpdateState::AwaitLatest { today: t } if t == today));
    state
}

#[test]
fn task_on_fresh_ticker_fetches_the_look_back_and_stores_all() {
    let task = UpdateCandleDataTask::new("ACME", Granularity::Days(1), Some(Lookback::weeks(52).unwrap()));
    let today = ymd(2024, 6, 1);
    let state = begin(&task, today);
    let (state, action) = task.step(state, UpdateEvent::Latest(Ok(None)));
    assert!(matches!(action, UpdateAction::Fetch { provider: Provider::Polygon }));
    match &state {
        UpdateState::AwaitFetch { plan, watermark, provider } => {
            assert_eq!(plan.ticker, "ACME");
            assert_eq!(plan.granularity, Granularity::Days(1));
            assert_eq!(plan.start, ymd(2023, 6, 3));
            assert_eq!(plan.end, today);
            assert_eq!(*watermark, None);
            assert_eq!(*provider, 0);
        }
        other => panic!("unexpected state {:?}", other),
    }
    let fetched = vec![candle("ACME", midnight(2024, 5, 30), 1.0), candle("ACME", midnight(2024, 5, 31), 2.0)];
    let (state, action) = task.step(state, UpdateEvent::Fetched(Ok(fetched)));
    assert!(matches!(state, UpdateState::AwaitInsert));
    match action {
        UpdateAction::InsertBatch { collection, records } => {
            assert_eq!(collection, "day_candle");
            assert_eq!(
                keys(&records),
                vec![
                    ("ACME".to_string(), midnight(2024, 5, 30), 1.0),
                    ("ACME".to_string(), midnight(2024, 5, 31), 2.0)
                ]
            );
        }
        other => panic!("unexpected action {:?}", other),
    }
    let (state, action) = task.step(state, UpdateEvent::Inserted(Ok(())));
    assert!(matches!(state, UpdateState::Done));
    assert!(matches!(action, UpdateAction::Finish(Ok(()))));
}

#[test]
fn task_continues_after_latest_and_stores_only_what_is_new() {
    let task = UpdateCandleDataTask::new("ACME", Granularity::Days(1), None);
    let today = ymd(2024, 6, 1);
    let state = begin(&task, today);
    let latest = candle("ACME", midnight(2024, 5, 30), 1.0);
    let (state, action) = task.step(state, UpdateEvent::Latest(Ok(Some(latest))));
    assert!(matches!(action, UpdateAction::Fetch { provider: Provider::Polygon }));
    match &state {
        UpdateState::AwaitFetch { plan, watermark, provider } => {
            assert_eq!(plan.start, ymd(2024, 5, 30));
            assert_eq!(plan.start.to_text(), "2024-05-30");
            assert_eq!(plan.end, today);
            assert_eq!(*watermark, Some(midnight(2024, 5, 30)));
            assert_eq!(*provider, 0);
        }
        other => panic!("unexpected state {:?}", other),
    }
    let fetched = vec![candle("ACME", midnight(2024, 5, 30), 1.5), candle("ACME", midnight(2024, 5, 31), 2.0)];
    let (state, action) = task.step(state, UpdateEvent::Fetched(Ok(fetched)));
    assert!(matches!(state, UpdateState::AwaitInsert));
    match action {
        UpdateAction::InsertBatch { collection, records } => {
            assert_eq!(collection, "day_candle");
            assert_eq!(keys(&records), vec![("ACME".to_string(), midnight(2024, 5, 31), 2.0)]);
        }
        other => panic!("unexpected action {:?}", other),
    }
}

#[test]
fn task_with_nothing_new_succeeds_without_insert() {
    let task = UpdateCandleDataTask::new("ACME", Granularity::Minutes(5), None);
    let state = begin(&task, ymd(2024, 6, 1));
    let latest = candle("ACME", midnight(2024, 5, 31), 1.0);
    let (state, _) = task.step(state, UpdateEvent::Latest(Ok(Some(latest))));
    let fetched = vec![candle("ACME", midnight(2024, 5, 30), 1.5), candle("ACME", midnight(2024, 5, 31), 2.0)];
    let (state, action) = task.step(state, UpdateEvent::Fetched(Ok(fetched)));
    assert!(matches!(state, UpdateState::Done));
    assert!(matches!(action, UpdateAction::Finish(Ok(()))));
    let state = begin(&task, ymd(2024, 6, 1));
    let (state, _) = task.step(state, UpdateEvent::Latest(Ok(None)));
    let (state, action) = task.step(state, UpdateEvent::Fetched(Ok(Vec::new())));
    assert!(matches!(state, UpdateState::Done));
    assert!(matches!(action, UpdateAction::Finish(Ok(()))));
}

#[test]
fn task_falls_back_to_second_provider_with_same_plan() {
    let task = UpdateCandleDataTask::new("ACME", Granularity::Days(1), None);
    let today = ymd(2024, 6, 1);
    let state = begin(&task, today);
    let latest = candle("ACME", midnight(2024, 5, 30), 1.0);
    let (state, _) = task.step(state, UpdateEvent::Latest(Ok(Some(latest))));
    let (state, action) = task.step(state, UpdateEvent::Fetched(Err(fetch_error("rate limit"))));
    assert!(matches!(action, UpdateAction::Fetch { provider: Provider::Tiingo }));
    match &state {
        UpdateState::AwaitFetch { plan, watermark, provider } => {
            assert_eq!(plan.ticker, "ACME");
            assert_eq!(plan.start, ymd(2024, 5, 30));
            assert_eq!(plan.end, today);
            assert_eq!(*watermark, Some(midnight(2024, 5, 30)));
            assert_eq!(*provider, 1);
        }
        other => panic!("unexpected state {:?}", other),
    }
    let fetched = vec![candle("ACME", midnight(2024, 5, 31), 7.0)];
    let (state, action) = task.step(state, UpdateEvent::Fetched(Ok(fetched)));
    assert!(matches!(state, UpdateState::AwaitInsert));
    match action {
        UpdateAction::InsertBatch { records, .. } => {
            assert_eq!(keys(&records), vec![("ACME".to_string(), midnight(2024, 5, 31), 7.0)]);
        }
        other => panic!("unexpected action {:?}", other),
    }
}

#[test]
fn task_without_any_answer_ends_with_no_data() {
    let task = UpdateCandleDataTask::new("ACME", Granularity::Days(1), None);
    let state = begin(&task, ymd(2024, 6, 1));
    let (state, _) = task.step(state, UpdateEvent::Latest(Ok(None)));
    let (state, _) = task.step(state, UpdateEvent::Fetched(Err(fetch_error("rate limit"))));
    let (state, action) = task.step(state, UpdateEvent::Fetched(Err(fetch_error("timeout"))));
    assert!(matches!(state, UpdateState::Done));
    match action {
        UpdateAction::Finish(Err(TaskError::NoData { ticker })) => assert_eq!(ticker, "ACME"),
        other => panic!("unexpected action {:?}", other),
    }
}

#[test]
fn task_surfaces_store_errors() {
    let task = UpdateCandleDataTask::new("ACME", Granularity::Days(1), None);
    let state = begin(&task, ymd(2024, 6, 1));
    let (state, action) =
        task.step(state, UpdateEvent::Latest(Err(StoreError { message: "connection lost".to_string() })));
    assert!(matches!(state, UpdateState::Done));
    match action {
        UpdateAction::Finish(Err(TaskError::Store(e))) => assert_eq!(e.message, "connection lost"),
        other => panic!("unexpected action {:?}", other),
    }
    let state = begin(&task, ymd(2024, 6, 1));
    let (state, _) = task.step(state, UpdateEvent::Latest(Ok(None)));
    let (state, _) = task.step(state, UpdateEvent::Fetched(Ok(vec![candle("ACME", 5, 1.0)])));
    let (state, action) =
        task.step(state, UpdateEvent::Inserted(Err(StoreError { message: "disk full".to_string() })));
    assert!(matches!(state, UpdateState::Done));
    match action {
        UpdateAction::Finish(Err(TaskError::Store(e))) => assert_eq!(e.message, "disk full"),
        other => panic!("unexpected action {:?}", other),
    }
}

#[test]
fn task_ends_with_range_error() {
    let task = UpdateCandleDataTask::new("ACME", Granularity::Days(1), Some(Lookback::days(1).unwrap()));
    let state = begin(&task, Date::from_epoch_days(MIN_EPOCH_DAY).unwrap());
    let (state, action) = task.step(state, UpdateEvent::Latest(Ok(None)));
    assert!(matches!(state, UpdateState::Done));
    assert!(matches!(action, UpdateAction::Finish(Err(TaskError::Range))));
}

#[test]
fn task_rejects_events_out_of_turn() {
    let task = UpdateCandleDataTask::new("ACME", Granularity::Days(1), None);
    let (state, action) = task.step(UpdateState::Start, UpdateEvent::Inserted(Ok(())));
    assert!(matches!(state, UpdateState::Done));
    assert!(matches!(action, UpdateAction::Finish(Err(TaskError::OutOfTurn))));
    let (state, action) = task.step(UpdateState::Done, UpdateEvent::Begin { today: ymd(2024, 6, 1) });
    assert!(matches!(state, UpdateState::Done));
    assert!(matches!(action, UpdateAction::Finish(Err(TaskError::OutOfTurn))));
    let (_, action) = task.step(UpdateState::AwaitInsert, UpdateEvent::Fetched(Ok(Vec::new())));
    assert!(matches!(action, UpdateAction::Finish(Err(TaskError::OutOfTurn))));
}

/// Runs one update against a collection held in memory and returns how many
/// observations it stored.
fn run_update(task: &UpdateCandleDataTask, stored: &mut Vec<CandleData>, upstream: &[(i64, f64)]) -> usize {
    let state = begin(task, ymd(2024, 6, 1));
    let latest = stored
        .iter()
        .filter(|c| c.ticker == task.ticker)
        .max_by_key(|c| c.timestamp)
        .map(|c| candle(&c.ticker, c.timestamp, f64::from_bits(c.close.bits)));
    let (state, action) = task.step(state, UpdateEvent::Latest(Ok(latest)));
    assert!(matches!(action, UpdateAction::Fetch { .. }));
    let fetched = upstream.iter().map(|(t, v)| candle(&task.ticker, *t, *v)).collect();
    let (state, action) = task.step(state, UpdateEvent::Fetched(Ok(fetched)));
    match action {
        UpdateAction::Finish(Ok(())) => 0,
        UpdateAction::InsertBatch { records, .. } => {
            let n = records.len();
            stored.extend(records);
            let (_, action) = task.step(state, UpdateEvent::Inserted(Ok(())));
            assert!(matches!(action, UpdateAction::Finish(Ok(()))));
            n
        }
        other => panic!("unexpected action {:?}", other),
    }
}

fn watermark(stored: &Vec<CandleData>, ticker: &str) -> Option<i64> {
    stored.iter().filter(|c| c.ticker == ticker).map(|c| c.timestamp).max()
}

fn has_duplicate_keys(stored: &Vec<CandleData>) -> bool {
    for i in 0..stored.len() {
        for j in (i + 1)..stored.len() {
            if stored[i].ticker == stored[j].ticker && stored[i].timestamp == stored[j].timestamp {
                return true;
            }
        }
    }
    false
}

#[test]
fn second_update_without_new_data_stores_nothing() {
    let task = UpdateCandleDataTask::new("ACME", Granularity::Days(1), None);
    let mut stored = Vec::new();
    let upstream = [(100, 1.0), (200, 2.0), (200, 2.5), (300, 3.0)];
    assert_eq!(run_update(&task, &mut stored, &upstream), 3);
    assert_eq!(run_update(&task, &mut stored, &upstream), 0);
    assert_eq!(run_update(&task, &mut stored, &upstream[2..]), 0);
    assert_eq!(stored.len(), 3);
}

#[test]
fn updates_never_store_a_key_twice() {
    let acme = UpdateCandleDataTask::new("ACME", Granularity::Days(1), None);
    let other = UpdateCandleDataTask::new("OTHER", Granularity::Days(1), None);
    let mut stored = Vec::new();
    run_update(&acme, &mut stored, &[(100, 1.0), (200, 2.0), (100, 1.5)]);
    run_update(&other, &mut stored, &[(100, 1.0), (150, 2.0)]);
    run_update(&acme, &mut stored, &[(200, 2.0), (300, 3.0), (300, 3.5), (50, 0.5)]);
    run_update(&other, &mut stored, &[(150, 2.0), (100, 1.0), (400, 4.0)]);
    run_update(&acme, &mut stored, &[(250, 2.5), (350, 3.5)]);
    assert!(!has_duplicate_keys(&stored));
    assert_eq!(
        keys(&stored),
        vec![
            ("ACME".to_string(), 100, 1.0),
            ("ACME".to_string(), 200, 2.0),
            ("OTHER".to_string(), 100, 1.0),
            ("OTHER".to_string(), 150, 2.0),
            ("ACME".to_string(), 300, 3.0),
            ("OTHER".to_string(), 400, 4.0),
            ("ACME".to_string(), 350, 3.5),
        ]
    );
}

#[test]
fn watermark_never_moves_back() {
    let task = UpdateCandleDataTask::new("ACME", Granularity::Days(1), None);
    let mut stored = Vec::new();
    let mut before = watermark(&stored, "ACME");
    assert_eq!(before, None);
    for upstream in [
        vec![(100, 1.0), (200, 2.0)],
        vec![(50, 0.5)],
        vec![],
        vec![(150, 1.5), (300, 3.0), (250, 2.5)],
        vec![(300, 3.0)],
    ] {
        run_update(&task, &mut stored, &upstream);
        let after = watermark(&stored, "ACME");
        assert!(before <= after);
        before = after;
    }
    assert_eq!(before, Some(300));
}

#[test]
#[allow(non_snake_case)]
fn UpdateCandleDataTaskTest() {
    let ticker = "GOOGL";
    let granularity = Granularity::Hours(1);
    let max_historical_duration = Some(Lookback::weeks(4).unwrap());
    let update_task = UpdateCandleDataTask::new(ticker, granularity, max_historical_duration);
    let mut stored = Vec::new();
    let stored_now = run_update(&update_task, &mut stored, &[(1_717_200_000, 170.5), (1_717_203_600, 171.0)]);
    assert_eq!(stored_now, 2);
    assert_eq!(stored.len(), 2);
    assert!(stored.iter().all(|c| c.ticker == "GOOGL"));
}
