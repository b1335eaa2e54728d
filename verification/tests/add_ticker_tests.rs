use quantify_data::add_ticker::{
    add_vote, reconcile_metadata, winner, AddTickerAction, AddTickerEvent, AddTickerState, AddTickerTask,
    ProviderMetadata, TICKER_COLLECTION,
};
use quantify_data::api_managers::Provider;
use quantify_data::error::{FetchError, StoreError, TaskError};
use quantify_data::server::add_ticker_reply;

fn answer(company_name: &str, exchange: &str) -> Result<ProviderMetadata, FetchError> {
    Ok(ProviderMetadata { company_name: company_name.to_string(), exchange: exchange.to_string() })
}

fn failure(message: &str) -> Result<ProviderMetadata, FetchError> {
    Err(FetchError { message: message.to_string() })
}

fn strings(values: &[&str]) -> Vec<String> {
    values.iter().map(|v| v.to_string()).collect()
}

#[test]
fn new_task_keeps_the_ticker_as_given() {
    assert_eq!(AddTickerTask::new("GOOGL").ticker, "GOOGL");
    assert_eq!(AddTickerTask::new("").ticker, "");
}

#[test]
fn votes_count_in_lower_case() {
    let mut votes = Vec::new();
    add_vote(&mut votes, "Alpha Corp");
    add_vote(&mut votes, "Alpha Corp");
    add_vote(&mut votes, "ALPHACORP");
    assert_eq!(votes, strings(&["alpha corp", "alpha corp", "alphacorp"]));
    assert_eq!(winner(&votes), "alpha corp");
}

#[test]
fn empty_votes_do_not_count() {
    let mut votes = strings(&["nyse"]);
    add_vote(&mut votes, "");
    assert_eq!(votes, strings(&["nyse"]));
    assert_eq!(winner(&Vec::new()), "");
}

#[test]
fn majority_vote_settles_company_name() {
    let responses = vec![answer("Alpha Corp", "NYSE"), answer("Alpha Corp", "NASDAQ"), answer("ALPHACORP", "nasdaq")];
    let record = reconcile_metadata("ACME", responses).unwrap();
    assert_eq!(record.ticker, "acme");
    assert_eq!(record.company_name, "alpha corp");
    assert_eq!(record.exchange, "nasdaq");
}

#[test]
fn tie_goes_to_provider_of_higher_priority() {
    let responses = vec![answer("Alphabet Inc.", "NASDAQ"), answer("Alphabet Inc - Class A", "XNAS")];
    let record = reconcile_metadata("GOOGL", responses).unwrap();
    assert_eq!(record.ticker, "googl");
    assert_eq!(record.company_name, "alphabet inc.");
    assert_eq!(record.exchange, "nasdaq");
}

#[test]
fn failed_provider_has_no_vote() {
    let responses = vec![failure("rate limit"), answer("Alphabet Inc - Class A", "XNAS")];
    let record = reconcile_metadata("GOOGL", responses).unwrap();
    assert_eq!(record.company_name, "alphabet inc - class a");
    assert_eq!(record.exchange, "xnas");
}

#[test]
fn empty_value_never_wins_over_a_value() {
    let responses = vec![answer("", ""), answer("", "XNAS"), answer("Acme", "")];
    let record = reconcile_metadata("ACME", responses).unwrap();
    assert_eq!(record.company_name, "acme");
    assert_eq!(record.exchange, "xnas");
    let responses = vec![answer("", ""), answer("", "")];
    let record = reconcile_metadata("ACME", responses).unwrap();
    assert_eq!(record.company_name, "");
    assert_eq!(record.exchange, "");
}

#[test]
fn no_answer_at_all_is_no_data() {
    let responses = vec![failure("rate limit"), failure("not found")];
    match reconcile_metadata("ZZZZ", responses) {
        Err(TaskError::NoData { ticker }) => assert_eq!(ticker, "zzzz"),
        other => panic!("unexpected outcome {:?}", other),
    }
    match reconcile_metadata("ZZZZ", Vec::new()) {
        Err(e) => assert_eq!(e.message(), "No data found for zzzz"),
        other => panic!("unexpected outcome {:?}", other),
    }
}

fn begin(task: &AddTickerTask) -> AddTickerState {
    let (state, action) = task.step(AddTickerState::Start, AddTickerEvent::Begin);
    match action {
        AddTickerAction::FetchMetadata { provider, ticker } => {
            assert_eq!(provider, Provider::Polygon);
            assert_eq!(ticker, task.ticker);
        }
        other => panic!("unexpected action {:?}", other),
    }
    state
}

#[test]
fn registration_asks_every_provider_then_replaces_the_record() {
    let task = AddTickerTask::new("GOOGL");
    let state = begin(&task);
    let (state, action) = task.step(state, AddTickerEvent::Metadata(answer("Alphabet Inc.", "XNAS")));
    match action {
        AddTickerAction::FetchMetadata { provider, ticker } => {
            assert_eq!(provider, Provider::Tiingo);
            assert_eq!(ticker, "GOOGL");
        }
        other => panic!("unexpected action {:?}", other),
    }
    let (state, action) = task.step(state, AddTickerEvent::Metadata(answer("Alphabet Inc - Class A", "NASDAQ")));
    match action {
        AddTickerAction::DeleteWhere { collection, ticker } => {
            assert_eq!(collection, "tickers");
            assert_eq!(collection, TICKER_COLLECTION);
            assert_eq!(ticker, "googl");
        }
        other => panic!("unexpected action {:?}", other),
    }
    let (state, action) = task.step(state, AddTickerEvent::Deleted(Ok(())));
    assert!(matches!(state, AddTickerState::AwaitInsert));
    match action {
        AddTickerAction::InsertOne { collection, record } => {
            assert_eq!(collection, "tickers");
            assert_eq!(record.ticker, "googl");
            assert_eq!(record.company_name, "alphabet inc.");
            assert_eq!(record.exchange, "xnas");
        }
        other => panic!("unexpected action {:?}", other),
    }
    let (state, action) = task.step(state, AddTickerEvent::Inserted(Ok(())));
    assert!(matches!(state, AddTickerState::Done));
    assert!(matches!(action, AddTickerAction::Finish(Ok(()))));
}

#[test]
fn registration_goes_on_when_one_provider_fails() {
    let task = AddTickerTask::new("GOOGL");
    let state = begin(&task);
    let (state, action) = task.step(state, AddTickerEvent::Metadata(failure("rate limit")));
    assert!(matches!(action, AddTickerAction::FetchMetadata { provider: Provider::Tiingo, .. }));
    let (state, action) = task.step(state, AddTickerEvent::Metadata(answer("Alphabet Inc - Class A", "NASDAQ")));
    assert!(matches!(action, AddTickerAction::DeleteWhere { .. }));
    match state {
        AddTickerState::AwaitDelete { record } => {
            assert_eq!(record.ticker, "googl");
            assert_eq!(record.company_name, "alphabet inc - class a");
            assert_eq!(record.exchange, "nasdaq");
        }
        other => panic!("unexpected state {:?}", other),
    }
}

#[test]
fn registration_without_any_answer_leaves_the_store_alone() {
    let task = AddTickerTask::new("ZZZZ");
    let mut actions = Vec::new();
    let (state, action) = task.step(AddTickerState::Start, AddTickerEvent::Begin);
    actions.push(action);
    let (state, action) = task.step(state, AddTickerEvent::Metadata(failure("not found")));
    actions.push(action);
    let (state, action) = task.step(state, AddTickerEvent::Metadata(failure("not found")));
    assert!(matches!(state, AddTickerState::Done));
    for earlier in &actions {
        assert!(matches!(earlier, AddTickerAction::FetchMetadata { .. }));
    }
    let outcome = match action {
        AddTickerAction::Finish(outcome) => outcome,
        other => panic!("unexpected action {:?}", other),
    };
    match &outcome {
        Err(TaskError::NoData { ticker }) => assert_eq!(ticker, "zzzz"),
        other => panic!("unexpected outcome {:?}", other),
    }
    let reply = add_ticker_reply(&outcome);
    assert!(!reply.success);
    assert_eq!(reply.info, Some("Ticker subscription failed: No data found for zzzz".to_string()));
}

#[test]
fn registration_surfaces_store_errors() {
    let task = AddTickerTask::new("GOOGL");
    let state = begin(&task);
    let (state, _) = task.step(state, AddTickerEvent::Metadata(answer("Alphabet Inc.", "XNAS")));
    let (state, _) = task.step(state, AddTickerEvent::Metadata(failure("rate limit")));
    let (state, action) =
        task.step(state, AddTickerEvent::Deleted(Err(StoreError { message: "connection lost".to_string() })));
    assert!(matches!(state, AddTickerState::Done));
    match action {
        AddTickerAction::Finish(Err(TaskError::Store(e))) => assert_eq!(e.message, "connection lost"),
        other => panic!("unexpected action {:?}", other),
    }
    let (state, action) = task.step(
        AddTickerState::AwaitInsert,
        AddTickerEvent::Inserted(Err(StoreError { message: "disk full".to_string() })),
    );
    assert!(matches!(state, AddTickerState::Done));
    match action {
        AddTickerAction::Finish(Err(TaskError::Store(e))) => assert_eq!(e.message, "disk full"),
        other => panic!("unexpected action {:?}", other),
    }
}

#[test]
fn registration_rejects_events_out_of_turn() {
    let task = AddTickerTask::new("GOOGL");
    let (state, action) = task.step(AddTickerState::Start, AddTickerEvent::Deleted(Ok(())));
    assert!(matches!(state, AddTickerState::Done));
    assert!(matches!(action, AddTickerAction::Finish(Err(TaskError::OutOfTurn))));
    let (_, action) = task.step(AddTickerState::Done, AddTickerEvent::Begin);
    assert!(matches!(action, AddTickerAction::Finish(Err(TaskError::OutOfTurn))));
}
