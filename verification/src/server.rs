//! What the service answers: the outcome of a task as a status and a
//! sentence.

use crate::add_ticker::AddTickerTask;
use crate::candle::{Granularity, UpdateCandleDataTask};
use crate::error::TaskError;
use vstd::prelude::*;
use vstd::string::StringExecFns;

verus! {

/// The answer to a request: whether it succeeded, and a sentence on it.
#[derive(Clone, Debug, PartialEq, Eq)]
pub struct StatusResponse {
    pub success: bool,
    pub info: Option<String>,
}

/// Whether `response` has this status and this sentence.
pub open spec fn says(response: StatusResponse, success: bool, info: Seq<char>) -> bool {
    &&& response.success == success
    &&& response.info matches Some(text)
    &&& text@ == info
}

/// Whether `response` is the answer to the outcome of a task: success with
/// the sentence `done`, or failure with the sentence `failed`, a colon and the
/// message of the error.
pub open spec fn answers_outcome(
    outcome: Result<(), TaskError>,
    done: Seq<char>,
    failed: Seq<char>,
    response: StatusResponse,
) -> bool {
    match outcome {
        Ok(_) => says(response, true, done),
        Err(e) => says(response, false, failed + ": "@ + e.message_text()),
    }
}

/// The answer to the outcome of a task.
fn outcome_reply(outcome: &Result<(), TaskError>, done: &str, failed: &str) -> (r: StatusResponse)
    ensures
        answers_outcome(*outcome, done@, failed@, r),
{
    match outcome {
        Ok(_) => StatusResponse { success: true, info: Some(String::from_str(done)) },
        Err(e) => {
            let mut info = String::from_str(failed);
            info.append(": ");
            info.append(e.message().as_str());
            StatusResponse { success: false, info: Some(info) }
        },
    }
}

/// Whether `r` is what a request to register a ticker leads to: the task for
/// the ticker, or the answer that none was provided.
pub open spec fn is_registration(ticker: Option<String>, r: Result<AddTickerTask, StatusResponse>) -> bool {
    match ticker {
        Some(name) => r matches Ok(task) && task.ticker@ == name@,
        None => r matches Err(response) && says(response, false, "Ticker not provided"@),
    }
}

/// Takes in a request to register a ticker: the task to run, or the answer
/// to give at once where the request names no ticker.
pub fn add_ticker(ticker: &Option<String>) -> (r: Result<AddTickerTask, StatusResponse>)
    ensures
        is_registration(*ticker, r),
{
    match ticker {
        Some(name) => Ok(AddTickerTask::new(name.as_str())),
        None => Err(
            StatusResponse { success: false, info: Some(String::from_str("Ticker not provided")) },
        ),
    }
}

/// The unit of a granularity, as a request names it.
#[derive(Clone, Copy, Debug, PartialEq, Eq, Structural)]
pub enum GranularityType {
    Minutes,
    Hours,
    Days,
}

/// The granularity of `value` units.
pub open spec fn granularity_of(unit: GranularityType, value: i32) -> Granularity {
    match unit {
        GranularityType::Minutes => Granularity::Minutes(value),
        GranularityType::Hours => Granularity::Hours(value),
        GranularityType::Days => Granularity::Days(value),
    }
}

/// Whether `r` is what a request to update candle data leads to: the task
/// for the ticker at the granularity, with the look-back of a task that is
/// given none, or the answer that no ticker was provided.
pub open spec fn is_update(
    ticker: Option<String>,
    unit: GranularityType,
    value: i32,
    r: Result<UpdateCandleDataTask, StatusResponse>,
) -> bool {
    match ticker {
        Some(name) => {
            &&& r matches Ok(task)
            &&& task.ticker@ == name@
            &&& task.granularity == granularity_of(unit, value)
            &&& task.max_historical_duration@ == UpdateCandleDataTask::default_lookback()
        },
        None => r matches Err(response) && says(response, false, "Ticker not provided"@),
    }
}

/// Takes in a request to update the candle data of a ticker: the task to run,
/// or the answer to give at once where the request names no ticker.
pub fn update_candle_data(ticker: &Option<String>, unit: GranularityType, value: i32) -> (r: Result<
    UpdateCandleDataTask,
    StatusResponse,
>)
    ensures
        is_update(*ticker, unit, value, r),
{
    let granularity = match unit {
        GranularityType::Minutes => Granularity::Minutes(value),
        GranularityType::Hours => Granularity::Hours(value),
        GranularityType::Days => Granularity::Days(value),
    };
    match ticker {
        Some(name) => Ok(UpdateCandleDataTask::new(name.as_str(), granularity, None)),
        None => Err(
            StatusResponse { success: false, info: Some(String::from_str("Ticker not provided")) },
        ),
    }
}

/// The answer to a request to register a ticker, once its task has ended.
pub fn add_ticker_reply(outcome: &Result<(), TaskError>) -> (r: StatusResponse)
    ensures
        answers_outcome(*outcome, "Subscribed to ticker"@, "Ticker subscription failed"@, r),
{
    outcome_reply(outcome, "Subscribed to ticker", "Ticker subscription failed")
}

/// The answer to a request to update candle data, once its task has ended.
/// A task that found nothing new has succeeded.
pub fn update_candle_data_reply(outcome: &Result<(), TaskError>) -> (r: StatusResponse)
    ensures
        answers_outcome(*outcome, "Added candle data"@, "Candle data update failed"@, r),
{
    outcome_reply(outcome, "Added candle data", "Candle data update failed")
}

/// The answer to a request to remove a ticker.
pub fn remove_ticker_reply() -> (r: StatusResponse)
    ensures
        says(r, true, "Removed ticker"@),
{
    StatusResponse { success: true, info: Some(String::from_str("Removed ticker")) }
}

} // verus!
