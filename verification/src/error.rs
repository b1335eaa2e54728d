//! The kinds of failure that a task can end with.

use vstd::prelude::*;
use vstd::string::StringExecFns;

verus! {

/// A call to a provider failed: the network, the credentials, a rate limit
/// or a response that could not be read.
#[derive(Clone, Debug, PartialEq, Eq)]
pub struct FetchError {
    pub message: String,
}

/// A read or a write against the persistent store failed.
#[derive(Clone, Debug, PartialEq, Eq)]
pub struct StoreError {
    pub message: String,
}

/// Why a task failed.
#[derive(Clone, Debug, PartialEq, Eq)]
pub enum TaskError {
    /// Every provider failed for the request of this ticker.
    NoData { ticker: String },
    /// A computed date range is invalid.
    Range,
    /// The store failed; its own words are kept.
    Store(StoreError),
    /// The task was handed an event that it was not waiting for.
    OutOfTurn,
}

/// The message of a task that found no data for `ticker`.
pub open spec fn no_data_text(ticker: Seq<char>) -> Seq<char> {
    "No data found for "@ + ticker
}

impl TaskError {
    /// The message that goes with this error.
    pub open spec fn message_text(&self) -> Seq<char> {
        match self {
            TaskError::NoData { ticker } => no_data_text(ticker@),
            TaskError::Range => "default start date is out of range"@,
            TaskError::Store(e) => e.message@,
            TaskError::OutOfTurn => "event out of turn"@,
        }
    }

    /// The message that goes with this error.
    pub fn message(&self) -> (r: String)
        ensures
            r@ == self.message_text(),
    {
        match self {
            TaskError::NoData { ticker } => {
                let mut text = String::from_str("No data found for ");
                text.append(ticker.as_str());
                text
            },
            TaskError::Range => String::from_str("default start date is out of range"),
            TaskError::Store(e) => e.message.clone(),
            TaskError::OutOfTurn => String::from_str("event out of turn"),
        }
    }
}

} // verus!
