//! The REST interface of Tiingo: the requests for end-of-day prices and for
//! metadata, and the reading of what comes back.

pub mod eod;
pub mod meta;
