//! Ingestion core for historical price data.
//!
//! The library decides and the program around it waits: every function here
//! goes from plain values to plain values, and whatever needs the store, the
//! network or the clock is asked for as an action and handed back as an
//! event.
//!
//! - `candle` plans incremental fetches, merges what the providers return
//!   and holds the task that updates candle data;
//! - `store` states what these updates guarantee of the stored collection;
//! - `add_ticker` and `resolver` settle the metadata of a ticker by vote;
//! - `polygon` and `tiingo` write the requests of the two providers and read
//!   their answers;
//! - `calendar`, `csv` and `text` hold dates, tables and text;
//! - `server` words the answers of the service.

pub mod add_ticker;
pub mod api_managers;
pub mod calendar;
pub mod candle;
pub mod csv;
pub mod error;
pub mod polygon;
pub mod resolver;
pub mod server;
pub mod store;
pub mod text;
pub mod tiingo;
