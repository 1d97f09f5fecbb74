//! Core logic of a desktop ticker that polls a price/OHLC gateway and a
//! blockchain-explorer gateway and shows the results.
//!
//! The library holds everything that can be stated and proved: the shared
//! application state and its refresh transitions, the render-loop buffer
//! maintenance, the numeric parsing of upstream text fields, and the
//! normalization of a user-supplied endpoint URL. Network and file I/O live
//! outside the library and hand it plain values.

pub mod bitstamp;
pub mod config;
pub mod history;
pub mod laws;
pub mod mempool;
pub mod parse;
pub mod render;
pub mod state;
pub mod timefmt;
