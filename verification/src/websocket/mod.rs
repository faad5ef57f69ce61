//! Streaming subscriptions: the session that supervises them and the
//! lifecycle of the worker behind each one.

pub mod intraday;

pub use intraday::{Intraday, IntradayBuilder};
