//! Descriptors of the market-data endpoints.
//!
//! A request for candles leaves out every parameter whose value is empty,
//! and the list of fields where no field is selected.

mod candles;

pub use candles::{selected, selected_names, CandleField, CandlesOptions, CandlesRequest};
