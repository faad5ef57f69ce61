//! Descriptors of the intraday endpoints.
//!
//! Each endpoint keeps to one way with options that are not set. A request
//! for the chart leaves out an empty symbol and an odd-lot flag that is not
//! raised. Requests for meta, quote, volumes and dealts always send every
//! parameter, an empty or default value included.

mod chart;
mod dealts;
mod meta;
mod quote;
mod volumes;

pub use chart::ChartRequest;
pub use dealts::{DealtsOptions, DealtsRequest};
pub use meta::MetaRequest;
pub use quote::QuoteRequest;
pub use volumes::VolumesRequest;

use vstd::prelude::*;

verus! {

/// The options that every intraday request carries.
pub struct IntradayOptions {
    pub symbol_id: Seq<char>,
    pub odd_lot: bool,
}

} // verus!
