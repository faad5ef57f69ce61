//! Client-side core of a market-data service: query descriptors, response
//! classification, the dispatcher's decisions and the lifecycle of streaming
//! workers, each with a machine-checked contract.

pub mod errors;
pub mod http;
pub mod text;
pub mod websocket;
