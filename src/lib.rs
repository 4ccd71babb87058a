//! Item lifecycle core: validation, the store record format, audit records,
//! the JSON wire forms, request handling and event consumption.

pub mod audit;
pub mod config;
pub mod consumer;
pub mod error;
pub mod json;
pub mod model;
pub mod record;
pub mod router;
pub mod time;
pub mod validate;
