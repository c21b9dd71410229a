//! A typed client core for a comics-catalog REST API: request signing,
//! filter-to-query mapping, endpoint description and reply decoding.

pub mod client;
pub mod endpoint;
pub mod filters;
pub mod model;
pub mod query;
pub mod response;
pub mod signing;
pub mod text;
pub mod time;
