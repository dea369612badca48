//! A capacity-bounded cache from string keys to string payloads with
//! least-recently-accessed eviction, together with the small pieces of
//! request handling that sit around it.

pub mod config;
pub mod utils;
pub mod cache;
pub mod clock;
pub mod entry;
pub mod laws;
pub mod model;
pub mod server;
pub mod store;
