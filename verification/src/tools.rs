//! Generic tooling shared by the datasets: translated messages, dataset
//! metadata, and cache freshness rules.

pub mod cache;
pub mod message;
pub mod meta;
