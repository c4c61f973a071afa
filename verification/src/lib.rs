//! Verified core of a firms catalogue service: record filtering for API
//! responses, paging, error mapping, role resolution, text handling for the
//! catalogue crawlers and the crawl counters.

pub mod ids;
pub mod text;
pub mod records;
pub mod firms;
pub mod content;
pub mod shared;
pub mod errors;
pub mod auth;
pub mod crawl;
pub mod processing;
pub mod inputs;
pub mod progress;
pub mod visits;
pub mod crawl_laws;
pub mod service_laws;

use vstd::prelude::*;

verus! {

} // verus!
