//! Miasma: serves an endless maze of poisoned training data to AI web scrapers.
//!
//! This crate holds the logic of the server: configuration values and their
//! parsing, the HTML templates that frame the poisoned data, the links that
//! lead scrapers deeper, the request-handling decisions and the per-agent
//! request metrics.
use vstd::prelude::*;

pub mod cli;
pub mod config;
pub mod logger;
pub mod metrics;
pub mod poison;
pub mod report;
pub mod response_templates;
pub mod router;
pub mod routes;
pub mod templates;
pub mod templating;
pub mod text;

verus! {

} // verus!
