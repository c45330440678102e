//! Request metrics: counts of requests per scraper user agent, kept in memory
//! until they are flushed to the database, and the page that shows them.
pub mod metrics_counter;
pub mod page;
