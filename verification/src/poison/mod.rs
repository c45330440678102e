//! Serving poison: how many links a response carries and where they lead,
//! how the poison is escaped, and the order of the parts of a poisoned response.
pub mod escape;
pub mod link_settings;
pub mod response_builder;
