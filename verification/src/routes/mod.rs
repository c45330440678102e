//! The plain HTML page of a poison response, built as one string.
pub mod html_builder;
