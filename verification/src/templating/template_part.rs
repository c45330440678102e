//! Part of a template: a `&'static str` or a nested `TemplateIter`.
//!
//! ```
//! use miasma::templating::{TemplateIter, TemplatePart};
//!
//! let part: TemplatePart = "hello".into();
//! let part: TemplatePart = TemplateIter::new(vec!["hello".into()]).into();
//! ```
pub use crate::templates::template::Part as TemplatePart;
