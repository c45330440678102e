//! The templating interface of response templates: the parts of a template,
//! the iterator over them, and the `Templater` trait.
pub mod builder;
pub mod template_part;
pub mod template_trait;

pub use crate::templates::template::TemplateIter;
pub use builder::TemplateBuilder;
pub use template_part::TemplatePart;
pub use template_trait::{TemplateTone, Templater};
