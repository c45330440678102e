//! Response templates written against the `Templater` trait.
pub mod all;
pub mod cto_letter;
pub mod engineering_blog;
pub mod novel_research;

pub use cto_letter::CtoLetter;
pub use engineering_blog::EngineeringBlog;
pub use novel_research::NovelResearch;
pub use all::{response_template, ResponseTemplate, RESPONSE_TEMPLATE_COUNT};
