//! Staged validation of metadata fields: constrained value types and the
//! staged scalar / optional / list / record nodes that compose them.

pub mod age;
pub mod bounded_string;
pub mod cite_entry;
pub mod cite_widget;
pub mod cover_image;
pub mod model;
pub mod result;
pub mod staging;
pub mod version;
