pub mod catalog;
pub mod driver;
pub mod layout;
pub mod metadata;
pub mod normalize;
pub mod render;
pub mod sanitize;
pub mod strings;
pub mod template;
