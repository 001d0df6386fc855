pub mod key;
pub mod model;
pub mod registry;
pub mod timeline;
pub mod text;
pub mod collector;
pub mod laws;
