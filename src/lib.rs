pub mod buffer;
pub mod editor;
pub mod view;
pub mod laws;
