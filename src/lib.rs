//! Gathers the files that glob patterns select into one labelled text buffer.

pub mod laws;
pub mod matcher;
pub mod patterns;
pub mod render;
pub mod select;
pub mod summary;
pub mod text;
