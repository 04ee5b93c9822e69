//! The pure parts of the request handlers.

pub mod bulk;
pub mod root;
