//! What each operation does, said of its inputs and its results alone: of bytes,
//! fields and events, one by one.

pub mod answers;
pub mod authentication;
pub mod bytes;
pub mod capabilities;
pub mod records;
pub mod requests;
pub mod sessions;
pub mod tracing;
pub mod views;
