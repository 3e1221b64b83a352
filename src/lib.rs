//! Reads the tags of one audio file, as a host application hands them over,
//! and turns them into a fixed seven-field record rendered as JSON text.
pub mod json;
pub mod metadata;
pub mod tags;
pub mod laws;
