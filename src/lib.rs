//! Creation of uniquely identified, timestamped records in a key-value store.
pub mod context;
pub mod creation;
pub mod record;
pub mod text;
