//! Resolve-then-persist ingestion of image metadata.
//!
//! An upload announces an image by its metadata and a correlation identifier.
//! The library finds the object that was stored for that identifier, merges its
//! reference into the metadata, and builds the record that is written to the
//! key-value table. The network calls themselves are made by the caller, who
//! hands their outcomes to the functions here as plain values.
pub mod metadata;
pub mod resolver;
pub mod record;
pub mod handler;
