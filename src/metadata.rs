//! The records that flow through one request.
use vstd::prelude::*;

verus! {

/// Metadata of an uploaded image as the caller sends it, before the object key
/// is known.
#[derive(Debug)]
pub struct ImageMetadataNoKey {
    pub url: String,
    pub label: String,
    pub type_: String,
    pub season: String,
    pub show_name: String,
    pub designer: String,
    pub description: String,
    /// Correlation identifier that links the upload to its stored object.
    pub request_id: String,
}

/// The merged record, ready to persist.
#[derive(Debug)]
pub struct ImageMetadataWithKey {
    pub url: String,
    pub label: String,
    pub type_: String,
    pub season: String,
    pub show_name: String,
    pub designer: String,
    pub description: String,
    pub request_id: String,
    /// Fully qualified reference of the stored object; the empty string when
    /// no object was found.
    pub final_image_key: Option<String>,
}

/// Why the stored object could not be resolved.
#[derive(Debug)]
pub enum ResolutionError {
    /// The listing's selected entry carries no key.
    MissingKey,
    /// The listing request itself failed; the transport's message.
    Transport(String),
}

/// Why a write to the key-value table failed; the store's message.
#[derive(Debug)]
pub struct WriteError {
    pub message: String,
}

/// Why a request as a whole failed.
#[derive(Debug)]
pub enum OrchestrationError {
    Resolution(ResolutionError),
    Write(WriteError),
}

} // verus!
