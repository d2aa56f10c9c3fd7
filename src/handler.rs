//! Merging a resolution into the caller's metadata, and the request's outcome.
use vstd::prelude::*;
use crate::metadata::{
    ImageMetadataNoKey,
    ImageMetadataWithKey,
    OrchestrationError,
    ResolutionError,
    WriteError,
};
use crate::resolver::{ListedObject, resolution_of};

verus! {

/// The body of the reply to a request whose record was written.
pub const CONFIRMATION: &'static str = "Successfully received metadata and wrote to DynamoDB";

/// The value that a resolved key takes in the record: the reference, or the
/// empty string where no object was found.
pub open spec fn sentinel_or(key: Option<Seq<char>>) -> Seq<char> {
    match key {
        Some(k) => k,
        None => Seq::empty(),
    }
}

/// The plain view of an optional key.
pub open spec fn key_view(key: Option<String>) -> Option<Seq<char>> {
    match key {
        Some(s) => Some(s@),
        None => None,
    }
}

/// The `final_image_key` that a listing's entries lead to, or `None` where
/// resolution fails and the request is refused.
pub open spec fn final_key_of_listing(entries: Seq<ListedObject>) -> Option<Seq<char>> {
    match resolution_of(entries) {
        Some(key) => Some(sentinel_or(key)),
        None => None,
    }
}

/// `merged` carries the eight fields of `inbound` unchanged.
pub open spec fn same_fields(merged: ImageMetadataWithKey, inbound: ImageMetadataNoKey) -> bool {
    &&& merged.url == inbound.url
    &&& merged.label == inbound.label
    &&& merged.type_ == inbound.type_
    &&& merged.season == inbound.season
    &&& merged.show_name == inbound.show_name
    &&& merged.designer == inbound.designer
    &&& merged.description == inbound.description
    &&& merged.request_id == inbound.request_id
}

/// Merges the resolution of `metadata.request_id` into the metadata.
///
/// A found reference is stored as it is; where no object was found the
/// reference is the empty string, so the field is always present. A failed
/// resolution is surfaced as an error rather than taken for absence.
pub fn get_image_metadata_with_key(
    metadata: ImageMetadataNoKey,
    resolved: Result<Option<String>, ResolutionError>,
) -> (r: Result<ImageMetadataWithKey, OrchestrationError>)
    ensures
        match resolved {
            Ok(key) => {
                &&& r is Ok
                &&& same_fields(r->Ok_0, metadata)
                &&& r->Ok_0.final_image_key is Some
                &&& r->Ok_0.final_image_key->Some_0@ == sentinel_or(key_view(key))
            },
            Err(e) => r == Err::<ImageMetadataWithKey, _>(OrchestrationError::Resolution(e)),
        },
{
    let final_image_key = match resolved {
        Ok(Some(key)) => key,
        Ok(None) => String::new(),
        Err(e) => {
            return Err(OrchestrationError::Resolution(e));
        },
    };
    Ok(
        ImageMetadataWithKey {
            url: metadata.url,
            label: metadata.label,
            type_: metadata.type_,
            season: metadata.season,
            show_name: metadata.show_name,
            designer: metadata.designer,
            description: metadata.description,
            request_id: metadata.request_id,
            final_image_key: Some(final_image_key),
        },
    )
}

/// The request's outcome once the write has returned: the confirmation text,
/// or the write's error.
pub fn handle_write_result(written: Result<(), WriteError>) -> (r: Result<String, OrchestrationError>)
    ensures
        match written {
            Ok(()) => r matches Ok(s) && s@ == CONFIRMATION@,
            Err(e) => r == Err::<String, _>(OrchestrationError::Write(e)),
        },
{
    match written {
        Ok(()) => Ok(String::from_str(CONFIRMATION)),
        Err(e) => Err(OrchestrationError::Write(e)),
    }
}

/// An identifier with no stored objects resolves to the empty reference, and
/// the request goes on to be written.
pub proof fn lemma_absent_is_empty_reference(entries: Seq<ListedObject>)
    requires
        entries.len() == 0,
    ensures
        final_key_of_listing(entries) == Some(Seq::<char>::empty()),
{
}

/// Where objects are listed, the reference is built from the last entry's key.
pub proof fn lemma_last_entry_is_selected(entries: Seq<ListedObject>)
    requires
        entries.len() > 0,
        entries.last().key is Some,
    ensures
        final_key_of_listing(entries) == Some(
            crate::resolver::reference_of(entries.last().key->Some_0@),
        ),
{
}

/// A selected entry without a key fails resolution, and the failure reaches
/// the caller instead of passing for absence.
pub proof fn lemma_missing_key_fails(entries: Seq<ListedObject>)
    requires
        entries.len() > 0,
        entries.last().key is None,
    ensures
        resolution_of(entries) is None,
        final_key_of_listing(entries) is None,
{
}

} // verus!
