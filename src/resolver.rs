//! Finding the stored object of a correlation identifier.
use vstd::prelude::*;

verus! {

/// The bucket that uploaded images are stored in.
pub const BUCKET: &'static str = "team-3-project-3";

/// One entry of an object listing, as the store returned it.
#[derive(Debug)]
pub struct ListedObject {
    pub key: Option<String>,
}

/// The prefix under which the objects of `request_id` are stored.
pub open spec fn prefix_of(request_id: Seq<char>) -> Seq<char> {
    "images/"@ + request_id + "/"@
}

/// The fully qualified reference of the object stored under `key`.
pub open spec fn reference_of(key: Seq<char>) -> Seq<char> {
    "s3://team-3-project-3/"@ + key
}

/// What a listing's entries resolve to: nothing when there are none, else the
/// reference of the last entry, which must carry a key.
pub open spec fn resolution_of(entries: Seq<ListedObject>) -> Option<Option<Seq<char>>> {
    if entries.len() == 0 {
        Some(None)
    } else {
        match entries.last().key {
            Some(k) => Some(Some(reference_of(k@))),
            None => None,
        }
    }
}

/// Builds the listing prefix `images/<request_id>/`.
pub fn key_prefix(request_id: &str) -> (r: String)
    ensures
        r@ == prefix_of(request_id@),
{
    let mut r = String::from_str("images/");
    r.append(request_id);
    r.append("/");
    r
}

/// Builds `s3://<bucket>/<key>` for an object key.
pub fn object_reference(key: &str) -> (r: String)
    ensures
        r@ == reference_of(key@),
{
    let mut r = String::from_str("s3://");
    r.append(BUCKET);
    r.append("/");
    r.append(key);
    proof {
        reveal_strlit("s3://");
        reveal_strlit("team-3-project-3");
        reveal_strlit("/");
        reveal_strlit("s3://team-3-project-3/");
        assert("s3://"@ + BUCKET@ + "/"@ =~= "s3://team-3-project-3/"@);
    }
    r
}

/// Resolves the outcome of the listing request for one correlation identifier.
///
/// `listing` is `Err` with the transport's message where the request failed,
/// else the listed entries in the order the store returned them (`None` where
/// the response held no contents). The last entry is selected.
pub fn get_final_image_key(listing: Result<Option<Vec<ListedObject>>, String>) -> (r: Result<
    Option<String>,
    crate::metadata::ResolutionError,
>)
    ensures
        match listing {
            Err(m) => r matches Err(crate::metadata::ResolutionError::Transport(e)) && e@ == m@,
            Ok(None) => r matches Ok(None),
            Ok(Some(entries)) => match resolution_of(entries@) {
                Some(Some(reference)) => r matches Ok(Some(s)) && s@ == reference,
                Some(None) => r matches Ok(None),
                None => r matches Err(crate::metadata::ResolutionError::MissingKey),
            },
        },
{
    match listing {
        Err(m) => Err(crate::metadata::ResolutionError::Transport(m)),
        Ok(None) => Ok(None),
        Ok(Some(entries)) => {
            if entries.len() == 0 {
                Ok(None)
            } else {
                let last = &entries[entries.len() - 1];
                match &last.key {
                    Some(k) => Ok(Some(object_reference(k.as_str()))),
                    None => Err(crate::metadata::ResolutionError::MissingKey),
                }
            }
        },
    }
}

} // verus!
