//! Types of the post-proxy surface and the validation rule applied to a
//! create-post request before it is forwarded upstream.

use vstd::prelude::*;
use vstd::string::StrSliceExecFns;
use crate::errors::ApiError;

verus! {

/// A post as the upstream REST API represents it.
#[allow(non_snake_case)]
#[derive(Debug, PartialEq, Eq)]
pub struct Post {
    pub id: u64,
    pub title: String,
    pub body: String,
    pub userId: u64,
}

/// Parameters of a create-post request.
#[allow(non_snake_case)]
#[derive(Debug, PartialEq, Eq)]
pub struct CreatePostRouteParams {
    pub title: String,
    pub body: String,
    pub userId: u64,
}

/// Body of a successful create-post response.
#[derive(Debug, PartialEq, Eq)]
pub struct CreatePostResponse {
    pub id: u64,
}

/// Fewest characters a post title may have.
pub const MIN_TITLE_CHARS: usize = 2;

/// Checks a create-post request: the title must have at least
/// `MIN_TITLE_CHARS` characters. Returns `Ok` exactly on valid requests and
/// otherwise a `ValidationError` carrying the one message for the title.
pub fn validate_create_post(params: &CreatePostRouteParams) -> (r: Result<(), ApiError>)
    ensures
        params.title@.len() >= MIN_TITLE_CHARS ==> r is Ok,
        params.title@.len() < MIN_TITLE_CHARS ==> (r matches Err(e)
            && e matches ApiError::ValidationError(msgs)
            && msgs@.len() == 1
            && msgs@[0]@ == "Title is required and must be at least 2 characters"@),
{
    if params.title.as_str().unicode_len() >= MIN_TITLE_CHARS {
        Ok(())
    } else {
        Err(ApiError::ValidationError(
            vec!["Title is required and must be at least 2 characters".to_owned()],
        ))
    }
}

} // verus!
