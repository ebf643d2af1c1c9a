//! The shortener service: the create/lookup protocol layered on the store,
//! and the code-generation policy applied when the caller supplies no code.

use vstd::prelude::*;
use crate::errors::ApiError;
use crate::store::ShortLinkStore;

verus! {

/// Parameters of a create request: the destination URL and the short code
/// under which to store it.
#[derive(Debug, PartialEq, Eq)]
pub struct CreateUrlRouteParams {
    pub url: String,
    pub short_url_code: String,
}

/// Body of a successful create response: the pair actually stored.
#[derive(Debug, PartialEq, Eq)]
pub struct CreateUrlResponse {
    pub short_url_code: String,
    pub url: String,
}

/// Length in characters of every generated short code (a hyphenated UUID).
pub const GENERATED_CODE_CHARS: usize = 36;

/// Relies on `uuid::Uuid::new_v4` and its `Display` rendering: a fresh random
/// version-4 UUID in hyphenated form, which is always exactly 36 characters.
/// The code itself is random, so nothing is assumed beyond the length.
#[verifier::external_body]
pub fn generate_short_url() -> (code: String)
    ensures
        code@.len() == GENERATED_CODE_CHARS,
{
    uuid::Uuid::new_v4().to_string()
}

/// Create: associates a code with the destination `url` in the store and
/// returns the pair actually stored. When the caller supplies no code, one is
/// generated. A create succeeds whether the code was previously absent
/// (first-time creation) or present (overwrite of an existing code).
pub fn create_url(
    store: &mut ShortLinkStore,
    url: String,
    short_url_code: Option<String>,
) -> (r: CreateUrlResponse)
    requires
        short_url_code matches Some(code) ==> code@.len() > 0,
    ensures
        r.url == url,
        (match short_url_code {
            Some(code) => r.short_url_code == code,
            None => r.short_url_code@.len() == GENERATED_CODE_CHARS,
        }),
        r.short_url_code@.len() > 0,
        final(store)@ == old(store)@.insert(r.short_url_code@, url@),
        old(store).codes_nonempty() ==> final(store).codes_nonempty(),
{
    let code = match short_url_code {
        Some(code) => code,
        None => generate_short_url(),
    };
    let _prev = store.put(code.clone(), url.clone());
    CreateUrlResponse { short_url_code: code, url }
}

/// Lookup: returns the destination stored for `short_url_code`, or fails with
/// `NotFound` naming the unknown code. The caller is expected to redirect to
/// the returned destination.
pub fn lookup_url(store: &ShortLinkStore, short_url_code: &str) -> (r: Result<String, ApiError>)
    ensures
        store@.contains_key(short_url_code@) ==> (r matches Ok(destination)
            && destination@ == store@[short_url_code@]),
        !store@.contains_key(short_url_code@) ==> (r matches Err(e)
            && e matches ApiError::NotFound(missing)
            && missing@ == short_url_code@),
{
    match store.get(short_url_code) {
        Some(destination) => Ok(destination),
        None => Err(ApiError::NotFound(short_url_code.to_owned())),
    }
}

} // verus!
