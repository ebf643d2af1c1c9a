//! Tests of the shortener service: create with explicit and generated codes,
//! lookup hits and misses, and the code generator's output shape.

use short_url::errors::ApiError;
use short_url::store::ShortLinkStore;
use short_url::url::{
    create_url, generate_short_url, lookup_url, CreateUrlResponse, GENERATED_CODE_CHARS,
};

#[test]
fn create_with_explicit_code() {
    let mut store = ShortLinkStore::new();
    let response = create_url(
        &mut store,
        "https://example.com".to_string(),
        Some("abc".to_string()),
    );
    assert_eq!(
        response,
        CreateUrlResponse {
            short_url_code: "abc".to_string(),
            url: "https://example.com".to_string(),
        }
    );
    assert_eq!(
        lookup_url(&store, "abc"),
        Ok("https://example.com".to_string())
    );
}

#[test]
fn create_with_generated_code() {
    let mut store = ShortLinkStore::new();
    let response = create_url(&mut store, "https://example.org".to_string(), None);
    assert!(!response.short_url_code.is_empty());
    assert_eq!(response.short_url_code.chars().count(), GENERATED_CODE_CHARS);
    assert_eq!(response.url, "https://example.org");
    assert_eq!(
        lookup_url(&store, &response.short_url_code),
        Ok("https://example.org".to_string())
    );
}

#[test]
fn lookup_miss_is_not_found() {
    let store = ShortLinkStore::new();
    assert_eq!(
        lookup_url(&store, "missing"),
        Err(ApiError::NotFound("missing".to_string()))
    );
}

#[test]
fn create_overwrites_existing_code() {
    let mut store = ShortLinkStore::new();
    create_url(
        &mut store,
        "https://first.example".to_string(),
        Some("abc".to_string()),
    );
    let response = create_url(
        &mut store,
        "https://second.example".to_string(),
        Some("abc".to_string()),
    );
    assert_eq!(response.url, "https://second.example");
    assert_eq!(
        lookup_url(&store, "abc"),
        Ok("https://second.example".to_string())
    );
}

#[test]
fn generated_codes_are_distinct() {
    let mut codes: Vec<String> = Vec::new();
    for _ in 0..32 {
        let code = generate_short_url();
        assert_eq!(code.chars().count(), GENERATED_CODE_CHARS);
        assert!(!codes.contains(&code));
        codes.push(code);
    }
}
