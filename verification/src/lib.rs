//! Core of a small URL-shortener service: a shared mapping from short codes
//! to destination URLs, the create/lookup protocol layered on it, and the
//! code-generation policy, together with the service's error taxonomy and the
//! request/response types of its HTTP surface.

pub mod errors;
pub mod post;
pub mod store;
pub mod url;
