//! Route resolution for a small blog server: slug canonicalisation, post and
//! attachment lookup in an immutable blog store, and the response policy for
//! attachments. Everything here is pure; the HTTP adapter, the renderer and
//! file access live outside the library.
pub mod slug;
pub mod store;
pub mod route;
pub mod handlers;
pub mod laws;
