//! Identifiers for stored documents and the storage paths derived from them.
//!
//! An identifier is a short token of ASCII letters and digits. Fresh ones are
//! drawn at random from the 62-symbol alphabet; identifiers received from a
//! client are accepted only after validation, so that none can name a path
//! outside the storage root.

pub mod alphabet;
pub mod api;
pub mod doc_id;
pub mod random;
pub mod store;
pub mod upload;
