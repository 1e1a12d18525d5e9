//! Extraction of a normalized version identifier from the `X-Version`
//! request header.

pub mod extract;
pub mod headers;
pub mod text;

pub use extract::{ExtractVersion, VersionRejection};
