//! The version extractor: from a request's headers to a normalized version
//! string, `latest` when the header is absent.

use axum::http::HeaderMap;
use vstd::prelude::*;
use vstd::utf8::{
    decode_utf8, encode_utf8, encode_utf8_decode_utf8, encode_utf8_valid_utf8, valid_utf8,
};

use crate::headers::{first_header_value, first_value, is_canonical_name};
use crate::text::{
    all_white_space, decode_utf8_text, is_white_space, lower_of, normalize_version, normalized,
    trim_end, trim_start, trimmed,
};

verus! {

/// Name of the header that carries the version, in canonical form.
pub const VERSION_HEADER: &'static str = "x-version";

/// Version used when the request carries no version header.
pub const DEFAULT_VERSION: &'static str = "latest";

/// The version that a request asks for.
#[derive(Debug, Clone)]
pub struct ExtractVersion(pub String);

impl View for ExtractVersion {
    type V = Seq<char>;

    open spec fn view(&self) -> Seq<char> {
        self.0@
    }
}

/// Why no version could be extracted.
#[derive(Debug, Clone, Copy, PartialEq, Eq, Structural)]
pub enum VersionRejection {
    /// The header value is not valid UTF-8 text.
    MalformedHeader,
}

impl VersionRejection {
    /// A short diagnostic for the client.
    pub fn message(&self) -> (r: &'static str)
        ensures
            r@ == "malformed version header"@,
    {
        "malformed version header"
    }
}

/// The raw header value as a byte sequence, if present.
pub open spec fn bytes_of(raw: Option<&[u8]>) -> Option<Seq<u8>> {
    match raw {
        Some(b) => Some(b@),
        None => None,
    }
}

/// What extraction yields for the raw bytes of the version header, or for
/// its absence.
pub open spec fn extraction(raw: Option<Seq<u8>>) -> Result<Seq<char>, VersionRejection> {
    match raw {
        None => Ok(DEFAULT_VERSION@),
        Some(b) => if valid_utf8(b) {
            Ok(normalized(decode_utf8(b)))
        } else {
            Err(VersionRejection::MalformedHeader)
        },
    }
}

/// The outcome of an extraction, with the version seen as its characters.
pub open spec fn outcome(r: Result<ExtractVersion, VersionRejection>) -> Result<
    Seq<char>,
    VersionRejection,
> {
    match r {
        Ok(v) => Ok(v@),
        Err(e) => Err(e),
    }
}

impl ExtractVersion {
    /// Extracts the version from the raw bytes of the version header, or from
    /// its absence: the default when absent, the normalized text when the
    /// bytes are valid UTF-8, and a rejection otherwise.
    pub fn from_header_value(raw: Option<&[u8]>) -> (r: Result<ExtractVersion, VersionRejection>)
        ensures
            outcome(r) == extraction(bytes_of(raw)),
            raw is None ==> (r matches Ok(v) && v@ == DEFAULT_VERSION@),
            (raw matches Some(b) && valid_utf8(b@) && all_white_space(decode_utf8(b@))) ==> (r matches Ok(v) && v@.len() == 0),
    {
        match raw {
            None => Ok(ExtractVersion(DEFAULT_VERSION.to_owned())),
            Some(b) => match decode_utf8_text(b) {
                Some(t) => Ok(ExtractVersion(normalize_version(t))),
                None => Err(VersionRejection::MalformedHeader),
            },
        }
    }

    /// Extracts the version from a request's headers, through the first value
    /// held under the version header's name.
    pub fn from_headers(headers: &HeaderMap) -> (r: Result<ExtractVersion, VersionRejection>)
        ensures
            outcome(r) == extraction(first_value(*headers, VERSION_HEADER@)),
            first_value(*headers, VERSION_HEADER@) is None ==> (r matches Ok(v) && v@
                == DEFAULT_VERSION@),
    {
        proof {
            reveal_strlit("x-version");
            assert(is_canonical_name(VERSION_HEADER@));
        }
        match first_header_value(headers, VERSION_HEADER) {
            Some(b) => Self::from_header_value(Some(b.as_slice())),
            None => Self::from_header_value(None),
        }
    }
}

/// Any text sent as the version header's value, in UTF-8, is extracted as
/// that text trimmed and lowercased.
pub proof fn lemma_text_value_extracts_normalized(v: Seq<char>)
    ensures
        extraction(Some(encode_utf8(v))) == Ok::<Seq<char>, VersionRejection>(normalized(v)),
{
    encode_utf8_valid_utf8(v);
    encode_utf8_decode_utf8(v);
}

/// A value that is already normalized (lowercase, without surrounding
/// whitespace) is left unchanged by normalization, and is extracted as it is.
pub proof fn lemma_normalized_value_unchanged(v: Seq<char>)
    requires
        lower_of(v) == v,
        v.len() > 0 ==> !is_white_space(v[0]) && !is_white_space(v.last()),
    ensures
        normalized(v) == v,
        extraction(Some(encode_utf8(v))) == Ok::<Seq<char>, VersionRejection>(v),
{
    assert(trim_start(v) == v);
    assert(trim_end(v) == v);
    assert(trimmed(v) == v);
    lemma_text_value_extracts_normalized(v);
}

} // verus!
