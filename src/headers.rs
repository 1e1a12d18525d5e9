//! The request's header collection, as held by axum's `HeaderMap`.

use axum::http::{HeaderMap, HeaderValue};
use vstd::prelude::*;

verus! {

#[verifier::external_type_specification]
#[verifier::external_body]
#[verifier::reject_recursive_types(T)]
pub struct ExHeaderMap<T>(HeaderMap<T>);

#[verifier::external_type_specification]
#[verifier::external_body]
pub struct ExHeaderValue(HeaderValue);

/// The values that a header map holds: each header name, in its lowercase
/// canonical form, mapped to the bytes of its values in insertion order.
pub uninterp spec fn header_values(h: HeaderMap) -> Map<Seq<char>, Seq<Seq<u8>>>;

/// A header name in canonical form: lowercase ASCII letters, digits and `-`.
pub open spec fn is_canonical_name(name: Seq<char>) -> bool {
    &&& name.len() > 0
    &&& forall|i: int|
        0 <= i < name.len() ==> ('a' <= #[trigger] name[i] <= 'z') || ('0' <= name[i] <= '9')
            || name[i] == '-'
}

/// The bytes of the first value held under `name`, if any.
pub open spec fn first_value(h: HeaderMap, name: Seq<char>) -> Option<Seq<u8>> {
    let values = header_values(h);
    if values.contains_key(name) && values[name].len() > 0 {
        Some(values[name][0])
    } else {
        None
    }
}

/// Relies on `HeaderMap::get` of the `http` crate (re-exported by axum): for
/// a name in canonical form it returns the first value stored under that
/// name, or `None` when there is none; `HeaderValue::as_bytes` gives its bytes.
#[verifier::external_body]
pub(crate) fn first_header_value(headers: &HeaderMap, name: &str) -> (r: Option<Vec<u8>>)
    requires
        is_canonical_name(name@),
    ensures
        r is Some <==> (header_values(*headers).contains_key(name@)
            && header_values(*headers)[name@].len() > 0),
        r matches Some(b) ==> b@ == header_values(*headers)[name@][0],
{
    match headers.get(name) {
        Some(v) => Some(v.as_bytes().to_vec()),
        None => None,
    }
}

} // verus!
