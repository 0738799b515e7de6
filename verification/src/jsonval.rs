//! Trusted boundary to `serde_json`: the declaration of its opaque value
//! type, and the unverified shape walk that the members extraction
//! (`members::extract_raw_members`) runs over it.
//!
//! Nothing here carries a contract of its own: what the two extractions
//! return is pinned by the named results `token::spec_token_fields` and
//! `members::spec_raw_members` on the wrappers that call this walk.

use vstd::prelude::*;

use crate::members::RawMember;

verus! {

#[verifier::external_type_specification]
#[verifier::external_body]
pub struct ExValue(serde_json::Value);

/// Part of the trusted members extraction: one element of the members array.
/// Relies on `Value::{get, as_str, is_object}`: a `username` string is
/// required; `attributes`, when present, must be an object, out of which the
/// two relevant value lists are read.
#[verifier::external_body]
pub(crate) fn member_of_value(m: &serde_json::Value) -> Option<RawMember> {
    let username = m.get("username")?.as_str()?.to_owned();
    let (uid, github_id) = match m.get("attributes") {
        None => (None, None),
        Some(a) => {
            if !a.is_object() {
                return None;
            }
            (attr_of_object(a, "uid")?, attr_of_object(a, "github_id")?)
        },
    };
    Some(RawMember { username: username, uid: uid, github_id: github_id })
}

/// Part of the trusted members extraction: one attribute's raw value list.
/// Relies on `Value::{get, is_null, as_array, as_str}`: absent or null is no
/// list, an array of strings is its entries, any other shape fails the walk.
#[verifier::external_body]
pub(crate) fn attr_of_object(attrs: &serde_json::Value, name: &str) -> Option<
    Option<Vec<String>>,
> {
    let field = match attrs.get(name) {
        None => {
            return Some(None);
        },
        Some(f) => f,
    };
    if field.is_null() {
        return Some(None);
    }
    let arr = field.as_array()?;
    let mut values = Vec::with_capacity(arr.len());
    for e in arr {
        values.push(e.as_str()?.to_owned());
    }
    Some(Some(values))
}

} // verus!
