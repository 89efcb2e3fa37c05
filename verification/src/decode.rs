//! The decoding front-end: from raw bytes to named integer fields.
//!
//! The structured text format itself is handled by an external parser; this
//! module states what that parser returns, looks fields up in its output,
//! and checks source-location extensions against the recognized allow-list.

use std::collections::BTreeMap;

use vstd::prelude::*;

use crate::error::DecodeError;

verus! {

/// What the external parser returns for a given byte sequence: `None` where
/// the bytes are not a well-formed map of string keys to integers, otherwise
/// the parsed `(key, value)` pairs. The result is a function of the bytes
/// alone.
pub uninterp spec fn ron_fields_of(bytes: Seq<u8>) -> Option<Seq<(Seq<char>, i64)>>;

/// Relies on `ron::de::from_bytes`: deserializing RON text into an ordered
/// map of string keys to integer values is deterministic in the input bytes;
/// `ron_fields_of` names its result. The error's span and code describe the
/// parse failure and are converted to this crate's decode error.
#[verifier::external_body]
pub(crate) fn parse_fields(bytes: &[u8]) -> (r: Result<Vec<(String, i64)>, DecodeError>)
    ensures
        r is Ok <==> ron_fields_of(bytes@) is Some,
        r matches Ok(v) ==> ron_fields_of(bytes@) == Some(v.deep_view()),
{
    match ron::de::from_bytes::<BTreeMap<String, i64>>(bytes) {
        Ok(m) => Ok(m.into_iter().collect()),
        Err(e) => Err(
            DecodeError {
                line: e.span.end.line as u64,
                col: e.span.end.col as u64,
                message: format!("{}", e.code),
            },
        ),
    }
}

/// The value of the first field named `key`, if any.
pub open spec fn lookup_field(fields: Seq<(Seq<char>, i64)>, key: Seq<char>) -> Option<i64>
    decreases fields.len(),
{
    if fields.len() == 0 {
        None
    } else if fields[0].0 == key {
        Some(fields[0].1)
    } else {
        lookup_field(fields.drop_first(), key)
    }
}

/// Find the first field named `key` among parsed fields.
pub fn find_field(fields: &Vec<(String, i64)>, key: &String) -> (r: Option<i64>)
    ensures
        r == lookup_field(fields.deep_view(), key@),
{
    let n = fields.len();
    let mut k: usize = 0;
    proof {
        assert(fields.deep_view().skip(0) =~= fields.deep_view());
    }
    while k < n
        invariant
            n == fields@.len(),
            k <= n,
            lookup_field(fields.deep_view(), key@) == lookup_field(
                fields.deep_view().skip(k as int),
                key@,
            ),
        decreases n - k,
    {
        if fields[k].0.eq(key) {
            proof {
                assert(fields.deep_view().skip(k as int)[0] == fields.deep_view()[k as int]);
            }
            return Some(fields[k].1);
        }
        proof {
            assert(fields.deep_view().skip(k as int)[0] == fields.deep_view()[k as int]);
            assert(fields.deep_view().skip(k as int).drop_first() =~= fields.deep_view().skip(
                k as int + 1,
            ));
        }
        k += 1;
    }
    proof {
        assert(fields.deep_view().skip(n as int) =~= Seq::<(Seq<char>, i64)>::empty());
    }
    None
}

/// The extensions under which a source location is recognized.
pub open spec fn extension_allowed(ext: Seq<char>) -> bool {
    ext == "ron"@ || ext == "config"@ || ext == "cfg"@
}

/// Whether `ext` is one of the recognized source-file extensions.
pub fn is_supported_extension(ext: &str) -> (r: bool)
    ensures
        r == extension_allowed(ext@),
{
    let e = String::from_str(ext);
    e.eq(&String::from_str("ron")) || e.eq(&String::from_str("config")) || e.eq(
        &String::from_str("cfg"),
    )
}

/// The recognized source-file extensions, in registration order.
pub fn extensions() -> (r: Vec<String>)
    ensures
        r@.len() == 3,
        r@[0]@ == "ron"@,
        r@[1]@ == "config"@,
        r@[2]@ == "cfg"@,
        forall|i: int| 0 <= i < 3 ==> extension_allowed(#[trigger] r@[i]@),
{
    let mut v: Vec<String> = Vec::new();
    v.push(String::from_str("ron"));
    v.push(String::from_str("config"));
    v.push(String::from_str("cfg"));
    v
}

} // verus!
