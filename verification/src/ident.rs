//! Server-generated identifiers and content fingerprints: record ids and
//! bearer tokens (random UUIDs), short URL-safe slugs, and the MD5 content
//! digest used as the deduplication key.

use vstd::prelude::*;
use vstd::string::*;

verus! {

/// A lowercase hexadecimal digit.
pub open spec fn is_lower_hex_char(c: char) -> bool {
    (48 <= c as u32 && c as u32 <= 57) || (97 <= c as u32 && c as u32 <= 102)
}

/// The shape of a hyphenated UUID rendering: 36 characters, hyphens exactly
/// at positions 8, 13, 18 and 23, lowercase hex digits everywhere else —
/// all URL-safe.
pub open spec fn uuid_text(s: Seq<char>) -> bool {
    &&& s.len() == 36
    &&& forall|i: int|
        0 <= i < 36 ==> ((s[i] == '-') <==> (i == 8 || i == 13 || i == 18 || i == 23))
    &&& forall|i: int|
        0 <= i < 36 && !(i == 8 || i == 13 || i == 18 || i == 23) ==> is_lower_hex_char(s[i])
}

/// Relies on uuid's `Uuid::new_v4` and its `Display` form: a fresh random
/// version-4 UUID rendered as hyphenated lowercase hex (see `uuid_text`).
/// Nothing links two calls.
#[verifier::external_body]
pub(crate) fn fresh_uuid() -> (r: String)
    ensures
        uuid_text(r@),
{
    uuid::Uuid::new_v4().to_string()
}

/// A fresh opaque record identifier: a 36-character UUID rendering.
pub fn new_record_id() -> (r: String)
    ensures
        uuid_text(r@),
{
    fresh_uuid()
}

/// Generates a short URL-safe identifier: a fresh UUID with its hyphens
/// removed, truncated to `length` (at most the 32 hex characters a UUID
/// holds). Every character of the result is a lowercase hex digit.
pub fn generate_short_id(length: usize) -> (r: String)
    ensures
        r@.len() == if length <= 32 {
            length as int
        } else {
            32
        },
        forall|i: int| 0 <= i < r@.len() ==> is_lower_hex_char(#[trigger] r@[i]),
        forall|i: int| 0 <= i < r@.len() ==> r@[i] != '-',
{
    let u = fresh_uuid();
    let s = u.as_str();
    let mut hex = String::from_str(s.substring_char(0, 8));
    hex.append(s.substring_char(9, 13));
    hex.append(s.substring_char(14, 18));
    hex.append(s.substring_char(19, 23));
    hex.append(s.substring_char(24, 36));
    proof {
        assert(hex@.len() == 32);
        assert forall|i: int| 0 <= i < 32 implies is_lower_hex_char(#[trigger] hex@[i])
            && hex@[i] != '-' by {
            if i < 8 {
                assert(hex@[i] == u@[i]);
            } else if i < 12 {
                assert(hex@[i] == u@[i + 1]);
            } else if i < 16 {
                assert(hex@[i] == u@[i + 2]);
            } else if i < 20 {
                assert(hex@[i] == u@[i + 3]);
            } else {
                assert(hex@[i] == u@[i + 4]);
            }
        }
    }
    let n: usize = if length <= 32 {
        length
    } else {
        32
    };
    let out = String::from_str(hex.as_str().substring_char(0, n));
    proof {
        assert(forall|i: int| 0 <= i < out@.len() ==> out@[i] == hex@[i]);
    }
    out
}

/// The content fingerprint of a byte buffer, paired by callers with the
/// byte length to form the deduplication key.
pub uninterp spec fn md5_hex_of(b: Seq<u8>) -> Seq<char>;

/// Relies on md5's `compute` and the `LowerHex` rendering of its `Digest`:
/// the 128-bit digest of the bytes as 32 lowercase hex characters, a pure
/// function of the bytes alone.
#[verifier::external_body]
pub(crate) fn md5_hex(data: &[u8]) -> (r: String)
    ensures
        r@ == md5_hex_of(data@),
        r@.len() == 32,
{
    format!("{:x}", md5::compute(data))
}

} // verus!
