//! Blob-store metadata: MIME-type inference from a file extension or from
//! magic bytes, and the object-key layout for stored source binaries. The
//! remote object-store client itself lives outside the library; only the
//! pure rules it needs are here.

use vstd::prelude::*;
use crate::text::{self, spec_lower_chars};
use crate::validation::spec_sniff;

verus! {

/// MIME type for a file extension, compared ASCII-case-insensitively;
/// unknown extensions fall back to the generic binary type.
pub open spec fn ext_mime(e: Seq<char>) -> Seq<char> {
    let l = spec_lower_chars(e);
    if l == "png"@ {
        "image/png"@
    } else if l == "jpg"@ || l == "jpeg"@ {
        "image/jpeg"@
    } else if l == "gif"@ {
        "image/gif"@
    } else if l == "svg"@ {
        "image/svg+xml"@
    } else if l == "ico"@ {
        "image/x-icon"@
    } else {
        "application/octet-stream"@
    }
}

/// MIME type inferred from magic bytes, with the generic binary type for a
/// buffer under 4 bytes or one matching no known signature.
pub open spec fn spec_detect_mime(b: Seq<u8>) -> Seq<char> {
    match spec_sniff(b) {
        Some(m) => m,
        None => "application/octet-stream"@,
    }
}

proof fn lemma_lower_fixed_ext()
    ensures
        spec_lower_chars("png"@) == "png"@,
        spec_lower_chars("jpg"@) == "jpg"@,
        spec_lower_chars("jpeg"@) == "jpeg"@,
        spec_lower_chars("gif"@) == "gif"@,
        spec_lower_chars("svg"@) == "svg"@,
        spec_lower_chars("ico"@) == "ico"@,
{
    reveal_strlit("png");
    reveal_strlit("jpg");
    reveal_strlit("jpeg");
    reveal_strlit("gif");
    reveal_strlit("svg");
    reveal_strlit("ico");
    assert(spec_lower_chars("png"@) =~= "png"@);
    assert(spec_lower_chars("jpg"@) =~= "jpg"@);
    assert(spec_lower_chars("jpeg"@) =~= "jpeg"@);
    assert(spec_lower_chars("gif"@) =~= "gif"@);
    assert(spec_lower_chars("svg"@) =~= "svg"@);
    assert(spec_lower_chars("ico"@) =~= "ico"@);
}

/// Maps a file extension to its MIME type. Returns exactly `ext_mime(ext)`.
pub fn mime_type_from_extension(ext: &str) -> (r: String)
    ensures
        r@ == ext_mime(ext@),
{
    proof {
        lemma_lower_fixed_ext();
    }
    if text::str_eq_ignore_ascii_case(ext, "png") {
        String::from_str("image/png")
    } else if text::str_eq_ignore_ascii_case(ext, "jpg") || text::str_eq_ignore_ascii_case(
        ext,
        "jpeg",
    ) {
        String::from_str("image/jpeg")
    } else if text::str_eq_ignore_ascii_case(ext, "gif") {
        String::from_str("image/gif")
    } else if text::str_eq_ignore_ascii_case(ext, "svg") {
        String::from_str("image/svg+xml")
    } else if text::str_eq_ignore_ascii_case(ext, "ico") {
        String::from_str("image/x-icon")
    } else {
        String::from_str("application/octet-stream")
    }
}

/// Classifies stored content by magic bytes (used when a key carries no
/// usable extension). Returns exactly `spec_detect_mime(buffer)`.
pub fn detect_mime_type(buffer: &[u8]) -> (r: String)
    ensures
        r@ == spec_detect_mime(buffer@),
{
    match crate::validation::sniff_image(buffer) {
        Some(m) => String::from_str(m),
        None => String::from_str("application/octet-stream"),
    }
}

/// The index of the last `.` in `s`, if any.
pub open spec fn last_dot(s: Seq<char>) -> Option<int>
    decreases s.len(),
{
    if s.len() == 0 {
        None
    } else if s[s.len() - 1] == '.' {
        Some(s.len() - 1)
    } else {
        last_dot(s.drop_last())
    }
}

/// The extension of a storage key: the text after its last dot, or the whole
/// key when it has none (mirroring taking the last `.`-separated segment).
pub open spec fn spec_key_ext(s: Seq<char>) -> Seq<char> {
    match last_dot(s) {
        Some(i) => s.skip(i + 1),
        None => s,
    }
}

proof fn lemma_last_dot(s: Seq<char>)
    ensures
        match last_dot(s) {
            Some(i) => 0 <= i < s.len() && s[i] == '.' && forall|j: int|
                i < j < s.len() ==> s[j] != '.',
            None => forall|j: int| 0 <= j < s.len() ==> s[j] != '.',
        },
    decreases s.len(),
{
    if s.len() > 0 && s[s.len() - 1] != '.' {
        lemma_last_dot(s.drop_last());
        match last_dot(s.drop_last()) {
            Some(i) => {
                assert(s.drop_last()[i] == s[i]);
                assert forall|j: int| i < j < s.len() implies s[j] != '.' by {
                    if j < s.len() - 1 {
                        assert(s.drop_last()[j] == s[j]);
                    }
                }
            },
            None => {
                assert forall|j: int| 0 <= j < s.len() implies s[j] != '.' by {
                    if j < s.len() - 1 {
                        assert(s.drop_last()[j] == s[j]);
                    }
                }
            },
        }
    }
}

/// The MIME type served for a stored object, inferred from its key's
/// extension. Returns exactly `ext_mime(spec_key_ext(key))`.
pub fn mime_type_for_key(key: &str) -> (r: String)
    ensures
        r@ == ext_mime(spec_key_ext(key@)),
{
    let ghost s = key@;
    let len = key.unicode_len();
    let mut i: usize = len;
    while i > 0 && key.get_char(i - 1) != '.'
        invariant
            i <= len,
            len == s.len(),
            s == key@,
            forall|j: int| i <= j < s.len() ==> s[j] != '.',
        decreases i,
    {
        i -= 1;
    }
    proof {
        lemma_last_dot(s);
        if i > 0 {
            match last_dot(s) {
                Some(d) => {
                    if d < i - 1 {
                        assert(s[i - 1] != '.');
                        assert(false);
                    }
                    if d > i - 1 {
                        assert(s[d] != '.');
                        assert(false);
                    }
                },
                None => {
                    assert(s[i - 1] != '.');
                    assert(false);
                },
            }
            assert(last_dot(s) == Some(i - 1 as int));
        } else {
            match last_dot(s) {
                Some(d) => {
                    assert(s[d] != '.');
                    assert(false);
                },
                None => {},
            }
        }
    }
    let ext = key.substring_char(i, len);
    proof {
        if i > 0 {
            assert(ext@ =~= spec_key_ext(s));
        } else {
            assert(ext@ =~= s);
        }
    }
    mime_type_from_extension(ext)
}

/// The object-storage key of a record's source binary:
/// `sources/{id}/original`.
pub fn source_key_for(id: &str) -> (r: String)
    ensures
        r@ == "sources/"@ + id@ + "/original"@,
{
    let mut key = String::from_str("sources/");
    key.append(id);
    key.append("/original");
    key
}

} // verus!
