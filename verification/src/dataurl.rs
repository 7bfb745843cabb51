//! Canvas submissions arrive as a data-URL: `data:<mime>;base64,<payload>`.
//! This module splits the header from the payload, reads the MIME type, and
//! decodes the base64 body; a missing `data:` prefix, `,` separator or
//! `base64` marker, or malformed base64, is a bad-request error.

use vstd::prelude::*;
use crate::error::ApiError;
use crate::text::{self, contains_chars, first_index_of, seq_starts_with};

verus! {

/// What base64 decoding yields for a text, when the text is well-formed
/// base64 (the decoding is a pure function of the text alone).
pub uninterp spec fn base64_decoding(s: Seq<char>) -> Option<Seq<u8>>;

/// Relies on base64's `decode` (standard alphabet): decoding succeeds
/// exactly on well-formed base64 text, and its result depends on the text
/// alone.
#[verifier::external_body]
fn decode_base64(s: &str) -> (r: Option<Vec<u8>>)
    ensures
        match r {
            Some(v) => base64_decoding(s@) == Some(v@),
            None => base64_decoding(s@) is None,
        },
{
    base64::decode(s).ok()
}

/// The header and payload of a data-URL: the text between `data:` and the
/// first `,`, and the text after that `,`. `None` when the `data:` prefix
/// or the separator is missing.
pub open spec fn data_url_parts(s: Seq<char>) -> Option<(Seq<char>, Seq<char>)> {
    if !seq_starts_with(s, "data:"@) {
        None
    } else {
        let rest = s.skip("data:"@.len() as int);
        match first_index_of(rest, ',') {
            None => None,
            Some(c) => Some((rest.take(c), rest.skip(c + 1))),
        }
    }
}

/// The MIME type of a data-URL header: the text before the first `;`, or
/// the whole header when it has none.
pub open spec fn mime_of_header(h: Seq<char>) -> Seq<char> {
    match first_index_of(h, ';') {
        None => h,
        Some(i) => h.take(i),
    }
}

/// A data-URL is accepted exactly when it parses into header and payload,
/// the header carries the `base64` marker, and the payload decodes.
pub open spec fn spec_data_url_ok(s: Seq<char>) -> bool {
    match data_url_parts(s) {
        None => false,
        Some((h, d)) => contains_chars(h, "base64"@) && base64_decoding(d) is Some,
    }
}

/// Parses a data-URL into its declared MIME type and decoded bytes.
/// `Ok` exactly when `spec_data_url_ok` holds, and then the MIME type is
/// the header's first `;`-separated segment and the bytes are the payload's
/// base64 decoding; every failure is a bad-request error.
pub fn parse_data_url(data_url: &str) -> (r: Result<(String, Vec<u8>), ApiError>)
    ensures
        r is Ok <==> spec_data_url_ok(data_url@),
        r matches Ok((mime, bytes)) ==> {
            let (h, d) = data_url_parts(data_url@)->Some_0;
            mime@ == mime_of_header(h) && base64_decoding(d) == Some(bytes@)
        },
        r matches Err(e) ==> e matches ApiError::BadRequest(_),
{
    let ghost s = data_url@;
    proof {
        reveal_strlit("data:");
    }
    if !text::str_starts_with(data_url, "data:") {
        return Err(ApiError::BadRequest(String::from_str("Invalid data URL format")));
    }
    let len = data_url.unicode_len();
    let rest = data_url.substring_char(5, len);
    proof {
        assert(rest@ == s.skip(5));
    }
    let rest_len = rest.unicode_len();
    let comma = match text::find_char(rest, ',') {
        None => {
            return Err(ApiError::BadRequest(String::from_str("Invalid data URL format")));
        },
        Some(c) => c,
    };
    proof {
        text::lemma_first_char_from(rest@, ',', 0);
    }
    let header = rest.substring_char(0, comma);
    let payload = rest.substring_char(comma + 1, rest_len);
    proof {
        assert(header@ == rest@.take(comma as int));
        assert(payload@ == rest@.skip(comma + 1));
    }
    let semi = text::find_char(header, ';');
    proof {
        text::lemma_first_char_from(header@, ';', 0);
    }
    let mime = match semi {
        None => String::from_str(header),
        Some(i) => String::from_str(header.substring_char(0, i)),
    };
    proof {
        assert(mime@ == mime_of_header(header@));
    }
    if !text::str_contains(header, "base64") {
        return Err(
            ApiError::BadRequest(
                String::from_str("Only base64-encoded data URLs are supported"),
            ),
        );
    }
    match decode_base64(payload) {
        None => Err(ApiError::BadRequest(String::from_str("Invalid base64 data"))),
        Some(bytes) => Ok((mime, bytes)),
    }
}

} // verus!
