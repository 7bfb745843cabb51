//! The content validator: image-type classification by magic bytes, the size
//! ceiling, domain syntax, and the metadata length rule. All validators are
//! pure; each failure is a validation-kind error carrying a message.

use vstd::prelude::*;
use crate::error::ApiError;
use crate::text::{self, seq_starts_with};

verus! {

/// Size ceiling on a submitted buffer: 512 KiB.
pub const MAX_FILE_SIZE: usize = 524288;

/// Maximum length of a stored domain name or metadata string, in characters.
pub const MAX_TEXT_LEN: usize = 256;

// --- magic-byte classification ---

pub open spec fn is_png(b: Seq<u8>) -> bool {
    b.len() >= 4 && b[0] == 0x89 && b[1] == 0x50 && b[2] == 0x4e && b[3] == 0x47
}

pub open spec fn is_jpeg(b: Seq<u8>) -> bool {
    b.len() >= 3 && b[0] == 0xff && b[1] == 0xd8 && b[2] == 0xff
}

pub open spec fn is_gif(b: Seq<u8>) -> bool {
    b.len() >= 3 && b[0] == 0x47 && b[1] == 0x49 && b[2] == 0x46
}

pub open spec fn is_ico(b: Seq<u8>) -> bool {
    b.len() >= 4 && b[0] == 0x00 && b[1] == 0x00 && b[2] == 0x01 && b[3] == 0x00
}

/// ASCII whitespace, as trimmed from the head of a candidate SVG document.
pub open spec fn is_ws_byte(b: u8) -> bool {
    b == 0x20 || b == 0x09 || b == 0x0a || b == 0x0d || b == 0x0b || b == 0x0c
}

/// The index of the first byte of `s` that is not whitespace
/// (`s.len()` when all of `s` is whitespace).
pub open spec fn first_non_ws(s: Seq<u8>) -> int
    decreases s.len(),
{
    if s.len() == 0 {
        0
    } else if is_ws_byte(s[0]) {
        1 + first_non_ws(s.drop_first())
    } else {
        0
    }
}

pub proof fn lemma_first_non_ws(s: Seq<u8>)
    ensures
        0 <= first_non_ws(s) <= s.len(),
        forall|j: int| 0 <= j < first_non_ws(s) ==> is_ws_byte(s[j]),
        first_non_ws(s) < s.len() ==> !is_ws_byte(s[first_non_ws(s)]),
    decreases s.len(),
{
    if s.len() > 0 && is_ws_byte(s[0]) {
        lemma_first_non_ws(s.drop_first());
        assert forall|j: int| 0 <= j < first_non_ws(s) implies is_ws_byte(s[j]) by {
            if j > 0 {
                assert(is_ws_byte(s.drop_first()[j - 1]));
            }
        }
        if first_non_ws(s) < s.len() {
            assert(s.drop_first()[first_non_ws(s.drop_first())] == s[first_non_ws(s)]);
        }
    }
}

/// The bytes of `"<svg"` and `"<?xml"`.
pub open spec fn svg_tag_bytes() -> Seq<u8> {
    seq![0x3cu8, 0x73u8, 0x76u8, 0x67u8]
}

pub open spec fn xml_tag_bytes() -> Seq<u8> {
    seq![0x3cu8, 0x3fu8, 0x78u8, 0x6du8, 0x6cu8]
}

/// SVG/XML detection: within the first 100 bytes, after leading whitespace,
/// the document starts with `<svg` or `<?xml`. The trim is byte-level over
/// ASCII whitespace — a document prefixed by exotic Unicode whitespace is
/// not recognized, where a chars-level trim would accept it.
pub open spec fn is_svg_text(b: Seq<u8>) -> bool {
    let head = if b.len() <= 100 {
        b
    } else {
        b.take(100)
    };
    let t = head.skip(first_non_ws(head));
    seq_starts_with(t, svg_tag_bytes()) || seq_starts_with(t, xml_tag_bytes())
}

/// Classification of a buffer by its leading bytes: the MIME type of the
/// first matching signature, `None` for a buffer under 4 bytes or one that
/// matches no signature.
pub open spec fn spec_sniff(b: Seq<u8>) -> Option<Seq<char>> {
    if b.len() < 4 {
        None
    } else if is_png(b) {
        Some("image/png"@)
    } else if is_jpeg(b) {
        Some("image/jpeg"@)
    } else if is_gif(b) {
        Some("image/gif"@)
    } else if is_svg_text(b) {
        Some("image/svg+xml"@)
    } else if is_ico(b) {
        Some("image/x-icon"@)
    } else {
        None
    }
}

fn is_ws_byte_exec(b: u8) -> (r: bool)
    ensures
        r == is_ws_byte(b),
{
    b == 0x20 || b == 0x09 || b == 0x0a || b == 0x0d || b == 0x0b || b == 0x0c
}

/// Whether the buffer reads as an SVG/XML document (see `is_svg_text`).
fn check_svg_text(b: &[u8]) -> (r: bool)
    ensures
        r == is_svg_text(b@),
{
    let blen = b.len();
    let head_len: usize = if blen <= 100 {
        blen
    } else {
        100
    };
    let ghost head = if b@.len() <= 100 {
        b@
    } else {
        b@.take(100)
    };
    proof {
        assert(head.len() == head_len);
        assert(forall|j: int| 0 <= j < head.len() ==> head[j] == b@[j]);
    }
    let mut i: usize = 0;
    while i < head_len && is_ws_byte_exec(b[i])
        invariant
            i <= head_len,
            head_len <= b@.len(),
            head_len == head.len(),
            forall|j: int| 0 <= j < head.len() ==> head[j] == b@[j],
            forall|j: int| 0 <= j < i ==> is_ws_byte(head[j]),
        decreases head_len - i,
    {
        i += 1;
    }
    proof {
        lemma_first_non_ws(head);
        let f = first_non_ws(head);
        if f < i as int {
            assert(is_ws_byte(head[f]));
            assert(false);
        }
        if f > i as int {
            assert((i as int) < head.len());
            assert(!is_ws_byte(head[i as int]));
            assert(is_ws_byte(head[i as int]));
            assert(false);
        }
        assert(first_non_ws(head) == i as int);
    }
    let ghost t = head.skip(i as int);
    let remaining = head_len - i;
    let svg = remaining >= 4 && b[i] == 0x3c && b[i + 1] == 0x73 && b[i + 2] == 0x76 && b[i + 3]
        == 0x67;
    let xml = remaining >= 5 && b[i] == 0x3c && b[i + 1] == 0x3f && b[i + 2] == 0x78 && b[i + 3]
        == 0x6d && b[i + 4] == 0x6c;
    proof {
        assert(forall|j: int| 0 <= j < t.len() ==> t[j] == head[i + j]);
        if svg {
            assert(t.subrange(0, 4) =~= svg_tag_bytes());
        } else if seq_starts_with(t, svg_tag_bytes()) {
            assert(t.len() >= 4);
            assert(forall|k: int|
                0 <= k < 4 ==> #[trigger] t.subrange(0, 4)[k] == svg_tag_bytes()[k]);
        }
        if xml {
            assert(t.subrange(0, 5) =~= xml_tag_bytes());
        } else if seq_starts_with(t, xml_tag_bytes()) {
            assert(t.len() >= 5);
            assert(forall|k: int|
                0 <= k < 5 ==> #[trigger] t.subrange(0, 5)[k] == xml_tag_bytes()[k]);
        }
    }
    svg || xml
}

/// Classifies `b` by its leading bytes, returning the detected MIME type.
/// Returns exactly `spec_sniff(b)`.
pub fn sniff_image(b: &[u8]) -> (r: Option<&'static str>)
    ensures
        match r {
            Some(m) => spec_sniff(b@) == Some(m@),
            None => spec_sniff(b@) is None,
        },
{
    if b.len() < 4 {
        return None;
    }
    if b[0] == 0x89 && b[1] == 0x50 && b[2] == 0x4e && b[3] == 0x47 {
        return Some("image/png");
    }
    if b[0] == 0xff && b[1] == 0xd8 && b[2] == 0xff {
        return Some("image/jpeg");
    }
    if b[0] == 0x47 && b[1] == 0x49 && b[2] == 0x46 {
        return Some("image/gif");
    }
    if check_svg_text(b) {
        return Some("image/svg+xml");
    }
    if b[0] == 0x00 && b[1] == 0x00 && b[2] == 0x01 && b[3] == 0x00 {
        return Some("image/x-icon");
    }
    None
}

// --- the validators ---

/// Rejects any buffer over the 512 KiB ceiling.
/// `Ok` exactly when `size <= MAX_FILE_SIZE`; the error is validation-kind
/// and its message carries the offending size in bytes.
pub fn validate_file_size(size: usize) -> (r: Result<(), ApiError>)
    ensures
        r is Ok <==> size <= MAX_FILE_SIZE,
        r matches Err(e) ==> e.is_validation() && e.spec_message() == "File size ("@
            + text::spec_decimal(size as nat) + " bytes) exceeds the maximum allowed size of 0.5 MB"@,
{
    if size > MAX_FILE_SIZE {
        let mut msg = String::from_str("File size (");
        msg.append(text::u64_to_decimal(size as u64).as_str());
        msg.append(" bytes) exceeds the maximum allowed size of 0.5 MB");
        Err(ApiError::ValidationError(msg))
    } else {
        Ok(())
    }
}

/// Rejects metadata over 256 characters (chosen for embeddability in image
/// metadata fields). `Ok` exactly when the string is short enough.
pub fn validate_metadata(metadata: &str) -> (r: Result<(), ApiError>)
    ensures
        r is Ok <==> metadata@.len() <= MAX_TEXT_LEN,
        r matches Err(e) ==> e.is_validation(),
{
    if metadata.unicode_len() > MAX_TEXT_LEN {
        Err(
            ApiError::ValidationError(
                String::from_str("Metadata must not exceed 256 characters"),
            ),
        )
    } else {
        Ok(())
    }
}

// --- domain syntax ---

pub open spec fn is_alnum_char(c: char) -> bool {
    (48 <= c as u32 && c as u32 <= 57) || (65 <= c as u32 && c as u32 <= 90) || (97 <= c as u32
        && c as u32 <= 122)
}

pub open spec fn is_label_char(c: char) -> bool {
    is_alnum_char(c) || c == '-'
}

/// A valid domain label: 1 to 63 characters, alphanumerics and hyphens only,
/// starting and ending with an alphanumeric.
pub open spec fn valid_label(l: Seq<char>) -> bool {
    &&& 1 <= l.len() <= 63
    &&& is_alnum_char(l[0])
    &&& is_alnum_char(l[l.len() - 1])
    &&& forall|j: int| 0 <= j < l.len() ==> is_label_char(l[j])
}

pub open spec fn dot_free(s: Seq<char>, i: int, j: int) -> bool {
    forall|k: int| i <= k < j ==> s[k] != '.'
}

/// `[i, j)` is one maximal dot-free stretch of `s`: it is bounded by dots or
/// by the ends of `s` and holds no dot itself.
pub open spec fn label_span(s: Seq<char>, i: int, j: int) -> bool {
    &&& 0 <= i <= j <= s.len()
    &&& (i == 0 || s[i - 1] == '.')
    &&& (j == s.len() || s[j] == '.')
    &&& dot_free(s, i, j)
}

/// Domain syntax: at most 256 characters, at least one dot, and every label
/// between dots (or string ends) is a valid label. Empty labels — leading,
/// trailing or doubled dots — are ruled out because an empty sequence is not
/// a valid label.
pub open spec fn valid_domain_chars(s: Seq<char>) -> bool {
    &&& s.len() <= 256
    &&& exists|k: int| 0 <= k < s.len() && s[k] == '.'
    &&& forall|i: int, j: int| label_span(s, i, j) ==> valid_label(s.subrange(i, j))
}

fn is_alnum(c: char) -> (r: bool)
    ensures
        r == is_alnum_char(c),
{
    let u = c as u32;
    (48 <= u && u <= 57) || (65 <= u && u <= 90) || (97 <= u && u <= 122)
}

/// Checks the label at `s[from..to]` (see `valid_label`).
fn check_label(s: &str, from: usize, to: usize) -> (r: bool)
    requires
        from <= to <= s@.len(),
    ensures
        r == valid_label(s@.subrange(from as int, to as int)),
{
    let ghost l = s@.subrange(from as int, to as int);
    let n = to - from;
    if n < 1 || n > 63 {
        return false;
    }
    if !is_alnum(s.get_char(from)) || !is_alnum(s.get_char(to - 1)) {
        return false;
    }
    let mut j: usize = 0;
    while j < n
        invariant
            j <= n,
            n == to - from,
            from <= to <= s@.len(),
            l == s@.subrange(from as int, to as int),
            forall|t: int| 0 <= t < j ==> is_label_char(l[t]),
        decreases n - j,
    {
        let c = s.get_char(from + j);
        if !(is_alnum(c) || c == '-') {
            proof {
                assert(l[j as int] == s@[from + j]);
            }
            return false;
        }
        j += 1;
    }
    true
}

/// Validates domain syntax (see `valid_domain_chars`): `Ok` exactly when the
/// domain is at most 256 characters, holds at least one dot, and every label
/// is well formed; the error is validation-kind.
pub fn validate_domain(domain: &str) -> (r: Result<(), ApiError>)
    ensures
        r is Ok <==> valid_domain_chars(domain@),
        r matches Err(e) ==> e.is_validation(),
{
    let ghost s = domain@;
    let len = domain.unicode_len();
    if len > MAX_TEXT_LEN {
        return Err(
            ApiError::ValidationError(
                String::from_str("Domain name must not exceed 256 characters"),
            ),
        );
    }
    let mut start: usize = 0;
    let mut saw_dot = false;
    let mut i: usize = 0;
    while i < len
        invariant
            start <= i <= len,
            len == s.len(),
            len <= MAX_TEXT_LEN,
            s == domain@,
            start == 0 || s[start - 1] == '.',
            dot_free(s, start as int, i as int),
            saw_dot == exists|k: int| 0 <= k < i && s[k] == '.',
            forall|a: int, b: int|
                label_span(s, a, b) && b < i ==> valid_label(s.subrange(a, b)),
        decreases len - i,
    {
        if domain.get_char(i) == '.' {
            proof {
                assert(label_span(s, start as int, i as int));
            }
            if !check_label(domain, start, i) {
                let msg = if i == start {
                    "Domain name cannot have empty parts (e.g., \"example..com\")"
                } else {
                    "Invalid domain name format. Domain must contain only letters, numbers, hyphens, and dots, and follow TLD syntax"
                };
                return Err(ApiError::ValidationError(String::from_str(msg)));
            }
            proof {
                assert forall|a: int, b: int|
                    label_span(s, a, b) && b < i + 1 implies valid_label(s.subrange(a, b)) by {
                    if b == i {
                        if a < start as int {
                            assert(s[start - 1] == '.');
                            assert(!dot_free(s, a, b));
                        }
                        if a > start as int {
                            assert(s[a - 1] == '.');
                            assert(!dot_free(s, start as int, i as int));
                        }
                        assert(a == start as int);
                    }
                }
            }
            saw_dot = true;
            start = i + 1;
        }
        i += 1;
    }
    proof {
        assert(label_span(s, start as int, len as int));
    }
    if !check_label(domain, start, len) {
        let msg = if len == start {
            "Domain name cannot have empty parts (e.g., \"example..com\")"
        } else {
            "Invalid domain name format. Domain must contain only letters, numbers, hyphens, and dots, and follow TLD syntax"
        };
        return Err(ApiError::ValidationError(String::from_str(msg)));
    }
    proof {
        assert forall|a: int, b: int| label_span(s, a, b) implies valid_label(
            s.subrange(a, b),
        ) by {
            if b == s.len() {
                if a < start as int {
                    assert(s[start - 1] == '.');
                    assert(!dot_free(s, a, b));
                }
                if a > start as int {
                    assert(s[a - 1] == '.');
                    assert(!dot_free(s, start as int, len as int));
                }
                assert(a == start as int);
            }
        }
    }
    if !saw_dot {
        return Err(
            ApiError::ValidationError(
                String::from_str("Domain name must contain at least one dot (.)"),
            ),
        );
    }
    Ok(())
}

/// Validates that the buffer carries a recognized image signature, returning
/// the detected MIME type. `Ok(m)` exactly when `spec_sniff` recognizes the
/// buffer, with `m` the detected type; the error is validation-kind, its
/// message telling a too-small buffer from an unrecognized one.
pub fn validate_image_type(buffer: &[u8]) -> (r: Result<String, ApiError>)
    ensures
        match r {
            Ok(m) => spec_sniff(buffer@) == Some(m@),
            Err(e) => spec_sniff(buffer@) is None && e.is_validation() && e.spec_message()
                == if buffer@.len() < 4 {
                "File is too small to be a valid image"@
            } else {
                "Only image files are allowed (PNG, JPEG, GIF, SVG)"@
            },
        },
{
    if buffer.len() < 4 {
        return Err(
            ApiError::ValidationError(
                String::from_str("File is too small to be a valid image"),
            ),
        );
    }
    match sniff_image(buffer) {
        Some(m) => Ok(String::from_str(m)),
        None => Err(
            ApiError::ValidationError(
                String::from_str("Only image files are allowed (PNG, JPEG, GIF, SVG)"),
            ),
        ),
    }
}

} // verus!
