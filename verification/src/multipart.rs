//! The multipart decoder: a raw byte body plus a boundary token become a
//! sequence of named parts, each a plain field or a file part. Malformed
//! pieces degrade by omission — a part without a blank-line separator or a
//! `name` attribute is dropped, never an error.

use vstd::prelude::*;
use vstd::string::*;
use vstd::utf8::{decode_utf8, valid_utf8, encode_utf8};
use crate::error::ApiError;
use crate::text::{
    self,
    first_index_of,
    first_match_from,
    seq_starts_with,
    spec_find_sub,
    spec_lower_chars,
    spec_trim_quotes,
    spec_trim_spaces,
};

verus! {

/// One decoded part: the `name` attribute, the optional `filename` and
/// declared content type, and the raw content bytes.
pub struct MultipartPart {
    pub name: String,
    pub filename: Option<String>,
    pub content_type: Option<String>,
    pub content: Vec<u8>,
}

#[verifier::ext_equal]
pub ghost struct PartModel {
    pub name: Seq<char>,
    pub filename: Option<Seq<char>>,
    pub content_type: Option<Seq<char>>,
    pub content: Seq<u8>,
}

impl View for MultipartPart {
    type V = PartModel;

    open spec fn view(&self) -> PartModel {
        PartModel {
            name: self.name@,
            filename: self.filename.deep_view(),
            content_type: self.content_type.deep_view(),
            content: self.content@,
        }
    }
}

/// The decoded body: its parts, in order of appearance.
pub struct MultipartData {
    pub parts: Vec<MultipartPart>,
}

impl View for MultipartData {
    type V = Seq<PartModel>;

    open spec fn view(&self) -> Seq<PartModel> {
        self.parts@.map_values(|p: MultipartPart| p@)
    }
}

/// Relies on std's `String::from_utf8`: it succeeds exactly on valid UTF-8
/// and yields its decoding; vstd's `decode_utf8` is the reference decoding.
#[verifier::external_body]
fn bytes_to_string(v: Vec<u8>) -> (r: Option<String>)
    ensures
        match r {
            Some(s) => valid_utf8(v@) && s@ == decode_utf8(v@),
            None => !valid_utf8(v@),
        },
{
    String::from_utf8(v).ok()
}

// --- line and segment splitting over text ---

/// `l` with one trailing carriage return removed.
pub open spec fn strip_cr(l: Seq<char>) -> Seq<char> {
    if l.len() > 0 && l[l.len() - 1] == '\r' {
        l.drop_last()
    } else {
        l
    }
}

/// The lines of `s`: split at `\n`, each line's trailing `\r` stripped, a
/// final line terminator producing no extra empty line.
pub open spec fn spec_split_lines(s: Seq<char>) -> Seq<Seq<char>>
    decreases s.len(),
    via spec_split_lines_decreases
{
    if s.len() == 0 {
        Seq::empty()
    } else {
        match first_index_of(s, '\n') {
            None => seq![strip_cr(s)],
            Some(i) => seq![strip_cr(s.take(i))] + spec_split_lines(s.skip(i + 1)),
        }
    }
}

#[via_fn]
proof fn spec_split_lines_decreases(s: Seq<char>) {
    if s.len() != 0 {
        text::lemma_first_char_from(s, '\n', 0);
    }
}

/// The `c`-separated segments of `s` (an empty text is one empty segment).
pub open spec fn spec_split_on(s: Seq<char>, c: char) -> Seq<Seq<char>>
    decreases s.len(),
    via spec_split_on_decreases
{
    match first_index_of(s, c) {
        None => seq![s],
        Some(i) => seq![s.take(i)] + spec_split_on(s.skip(i + 1), c),
    }
}

#[via_fn]
proof fn spec_split_on_decreases(s: Seq<char>, c: char) {
    text::lemma_first_char_from(s, c, 0);
}

fn strip_cr_exec(l: &str) -> (r: String)
    ensures
        r@ == strip_cr(l@),
{
    let n = l.unicode_len();
    if n > 0 && l.get_char(n - 1) == '\r' {
        String::from_str(l.substring_char(0, n - 1))
    } else {
        String::from_str(l)
    }
}

fn split_lines(s: &str) -> (v: Vec<String>)
    ensures
        v@.map_values(|x: String| x@) == spec_split_lines(s@),
    decreases s@.len(),
{
    let n = s.unicode_len();
    if n == 0 {
        let v: Vec<String> = Vec::new();
        proof {
            assert(v@.map_values(|x: String| x@) =~= spec_split_lines(s@));
        }
        return v;
    }
    let first_nl = text::find_char(s, '\n');
    proof {
        text::lemma_first_char_from(s@, '\n', 0);
    }
    match first_nl {
        None => {
            let mut v: Vec<String> = Vec::new();
            v.push(strip_cr_exec(s));
            proof {
                assert(v@.map_values(|x: String| x@) =~= spec_split_lines(s@));
            }
            v
        },
        Some(i) => {
            let head = strip_cr_exec(s.substring_char(0, i));
            let mut rest = split_lines(s.substring_char(i + 1, n));
            let mut v: Vec<String> = Vec::new();
            v.push(head);
            v.append(&mut rest);
            proof {
                assert(v@.map_values(|x: String| x@) =~= spec_split_lines(s@));
            }
            v
        },
    }
}

fn split_on(s: &str, c: char) -> (v: Vec<String>)
    ensures
        v@.map_values(|x: String| x@) == spec_split_on(s@, c),
    decreases s@.len(),
{
    let n = s.unicode_len();
    let first = text::find_char(s, c);
    proof {
        text::lemma_first_char_from(s@, c, 0);
    }
    match first {
        None => {
            let mut v: Vec<String> = Vec::new();
            v.push(String::from_str(s));
            proof {
                assert(v@.map_values(|x: String| x@) =~= spec_split_on(s@, c));
            }
            v
        },
        Some(i) => {
            let head = String::from_str(s.substring_char(0, i));
            let mut rest = split_on(s.substring_char(i + 1, n), c);
            let mut v: Vec<String> = Vec::new();
            v.push(head);
            v.append(&mut rest);
            proof {
                assert(v@.map_values(|x: String| x@) =~= spec_split_on(s@, c));
            }
            v
        },
    }
}

// --- header interpretation ---

/// Folds the `;`-separated attributes of a `Content-Disposition` line over
/// the current `name` and `filename`: a trimmed `name=...` or
/// `filename=...` attribute (quotes stripped) replaces the value seen so
/// far.
pub open spec fn spec_disposition_fold(
    segs: Seq<Seq<char>>,
    name: Option<Seq<char>>,
    filename: Option<Seq<char>>,
) -> (Option<Seq<char>>, Option<Seq<char>>)
    decreases segs.len(),
{
    if segs.len() == 0 {
        (name, filename)
    } else {
        let t = spec_trim_spaces(segs[0]);
        let name2 = if seq_starts_with(t, "name="@) {
            Some(spec_trim_quotes(t.skip("name="@.len() as int)))
        } else {
            name
        };
        let filename2 = if !seq_starts_with(t, "name="@) && seq_starts_with(t, "filename="@) {
            Some(spec_trim_quotes(t.skip("filename="@.len() as int)))
        } else {
            filename
        };
        spec_disposition_fold(segs.drop_first(), name2, filename2)
    }
}

/// The value of a `Content-Type` header line: the trimmed text between the
/// first and second colon (empty when nothing follows the colon).
pub open spec fn spec_content_type_value(l: Seq<char>) -> Seq<char> {
    let segs = spec_split_on(l, ':');
    if segs.len() >= 2 {
        spec_trim_spaces(segs[1])
    } else {
        Seq::empty()
    }
}

/// Folds the header lines: each `Content-Disposition` line contributes its
/// `name`/`filename` attributes, each `Content-Type` line its value; later
/// lines win.
pub open spec fn spec_header_fold(
    lines: Seq<Seq<char>>,
    name: Option<Seq<char>>,
    filename: Option<Seq<char>>,
    ctype: Option<Seq<char>>,
) -> (Option<Seq<char>>, Option<Seq<char>>, Option<Seq<char>>)
    decreases lines.len(),
{
    if lines.len() == 0 {
        (name, filename, ctype)
    } else {
        let l = lines[0];
        if seq_starts_with(spec_lower_chars(l), "content-disposition:"@) {
            let (n2, f2) = spec_disposition_fold(spec_split_on(l, ';'), name, filename);
            spec_header_fold(lines.drop_first(), n2, f2, ctype)
        } else if seq_starts_with(spec_lower_chars(l), "content-type:"@) {
            spec_header_fold(
                lines.drop_first(),
                name,
                filename,
                Some(spec_content_type_value(l)),
            )
        } else {
            spec_header_fold(lines.drop_first(), name, filename, ctype)
        }
    }
}

#[verifier::rlimit(100)]
fn parse_headers(headers: &str) -> (r: (Option<String>, Option<String>, Option<String>))
    ensures
        (r.0.deep_view(), r.1.deep_view(), r.2.deep_view()) == spec_header_fold(
            spec_split_lines(headers@),
            None,
            None,
            None,
        ),
{
    let ghost all_lines = spec_split_lines(headers@);
    let lines = split_lines(headers);
    let mut name: Option<String> = None;
    let mut filename: Option<String> = None;
    let mut ctype: Option<String> = None;
    let n = lines.len();
    let mut i: usize = 0;
    proof {
        assert(all_lines.skip(0) =~= all_lines);
    }
    while i < n
        invariant
            i <= n,
            n == lines@.len(),
            all_lines == lines@.map_values(|x: String| x@),
            spec_header_fold(all_lines, None, None, None) == spec_header_fold(
                all_lines.skip(i as int),
                name.deep_view(),
                filename.deep_view(),
                ctype.deep_view(),
            ),
        decreases n - i,
    {
        let line = &lines[i];
        proof {
            assert(all_lines.skip(i as int).drop_first() =~= all_lines.skip(i + 1));
            assert(all_lines.skip(i as int)[0] == line@);
        }
        proof {
            reveal_strlit("content-disposition:");
            reveal_strlit("content-type:");
            assert(spec_lower_chars("content-disposition:"@) =~= "content-disposition:"@);
            assert(spec_lower_chars("content-type:"@) =~= "content-type:"@);
        }
        if text::str_starts_with_ignore_ascii_case(line.as_str(), "content-disposition:") {
            let segs = split_on(line.as_str(), ';');
            let ghost all_segs = spec_split_on(line@, ';');
            let ghost old_name = name.deep_view();
            let ghost old_filename = filename.deep_view();
            let m = segs.len();
            let mut j: usize = 0;
            proof {
                assert(all_segs.skip(0) =~= all_segs);
            }
            while j < m
                invariant
                    j <= m,
                    m == segs@.len(),
                    all_segs == segs@.map_values(|x: String| x@),
                    spec_disposition_fold(all_segs, old_name, old_filename)
                        == spec_disposition_fold(
                        all_segs.skip(j as int),
                        name.deep_view(),
                        filename.deep_view(),
                    ),
                decreases m - j,
            {
                let seg = &segs[j];
                proof {
                    assert(all_segs.skip(j as int).drop_first() =~= all_segs.skip(j + 1));
                    assert(all_segs.skip(j as int)[0] == seg@);
                    reveal_strlit("name=");
                    reveal_strlit("filename=");
                }
                let t = text::trim_spaces(seg.as_str());
                if text::str_starts_with(t.as_str(), "name=") {
                    let tn = t.as_str().unicode_len();
                    name = Some(text::trim_quotes(t.as_str().substring_char(5, tn)));
                } else if text::str_starts_with(t.as_str(), "filename=") {
                    let tn = t.as_str().unicode_len();
                    filename = Some(text::trim_quotes(t.as_str().substring_char(9, tn)));
                }
                j += 1;
            }
        } else if text::str_starts_with_ignore_ascii_case(line.as_str(), "content-type:") {
            let segs = split_on(line.as_str(), ':');
            if segs.len() >= 2 {
                ctype = Some(text::trim_spaces(segs[1].as_str()));
            } else {
                ctype = Some(String::new());
            }
        }
        i += 1;
    }
    proof {
        assert(all_lines.skip(n as int) =~= Seq::<Seq<char>>::empty());
    }
    (name, filename, ctype)
}

// --- part extraction ---

/// The bytes of `\r\n\r\n` and `\n\n`, the blank-line separators.
pub open spec fn crlf2() -> Seq<u8> {
    seq![0x0du8, 0x0au8, 0x0du8, 0x0au8]
}

pub open spec fn lf2() -> Seq<u8> {
    seq![0x0au8, 0x0au8]
}

/// Where a part's headers end and its content begins: at the first
/// `\r\n\r\n`, else at the first `\n\n`; a part without a blank line has no
/// content and is dropped.
pub open spec fn spec_separator(d: Seq<u8>) -> Option<(int, int)> {
    match spec_find_sub(d, crlf2()) {
        Some(i) => Some((i, i + 4)),
        None => match spec_find_sub(d, lf2()) {
            Some(i) => Some((i, i + 2)),
            None => None,
        },
    }
}

/// Where a part's content ends: one trailing `\r\n` or `\n` is stripped.
pub open spec fn spec_content_end(d: Seq<u8>) -> int {
    if d.len() >= 2 && d[d.len() - 2] == 0x0d && d[d.len() - 1] == 0x0a {
        d.len() - 2
    } else if d.len() >= 1 && d[d.len() - 1] == 0x0a {
        d.len() - 1
    } else {
        d.len() as int
    }
}

/// The decoded part carried by the slice between two boundaries: headers up
/// to the blank line, content after it with one trailing line terminator
/// stripped; a part without a separator or a `name` attribute is `None`.
/// A header block that is not valid UTF-8 also drops the part (strict
/// decoding, where a lossy reading would substitute replacement characters);
/// the degrade-by-omission policy covers both.
pub open spec fn spec_parse_part(d: Seq<u8>) -> Option<PartModel> {
    match spec_separator(d) {
        None => None,
        Some((hend, cstart)) => {
            let header_bytes = d.take(hend);
            let cend0 = spec_content_end(d);
            let cend = if cend0 < cstart {
                cstart
            } else {
                cend0
            };
            if !valid_utf8(header_bytes) {
                None
            } else {
                let (n, f, c) = spec_header_fold(
                    spec_split_lines(decode_utf8(header_bytes)),
                    None,
                    None,
                    None,
                );
                match n {
                    None => None,
                    Some(name) => Some(
                        PartModel {
                            name,
                            filename: f,
                            content_type: c,
                            content: d.subrange(cstart, cend),
                        },
                    ),
                }
            }
        },
    }
}

/// Decodes the slice between two boundaries into a part, or drops it (see
/// `spec_parse_part`).
fn parse_part(data: &[u8]) -> (r: Option<MultipartPart>)
    ensures
        match r {
            Some(p) => spec_parse_part(data@) == Some(p@),
            None => spec_parse_part(data@) is None,
        },
{
    let mut sep4: Vec<u8> = Vec::new();
    sep4.push(0x0d);
    sep4.push(0x0a);
    sep4.push(0x0d);
    sep4.push(0x0a);
    let mut sep2: Vec<u8> = Vec::new();
    sep2.push(0x0a);
    sep2.push(0x0a);
    proof {
        assert(sep4@ =~= crlf2());
        assert(sep2@ =~= lf2());
    }
    let dlen = data.len();
    let found4 = text::find_subsequence(data, sep4.as_slice());
    let (hend, cstart) = match found4 {
        Some(i) => {
            proof {
                text::lemma_first_match_from(data@, crlf2(), 0);
            }
            (i, i + 4)
        },
        None => {
            let found2 = text::find_subsequence(data, sep2.as_slice());
            match found2 {
                Some(i) => {
                    proof {
                        text::lemma_first_match_from(data@, lf2(), 0);
                    }
                    (i, i + 2)
                },
                None => {
                    return None;
                },
            }
        },
    };
    let cend0: usize = if dlen >= 2 && data[dlen - 2] == 0x0d && data[dlen - 1] == 0x0a {
        dlen - 2
    } else if dlen >= 1 && data[dlen - 1] == 0x0a {
        dlen - 1
    } else {
        dlen
    };
    let cend = if cend0 < cstart {
        cstart
    } else {
        cend0
    };
    let header_bytes = text::bytes_range(data, 0, hend);
    let content = text::bytes_range(data, cstart, cend);
    proof {
        assert(header_bytes@ =~= data@.take(hend as int));
    }
    let headers = match bytes_to_string(header_bytes) {
        None => {
            return None;
        },
        Some(s) => s,
    };
    let (name, filename, content_type) = parse_headers(headers.as_str());
    match name {
        None => None,
        Some(name) => {
            let p = MultipartPart { name, filename, content_type, content };
            proof {
                assert(spec_parse_part(data@) == Some(p@)) by {
                    assert(spec_parse_part(data@)->Some_0 =~= p@);
                }
            }
            Some(p)
        },
    }
}

// --- the boundary scanner ---

/// How many bytes an immediately following line terminator occupies.
pub open spec fn spec_skip_newline(d: Seq<u8>) -> int {
    if d.len() >= 2 && d[0] == 0x0d && d[1] == 0x0a {
        2
    } else if d.len() >= 1 && d[0] == 0x0a {
        1
    } else {
        0
    }
}

/// The parts decoded from `body` scanning for `bnd` from position `pos`:
/// each boundary occurrence opens a part that runs to the next occurrence
/// (or the body's end); a terminal `--` stops the scan; dropped parts are
/// simply absent.
pub open spec fn spec_scan(body: Seq<u8>, bnd: Seq<u8>, pos: int) -> Seq<PartModel>
    decreases body.len() - pos,
    via spec_scan_decreases
{
    if pos < 0 || bnd.len() == 0 {
        Seq::empty()
    } else if pos >= body.len() {
        Seq::empty()
    } else {
        match first_match_from(body, bnd, pos) {
            None => Seq::empty(),
            Some(bs) => {
                let content_start = bs + bnd.len();
                if content_start >= body.len() {
                    Seq::empty()
                } else if content_start + 2 <= body.len() && body[content_start] == 0x2d
                    && body[content_start + 1] == 0x2d {
                    Seq::empty()
                } else {
                    let header_start = content_start + spec_skip_newline(
                        body.skip(content_start),
                    );
                    let next = match first_match_from(body, bnd, header_start) {
                        Some(p) => p,
                        None => body.len() as int,
                    };
                    let rest = spec_scan(body, bnd, next);
                    match spec_parse_part(body.subrange(header_start, next)) {
                        Some(p) => seq![p] + rest,
                        None => rest,
                    }
                }
            },
        }
    }
}

#[via_fn]
proof fn spec_scan_decreases(body: Seq<u8>, bnd: Seq<u8>, pos: int) {
    if !(pos < 0 || bnd.len() == 0) && pos < body.len() {
        text::lemma_first_match_from(body, bnd, pos);
        match first_match_from(body, bnd, pos) {
            None => {},
            Some(bs) => {
                let content_start = bs + bnd.len();
                if content_start < body.len() && !(content_start + 2 <= body.len()
                    && body[content_start] == 0x2d && body[content_start + 1] == 0x2d) {
                    let header_start = content_start + spec_skip_newline(
                        body.skip(content_start),
                    );
                    text::lemma_first_match_from(body, bnd, header_start);
                }
            },
        }
    }
}

/// The whole decoding of a body against a boundary token: scan for
/// `--{boundary}` from the start.
pub open spec fn spec_parse_multipart(body: Seq<u8>, boundary: Seq<char>) -> Seq<PartModel> {
    spec_scan(body, encode_utf8("--"@ + boundary), 0)
}

/// How many bytes a leading line terminator occupies, if one is there.
pub fn skip_newline(data: &[u8]) -> (r: Option<usize>)
    ensures
        match r {
            Some(n) => n as int == spec_skip_newline(data@) && n > 0,
            None => spec_skip_newline(data@) == 0,
        },
{
    if data.len() >= 2 && data[0] == 0x0d && data[1] == 0x0a {
        Some(2)
    } else if data.len() >= 1 && data[0] == 0x0a {
        Some(1)
    } else {
        None
    }
}

/// Decodes a multipart body. Always succeeds: malformed input degrades by
/// omission, yielding exactly `spec_parse_multipart(body, boundary)`.
#[verifier::rlimit(100)]
pub fn parse_multipart(body: &[u8], boundary: &str) -> (r: Result<MultipartData, ApiError>)
    ensures
        r matches Ok(m) && m@ == spec_parse_multipart(body@, boundary@),
{
    let mut bnd_str = String::from_str("--");
    bnd_str.append(boundary);
    let bnd_vec = bnd_str.as_str().as_bytes_vec();
    let bnd = bnd_vec.as_slice();
    let ghost bndv = encode_utf8("--"@ + boundary@);
    proof {
        assert(bnd@ == bndv);
    }
    let mut parts: Vec<MultipartPart> = Vec::new();
    if bnd.len() == 0 {
        // A boundary encoding to no bytes cannot occur (it always starts
        // with two dashes); the scan is vacuous then.
        proof {
            assert(spec_scan(body@, bndv, 0) =~= Seq::<PartModel>::empty());
        }
        return Ok(MultipartData { parts });
    }
    let blen = body.len();
    let mut pos: usize = 0;
    proof {
        assert(parts@.map_values(|p: MultipartPart| p@) + spec_scan(body@, bndv, 0) =~= spec_scan(
            body@,
            bndv,
            0,
        ));
    }
    loop
        invariant
            pos <= blen,
            blen == body@.len(),
            bndv == encode_utf8("--"@ + boundary@),
            bndv.len() > 0,
            bnd@ == bndv,
            bnd_vec@ == bndv,
            spec_scan(body@, bndv, 0) == parts@.map_values(|p: MultipartPart| p@) + spec_scan(
                body@,
                bndv,
                pos as int,
            ),
        decreases blen - pos,
    {
        if pos >= blen {
            proof {
                assert(spec_scan(body@, bndv, pos as int) =~= Seq::<PartModel>::empty());
                assert(parts@.map_values(|p: MultipartPart| p@) + Seq::<PartModel>::empty()
                    =~= parts@.map_values(|p: MultipartPart| p@));
            }
            return Ok(MultipartData { parts });
        }
        let bs = match text::find_subsequence_from(body, bnd, pos) {
            None => {
                proof {
                    assert(spec_scan(body@, bndv, pos as int) =~= Seq::<PartModel>::empty());
                    assert(parts@.map_values(|p: MultipartPart| p@) + Seq::<
                        PartModel,
                    >::empty() =~= parts@.map_values(|p: MultipartPart| p@));
                }
                return Ok(MultipartData { parts });
            },
            Some(i) => i,
        };
        proof {
            text::lemma_first_match_from(body@, bndv, pos as int);
        }
        let content_start = bs + bnd_vec.len();
        if content_start >= blen {
            proof {
                assert(spec_scan(body@, bndv, pos as int) =~= Seq::<PartModel>::empty());
                assert(parts@.map_values(|p: MultipartPart| p@) + Seq::<PartModel>::empty()
                    =~= parts@.map_values(|p: MultipartPart| p@));
            }
            return Ok(MultipartData { parts });
        }
        if blen - content_start >= 2 && body[content_start] == 0x2d && body[content_start + 1]
            == 0x2d {
            proof {
                assert(spec_scan(body@, bndv, pos as int) =~= Seq::<PartModel>::empty());
                assert(parts@.map_values(|p: MultipartPart| p@) + Seq::<PartModel>::empty()
                    =~= parts@.map_values(|p: MultipartPart| p@));
            }
            return Ok(MultipartData { parts });
        }
        let tail = text::bytes_range(body, content_start, blen);
        let skip: usize = match skip_newline(tail.as_slice()) {
            Some(n) => n,
            None => 0,
        };
        proof {
            assert(tail@ == body@.skip(content_start as int));
            assert(skip as int == spec_skip_newline(body@.skip(content_start as int)));
        }
        let header_start = content_start + skip;
        let next = match text::find_subsequence_from(body, bnd, header_start) {
            None => blen,
            Some(p) => p,
        };
        proof {
            text::lemma_first_match_from(body@, bndv, header_start as int);
        }
        let slice = text::bytes_range(body, header_start, next);
        let ghost old_parts = parts@;
        match parse_part(slice.as_slice()) {
            Some(p) => {
                parts.push(p);
            },
            None => {},
        }
        proof {
            assert(slice@ == body@.subrange(header_start as int, next as int));
            assert(spec_scan(body@, bndv, pos as int) == (match spec_parse_part(slice@) {
                Some(p) => seq![p] + spec_scan(body@, bndv, next as int),
                None => spec_scan(body@, bndv, next as int),
            }));
            assert(parts@.map_values(|p: MultipartPart| p@) + spec_scan(
                body@,
                bndv,
                next as int,
            ) =~= old_parts.map_values(|p: MultipartPart| p@) + spec_scan(
                body@,
                bndv,
                pos as int,
            ));
        }
        pos = next;
    }
}

/// A part whose headers carry no `name` attribute is dropped: whenever the
/// fold over the header lines before the blank-line separator yields no
/// name, the slice between two boundaries decodes to no part at all.
pub proof fn law_nameless_part_dropped(d: Seq<u8>)
    ensures
        (spec_separator(d) matches Some((hend, _cstart)) && valid_utf8(d.take(hend))
            && spec_header_fold(
            spec_split_lines(decode_utf8(d.take(hend))),
            None,
            None,
            None,
        ).0 is None) ==> spec_parse_part(d) is None,
{
}

// --- accessors ---

/// The first part carrying `name`, whatever kind it is.
pub open spec fn first_part_named(parts: Seq<PartModel>, name: Seq<char>) -> Option<PartModel>
    decreases parts.len(),
{
    if parts.len() == 0 {
        None
    } else if parts[0].name == name {
        Some(parts[0])
    } else {
        first_part_named(parts.drop_first(), name)
    }
}

/// The first file-bearing part carrying `name`.
pub open spec fn first_file_named(parts: Seq<PartModel>, name: Seq<char>) -> Option<PartModel>
    decreases parts.len(),
{
    if parts.len() == 0 {
        None
    } else if parts[0].name == name && parts[0].filename is Some {
        Some(parts[0])
    } else {
        first_file_named(parts.drop_first(), name)
    }
}

impl MultipartData {
    /// The first field matching `name`, as UTF-8 text; `None` when no part
    /// carries the name or its content is not valid UTF-8.
    pub fn get_field(&self, name: &str) -> (r: Option<String>)
        ensures
            match r {
                Some(s) => first_part_named(self@, name@) matches Some(p) && valid_utf8(
                    p.content,
                ) && s@ == decode_utf8(p.content),
                None => first_part_named(self@, name@) is None || !valid_utf8(
                    first_part_named(self@, name@)->Some_0.content,
                ),
            },
    {
        let n = self.parts.len();
        let mut i: usize = 0;
        proof {
            assert(self@.skip(0) =~= self@);
        }
        while i < n
            invariant
                i <= n,
                n == self.parts@.len(),
                first_part_named(self@, name@) == first_part_named(
                    self@.skip(i as int),
                    name@,
                ),
            decreases n - i,
        {
            proof {
                assert(self@.skip(i as int).drop_first() =~= self@.skip(i + 1));
                assert(self@.skip(i as int)[0] == self.parts@[i as int]@);
            }
            if text::string_eq_str(&self.parts[i].name, name) {
                let content = text::bytes_range(
                    self.parts[i].content.as_slice(),
                    0,
                    self.parts[i].content.len(),
                );
                proof {
                    assert(content@ =~= self.parts@[i as int]@.content);
                }
                return bytes_to_string(content);
            }
            i += 1;
        }
        proof {
            assert(self@.skip(n as int) =~= Seq::<PartModel>::empty());
        }
        None
    }

    /// The first file-bearing part matching `name`.
    pub fn get_file(&self, name: &str) -> (r: Option<&MultipartPart>)
        ensures
            match r {
                Some(p) => first_file_named(self@, name@) == Some(p@),
                None => first_file_named(self@, name@) is None,
            },
    {
        let n = self.parts.len();
        let mut i: usize = 0;
        proof {
            assert(self@.skip(0) =~= self@);
        }
        while i < n
            invariant
                i <= n,
                n == self.parts@.len(),
                first_file_named(self@, name@) == first_file_named(
                    self@.skip(i as int),
                    name@,
                ),
            decreases n - i,
        {
            proof {
                assert(self@.skip(i as int).drop_first() =~= self@.skip(i + 1));
                assert(self@.skip(i as int)[0] == self.parts@[i as int]@);
            }
            if text::string_eq_str(&self.parts[i].name, name) && self.parts[i].filename.is_some()
            {
                return Some(&self.parts[i]);
            }
            i += 1;
        }
        proof {
            assert(self@.skip(n as int) =~= Seq::<PartModel>::empty());
        }
        None
    }
}

// --- the boundary attribute of a Content-Type header ---

/// The boundary token of a `Content-Type` header value: the first
/// `;`-separated segment whose trimmed form starts with `boundary=`, its
/// value with surrounding quotes stripped.
pub open spec fn spec_boundary_fold(segs: Seq<Seq<char>>) -> Option<Seq<char>>
    decreases segs.len(),
{
    if segs.len() == 0 {
        None
    } else {
        let t = spec_trim_spaces(segs[0]);
        if seq_starts_with(t, "boundary="@) {
            Some(spec_trim_quotes(t.skip("boundary="@.len() as int)))
        } else {
            spec_boundary_fold(segs.drop_first())
        }
    }
}

pub open spec fn spec_extract_boundary(content_type: Seq<char>) -> Option<Seq<char>> {
    spec_boundary_fold(spec_split_on(content_type, ';'))
}

/// Extracts the boundary token from a `Content-Type` header value. `Ok`
/// exactly when some segment declares one; a header without a boundary is a
/// validation-kind error.
pub fn extract_boundary(content_type: &str) -> (r: Result<String, ApiError>)
    ensures
        match r {
            Ok(b) => spec_extract_boundary(content_type@) == Some(b@),
            Err(e) => spec_extract_boundary(content_type@) is None && e.is_validation(),
        },
{
    let ghost all_segs = spec_split_on(content_type@, ';');
    let segs = split_on(content_type, ';');
    let n = segs.len();
    let mut i: usize = 0;
    proof {
        assert(all_segs.skip(0) =~= all_segs);
    }
    while i < n
        invariant
            i <= n,
            n == segs@.len(),
            all_segs == spec_split_on(content_type@, ';'),
            all_segs == segs@.map_values(|x: String| x@),
            spec_boundary_fold(all_segs) == spec_boundary_fold(all_segs.skip(i as int)),
        decreases n - i,
    {
        proof {
            assert(all_segs.skip(i as int).drop_first() =~= all_segs.skip(i + 1));
            assert(all_segs.skip(i as int)[0] == segs@[i as int]@);
            reveal_strlit("boundary=");
        }
        let t = text::trim_spaces(segs[i].as_str());
        if text::str_starts_with(t.as_str(), "boundary=") {
            let tn = t.as_str().unicode_len();
            let b = text::trim_quotes(t.as_str().substring_char(9, tn));
            proof {
                assert(t@.subrange(9, tn as int) == t@.skip("boundary="@.len() as int));
                assert(spec_boundary_fold(all_segs.skip(i as int)) == Some(b@));
            }
            return Ok(b);
        }
        i += 1;
    }
    proof {
        assert(all_segs.skip(n as int) =~= Seq::<Seq<char>>::empty());
    }
    Err(
        ApiError::ValidationError(
            String::from_str("Missing boundary in Content-Type"),
        ),
    )
}

} // verus!
