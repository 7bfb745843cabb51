//! Small verified helpers over strings and byte sequences: equality and
//! prefix tests (also ASCII-case-insensitive), whitespace and quote trimming,
//! and first-occurrence search, each stated against a direct specification.

use vstd::prelude::*;
use vstd::string::*;

verus! {

/// `p` is a prefix of `s`.
pub open spec fn seq_starts_with<T>(s: Seq<T>, p: Seq<T>) -> bool {
    p.len() <= s.len() && s.subrange(0, p.len() as int) == p
}

pub fn str_eq(a: &str, b: &str) -> (r: bool)
    ensures
        r == (a@ == b@),
{
    let alen = a.unicode_len();
    let blen = b.unicode_len();
    if alen != blen {
        proof {
            assert(a@ != b@) by {
                assert(a@.len() != b@.len());
            }
        }
        return false;
    }
    let mut i: usize = 0;
    while i < alen
        invariant
            i <= alen,
            alen == a@.len(),
            alen == b@.len(),
            forall|j: int| 0 <= j < i ==> a@[j] == b@[j],
        decreases alen - i,
    {
        if a.get_char(i) != b.get_char(i) {
            return false;
        }
        i += 1;
    }
    proof {
        assert(a@ =~= b@);
    }
    true
}

pub fn string_eq_str(a: &String, b: &str) -> (r: bool)
    ensures
        r == (a@ == b@),
{
    str_eq(a.as_str(), b)
}

/// Equality of two strings scanned without an early exit: every character
/// position up to the longer length is visited whatever the outcome — the
/// constant comparison the password check uses.
pub fn constant_scan_str_eq(a: &str, b: &str) -> (r: bool)
    ensures
        r == (a@ == b@),
{
    let alen = a.unicode_len();
    let blen = b.unicode_len();
    let n = if alen < blen {
        blen
    } else {
        alen
    };
    let mut equal = alen == blen;
    let mut i: usize = 0;
    while i < n
        invariant
            i <= n,
            alen == a@.len(),
            blen == b@.len(),
            n == if alen < blen {
                blen
            } else {
                alen
            },
            equal == (alen == blen && forall|j: int| 0 <= j < i && j < alen ==> a@[j] == b@[j]),
        decreases n - i,
    {
        if i < alen && i < blen {
            let same = a.get_char(i) == b.get_char(i);
            equal = equal && same;
        } else {
            equal = equal && false;
        }
        i += 1;
    }
    proof {
        if equal {
            assert(a@ =~= b@);
        } else if a@ == b@ {
            assert(alen == blen);
        }
    }
    equal
}

pub fn str_starts_with(s: &str, p: &str) -> (r: bool)
    ensures
        r == seq_starts_with(s@, p@),
{
    let slen = s.unicode_len();
    let plen = p.unicode_len();
    if plen > slen {
        return false;
    }
    let mut i: usize = 0;
    while i < plen
        invariant
            i <= plen,
            plen <= slen,
            slen == s@.len(),
            plen == p@.len(),
            forall|j: int| 0 <= j < i ==> s@[j] == p@[j],
        decreases plen - i,
    {
        if s.get_char(i) != p.get_char(i) {
            proof {
                assert(!seq_starts_with(s@, p@)) by {
                    assert(s@.subrange(0, p@.len() as int)[i as int] != p@[i as int]);
                }
            }
            return false;
        }
        i += 1;
    }
    proof {
        assert(s@.subrange(0, p@.len() as int) =~= p@);
    }
    true
}

/// ASCII upper-case letters lowered; everything else unchanged.
pub open spec fn spec_lower_char(c: char) -> char {
    if 65 <= c as u32 && c as u32 <= 90 {
        (((c as u32) + 32) as u8) as char
    } else {
        c
    }
}

pub open spec fn spec_lower_chars(s: Seq<char>) -> Seq<char> {
    Seq::new(s.len(), |i: int| spec_lower_char(s[i]))
}

pub fn lower_char(c: char) -> (r: char)
    ensures
        r == spec_lower_char(c),
{
    let u = c as u32;
    if 65 <= u && u <= 90 {
        ((u + 32) as u8) as char
    } else {
        c
    }
}

/// Equality of two strings after ASCII lowering of both.
pub fn str_eq_ignore_ascii_case(a: &str, b: &str) -> (r: bool)
    ensures
        r == (spec_lower_chars(a@) == spec_lower_chars(b@)),
{
    let alen = a.unicode_len();
    let blen = b.unicode_len();
    if alen != blen {
        proof {
            assert(spec_lower_chars(a@).len() != spec_lower_chars(b@).len());
        }
        return false;
    }
    let mut i: usize = 0;
    while i < alen
        invariant
            i <= alen,
            alen == a@.len(),
            alen == b@.len(),
            forall|j: int| 0 <= j < i ==> spec_lower_char(a@[j]) == spec_lower_char(b@[j]),
        decreases alen - i,
    {
        if lower_char(a.get_char(i)) != lower_char(b.get_char(i)) {
            proof {
                assert(spec_lower_chars(a@)[i as int] != spec_lower_chars(b@)[i as int]);
            }
            return false;
        }
        i += 1;
    }
    proof {
        assert(spec_lower_chars(a@) =~= spec_lower_chars(b@));
    }
    true
}

/// Prefix test after ASCII lowering of both sides.
pub fn str_starts_with_ignore_ascii_case(s: &str, p: &str) -> (r: bool)
    ensures
        r == seq_starts_with(spec_lower_chars(s@), spec_lower_chars(p@)),
{
    let slen = s.unicode_len();
    let plen = p.unicode_len();
    if plen > slen {
        return false;
    }
    let mut i: usize = 0;
    while i < plen
        invariant
            i <= plen,
            plen <= slen,
            slen == s@.len(),
            plen == p@.len(),
            forall|j: int| 0 <= j < i ==> spec_lower_char(s@[j]) == spec_lower_char(p@[j]),
        decreases plen - i,
    {
        if lower_char(s.get_char(i)) != lower_char(p.get_char(i)) {
            proof {
                let ls = spec_lower_chars(s@);
                let lp = spec_lower_chars(p@);
                assert(!seq_starts_with(ls, lp)) by {
                    assert(ls.subrange(0, lp.len() as int)[i as int] != lp[i as int]);
                }
            }
            return false;
        }
        i += 1;
    }
    proof {
        let ls = spec_lower_chars(s@);
        let lp = spec_lower_chars(p@);
        assert(ls.subrange(0, lp.len() as int) =~= lp);
    }
    true
}

/// The ASCII whitespace characters trimmed from text fields.
pub open spec fn is_space_char(c: char) -> bool {
    c == ' ' || c == '\t' || c == '\n' || c == '\r'
}

/// The index of the first character of `s` that is not whitespace
/// (`s.len()` when all of `s` is whitespace).
pub open spec fn first_non_space(s: Seq<char>) -> int
    decreases s.len(),
{
    if s.len() == 0 {
        0
    } else if is_space_char(s[0]) {
        1 + first_non_space(s.drop_first())
    } else {
        0
    }
}

/// One past the index of the last character of `s` that is not whitespace
/// (`0` when all of `s` is whitespace).
pub open spec fn last_non_space_end(s: Seq<char>) -> int
    decreases s.len(),
{
    if s.len() == 0 {
        0
    } else if is_space_char(s[s.len() - 1]) {
        last_non_space_end(s.drop_last())
    } else {
        s.len() as int
    }
}

/// `s` with leading and trailing ASCII whitespace removed.
pub open spec fn spec_trim_spaces(s: Seq<char>) -> Seq<char> {
    let from = first_non_space(s);
    let to = last_non_space_end(s);
    if from < to {
        s.subrange(from, to)
    } else {
        Seq::empty()
    }
}

proof fn lemma_first_non_space(s: Seq<char>)
    ensures
        0 <= first_non_space(s) <= s.len(),
        forall|j: int| 0 <= j < first_non_space(s) ==> is_space_char(s[j]),
        first_non_space(s) < s.len() ==> !is_space_char(s[first_non_space(s)]),
    decreases s.len(),
{
    if s.len() > 0 && is_space_char(s[0]) {
        lemma_first_non_space(s.drop_first());
        assert forall|j: int| 0 <= j < first_non_space(s) implies is_space_char(s[j]) by {
            if j > 0 {
                assert(is_space_char(s.drop_first()[j - 1]));
            }
        }
        if first_non_space(s) < s.len() {
            assert(s.drop_first()[first_non_space(s.drop_first())] == s[first_non_space(s)]);
        }
    }
}

proof fn lemma_last_non_space_end(s: Seq<char>)
    ensures
        0 <= last_non_space_end(s) <= s.len(),
        forall|j: int| last_non_space_end(s) <= j < s.len() ==> is_space_char(s[j]),
        last_non_space_end(s) > 0 ==> !is_space_char(s[last_non_space_end(s) - 1]),
    decreases s.len(),
{
    if s.len() > 0 && is_space_char(s[s.len() - 1]) {
        lemma_last_non_space_end(s.drop_last());
        assert forall|j: int| last_non_space_end(s) <= j < s.len() implies is_space_char(
            s[j],
        ) by {
            if j < s.len() - 1 {
                assert(is_space_char(s.drop_last()[j]));
            }
        }
        if last_non_space_end(s) > 0 {
            assert(s.drop_last()[last_non_space_end(s.drop_last()) - 1] == s[last_non_space_end(s)
                - 1]);
        }
    }
}

pub fn is_space(c: char) -> (r: bool)
    ensures
        r == is_space_char(c),
{
    c == ' ' || c == '\t' || c == '\n' || c == '\r'
}

pub fn trim_spaces(s: &str) -> (r: String)
    ensures
        r@ == spec_trim_spaces(s@),
{
    let len = s.unicode_len();
    let mut from: usize = 0;
    while from < len && is_space(s.get_char(from))
        invariant
            from <= len,
            len == s@.len(),
            forall|j: int| 0 <= j < from ==> is_space_char(s@[j]),
        decreases len - from,
    {
        from += 1;
    }
    let mut to: usize = len;
    while to > from && is_space(s.get_char(to - 1))
        invariant
            from <= to <= len,
            len == s@.len(),
            forall|j: int| 0 <= j < from ==> is_space_char(s@[j]),
            forall|j: int| to <= j < s@.len() ==> is_space_char(s@[j]),
        decreases to,
    {
        to -= 1;
    }
    proof {
        lemma_first_non_space(s@);
        lemma_last_non_space_end(s@);
        if from < to {
            assert(first_non_space(s@) == from as int);
            assert(last_non_space_end(s@) == to as int);
        } else {
            assert(forall|j: int| 0 <= j < s@.len() ==> is_space_char(s@[j]));
            assert(first_non_space(s@) >= last_non_space_end(s@));
        }
    }
    let sub = s.substring_char(from, to);
    String::from_str(sub)
}

/// `s` with all leading and trailing double quotes removed.
pub open spec fn first_non_quote(s: Seq<char>) -> int
    decreases s.len(),
{
    if s.len() == 0 {
        0
    } else if s[0] == '"' {
        1 + first_non_quote(s.drop_first())
    } else {
        0
    }
}

pub open spec fn last_non_quote_end(s: Seq<char>) -> int
    decreases s.len(),
{
    if s.len() == 0 {
        0
    } else if s[s.len() - 1] == '"' {
        last_non_quote_end(s.drop_last())
    } else {
        s.len() as int
    }
}

pub open spec fn spec_trim_quotes(s: Seq<char>) -> Seq<char> {
    let from = first_non_quote(s);
    let to = last_non_quote_end(s);
    if from < to {
        s.subrange(from, to)
    } else {
        Seq::empty()
    }
}

proof fn lemma_first_non_quote(s: Seq<char>)
    ensures
        0 <= first_non_quote(s) <= s.len(),
        forall|j: int| 0 <= j < first_non_quote(s) ==> s[j] == '"',
        first_non_quote(s) < s.len() ==> s[first_non_quote(s)] != '"',
    decreases s.len(),
{
    if s.len() > 0 && s[0] == '"' {
        lemma_first_non_quote(s.drop_first());
        assert forall|j: int| 0 <= j < first_non_quote(s) implies s[j] == '"' by {
            if j > 0 {
                assert(s.drop_first()[j - 1] == '"');
            }
        }
        if first_non_quote(s) < s.len() {
            assert(s.drop_first()[first_non_quote(s.drop_first())] == s[first_non_quote(s)]);
        }
    }
}

proof fn lemma_last_non_quote_end(s: Seq<char>)
    ensures
        0 <= last_non_quote_end(s) <= s.len(),
        forall|j: int| last_non_quote_end(s) <= j < s.len() ==> s[j] == '"',
        last_non_quote_end(s) > 0 ==> s[last_non_quote_end(s) - 1] != '"',
    decreases s.len(),
{
    if s.len() > 0 && s[s.len() - 1] == '"' {
        lemma_last_non_quote_end(s.drop_last());
        assert forall|j: int| last_non_quote_end(s) <= j < s.len() implies s[j] == '"' by {
            if j < s.len() - 1 {
                assert(s.drop_last()[j] == '"');
            }
        }
        if last_non_quote_end(s) > 0 {
            assert(s.drop_last()[last_non_quote_end(s.drop_last()) - 1] == s[last_non_quote_end(s)
                - 1]);
        }
    }
}

pub fn trim_quotes(s: &str) -> (r: String)
    ensures
        r@ == spec_trim_quotes(s@),
{
    let len = s.unicode_len();
    let mut from: usize = 0;
    while from < len && s.get_char(from) == '"'
        invariant
            from <= len,
            len == s@.len(),
            forall|j: int| 0 <= j < from ==> s@[j] == '"',
        decreases len - from,
    {
        from += 1;
    }
    let mut to: usize = len;
    while to > from && s.get_char(to - 1) == '"'
        invariant
            from <= to <= len,
            len == s@.len(),
            forall|j: int| 0 <= j < from ==> s@[j] == '"',
            forall|j: int| to <= j < s@.len() ==> s@[j] == '"',
        decreases to,
    {
        to -= 1;
    }
    proof {
        lemma_first_non_quote(s@);
        lemma_last_non_quote_end(s@);
        if from < to {
            assert(first_non_quote(s@) == from as int);
            assert(last_non_quote_end(s@) == to as int);
        } else {
            assert(forall|j: int| 0 <= j < s@.len() ==> s@[j] == '"');
            assert(first_non_quote(s@) >= last_non_quote_end(s@));
        }
    }
    let sub = s.substring_char(from, to);
    String::from_str(sub)
}

/// The character for one decimal digit.
pub open spec fn spec_digit_char(d: nat) -> char {
    ((48 + d) as u8) as char
}

/// The decimal rendering of a number, most significant digit first.
pub open spec fn spec_decimal(n: nat) -> Seq<char>
    decreases n,
{
    if n < 10 {
        seq![spec_digit_char(n)]
    } else {
        spec_decimal(n / 10).push(spec_digit_char(n % 10))
    }
}

fn digit_str(d: u64) -> (r: &'static str)
    requires
        d < 10,
    ensures
        r@ == seq![spec_digit_char(d as nat)],
{
    proof {
        reveal_strlit("0");
        reveal_strlit("1");
        reveal_strlit("2");
        reveal_strlit("3");
        reveal_strlit("4");
        reveal_strlit("5");
        reveal_strlit("6");
        reveal_strlit("7");
        reveal_strlit("8");
        reveal_strlit("9");
    }
    let r = match d {
        0 => "0",
        1 => "1",
        2 => "2",
        3 => "3",
        4 => "4",
        5 => "5",
        6 => "6",
        7 => "7",
        8 => "8",
        _ => "9",
    };
    proof {
        assert(r@ =~= seq![spec_digit_char(d as nat)]);
    }
    r
}

/// Renders a number in decimal. Returns exactly `spec_decimal(n)`.
pub fn u64_to_decimal(n: u64) -> (r: String)
    ensures
        r@ == spec_decimal(n as nat),
    decreases n,
{
    if n < 10 {
        String::from_str(digit_str(n))
    } else {
        let mut s = u64_to_decimal(n / 10);
        s.append(digit_str(n % 10));
        proof {
            assert(s@ =~= spec_decimal(n as nat));
        }
        s
    }
}

/// The needle `n` occurs in `h` at index `i`.
pub open spec fn match_at(h: Seq<u8>, n: Seq<u8>, i: int) -> bool {
    &&& 0 <= i
    &&& i + n.len() <= h.len()
    &&& forall|t: int| 0 <= t < n.len() ==> h[i + t] == n[t]
}

/// The first occurrence of `n` in `h` at or after index `k`.
pub open spec fn first_match_from(h: Seq<u8>, n: Seq<u8>, k: int) -> Option<int>
    decreases h.len() - k,
{
    if k < 0 || k + n.len() > h.len() {
        None
    } else if match_at(h, n, k) {
        Some(k)
    } else {
        first_match_from(h, n, k + 1)
    }
}

/// The first occurrence of `n` in `h`.
pub open spec fn spec_find_sub(h: Seq<u8>, n: Seq<u8>) -> Option<int> {
    first_match_from(h, n, 0)
}

pub proof fn lemma_first_match_from(h: Seq<u8>, n: Seq<u8>, k: int)
    requires
        0 <= k,
    ensures
        match first_match_from(h, n, k) {
            Some(i) => k <= i && match_at(h, n, i) && forall|j: int|
                k <= j < i ==> !match_at(h, n, j),
            None => forall|j: int| k <= j ==> !match_at(h, n, j),
        },
    decreases h.len() - k,
{
    if k + n.len() > h.len() {
        assert forall|j: int| k <= j implies !match_at(h, n, j) by {}
    } else if match_at(h, n, k) {
    } else {
        lemma_first_match_from(h, n, k + 1);
    }
}

pub fn bytes_eq_at(h: &[u8], n: &[u8], i: usize) -> (r: bool)
    requires
        i + n@.len() <= h@.len(),
    ensures
        r == match_at(h@, n@, i as int),
{
    let hlen = h.len();
    let nlen = n.len();
    let mut j: usize = 0;
    while j < nlen
        invariant
            j <= nlen,
            nlen == n@.len(),
            hlen == h@.len(),
            i + nlen <= hlen,
            forall|t: int| 0 <= t < j ==> h@[i + t] == n@[t],
        decreases nlen - j,
    {
        if h[i + j] != n[j] {
            return false;
        }
        j += 1;
    }
    true
}

/// The index of the first occurrence of `n` in `h`, if any.
pub fn find_subsequence(h: &[u8], n: &[u8]) -> (r: Option<usize>)
    ensures
        match r {
            Some(i) => spec_find_sub(h@, n@) == Some(i as int),
            None => spec_find_sub(h@, n@) is None,
        },
{
    let hlen = h.len();
    let nlen = n.len();
    if nlen > hlen {
        proof {
            lemma_first_match_from(h@, n@, 0);
        }
        return None;
    }
    let last = hlen - nlen;
    let mut i: usize = 0;
    loop
        invariant
            i <= last + 1,
            last == h@.len() - n@.len(),
            n@.len() <= h@.len(),
            h@.len() <= usize::MAX,
            forall|j: int| 0 <= j < i ==> !match_at(h@, n@, j),
        decreases last + 1 - i,
    {
        if i > last {
            proof {
                lemma_first_match_from(h@, n@, 0);
                assert(forall|j: int| 0 <= j ==> !match_at(h@, n@, j));
            }
            return None;
        }
        if bytes_eq_at(h, n, i) {
            proof {
                lemma_first_match_from(h@, n@, 0);
            }
            return Some(i);
        }
        proof {
            assert(n@.len() > 0);
        }
        i += 1;
    }
}

/// The first occurrence of character `c` in `s` at or after index `k`.
pub open spec fn first_char_from(s: Seq<char>, c: char, k: int) -> Option<int>
    decreases s.len() - k,
{
    if k < 0 || k >= s.len() {
        None
    } else if s[k] == c {
        Some(k)
    } else {
        first_char_from(s, c, k + 1)
    }
}

/// The index of the first occurrence of `c` in `s`.
pub open spec fn first_index_of(s: Seq<char>, c: char) -> Option<int> {
    first_char_from(s, c, 0)
}

pub proof fn lemma_first_char_from(s: Seq<char>, c: char, k: int)
    requires
        0 <= k,
    ensures
        match first_char_from(s, c, k) {
            Some(i) => k <= i < s.len() && s[i] == c && forall|j: int| k <= j < i ==> s[j] != c,
            None => forall|j: int| k <= j < s.len() ==> s[j] != c,
        },
    decreases s.len() - k,
{
    if k < s.len() && s[k] != c {
        lemma_first_char_from(s, c, k + 1);
    }
}

/// The index of the first occurrence of `c` in `s`, if any.
pub fn find_char(s: &str, c: char) -> (r: Option<usize>)
    ensures
        match r {
            Some(i) => first_index_of(s@, c) == Some(i as int),
            None => first_index_of(s@, c) is None,
        },
{
    let len = s.unicode_len();
    let mut i: usize = 0;
    while i < len
        invariant
            i <= len,
            len == s@.len(),
            forall|j: int| 0 <= j < i ==> s@[j] != c,
        decreases len - i,
    {
        if s.get_char(i) == c {
            proof {
                lemma_first_char_from(s@, c, 0);
                match first_index_of(s@, c) {
                    Some(w) => {
                        if w < i {
                            assert(s@[w] != c);
                        }
                        if w > i {
                            assert(s@[i as int] != c);
                        }
                    },
                    None => {
                        assert(s@[i as int] != c);
                    },
                }
            }
            return Some(i);
        }
        i += 1;
    }
    proof {
        lemma_first_char_from(s@, c, 0);
        match first_index_of(s@, c) {
            Some(w) => {
                assert(s@[w] != c);
            },
            None => {},
        }
    }
    None
}

/// The needle `n` occurs in `s` at character index `i`.
pub open spec fn chars_match_at(s: Seq<char>, n: Seq<char>, i: int) -> bool {
    &&& 0 <= i
    &&& i + n.len() <= s.len()
    &&& forall|t: int| 0 <= t < n.len() ==> s[i + t] == n[t]
}

/// `n` occurs somewhere in `s`.
pub open spec fn contains_chars(s: Seq<char>, n: Seq<char>) -> bool {
    exists|i: int| chars_match_at(s, n, i)
}

/// Substring search: whether `n` occurs anywhere in `s`.
pub fn str_contains(s: &str, n: &str) -> (r: bool)
    ensures
        r == contains_chars(s@, n@),
{
    let slen = s.unicode_len();
    let nlen = n.unicode_len();
    if nlen > slen {
        return false;
    }
    let last = slen - nlen;
    let mut i: usize = 0;
    while i <= last
        invariant
            i <= last + 1,
            last == s@.len() - n@.len(),
            nlen == n@.len(),
            slen == s@.len(),
            n@.len() <= s@.len(),
            s@.len() <= usize::MAX,
            forall|j: int| 0 <= j < i ==> !chars_match_at(s@, n@, j),
        decreases last - i + 1,
    {
        let mut t: usize = 0;
        let mut all = true;
        while t < nlen
            invariant
                t <= nlen,
                nlen == n@.len(),
                slen == s@.len(),
                i + nlen <= s@.len(),
                all ==> forall|q: int| 0 <= q < t ==> s@[i + q] == n@[q],
                !all ==> !chars_match_at(s@, n@, i as int),
            decreases nlen - t,
        {
            if s.get_char(i + t) != n.get_char(t) {
                all = false;
                proof {
                    assert(!chars_match_at(s@, n@, i as int));
                }
                t = nlen;
            } else {
                t += 1;
            }
        }
        if all {
            proof {
                assert(chars_match_at(s@, n@, i as int));
            }
            return true;
        }
        i += 1;
    }
    proof {
        assert forall|j: int| 0 <= j implies !chars_match_at(s@, n@, j) by {
            if j <= last as int {
                assert(!chars_match_at(s@, n@, j));
            }
        }
    }
    false
}

/// The index of the first occurrence of `n` in `h` at or after `from`.
pub fn find_subsequence_from(h: &[u8], n: &[u8], from: usize) -> (r: Option<usize>)
    ensures
        match r {
            Some(i) => first_match_from(h@, n@, from as int) == Some(i as int),
            None => first_match_from(h@, n@, from as int) is None,
        },
{
    let hlen = h.len();
    let nlen = n.len();
    if nlen > hlen || from > hlen - nlen {
        proof {
            lemma_first_match_from(h@, n@, from as int);
            match first_match_from(h@, n@, from as int) {
                Some(w) => {
                    assert(match_at(h@, n@, w));
                    assert(false);
                },
                None => {},
            }
        }
        return None;
    }
    let last = hlen - nlen;
    let mut i: usize = from;
    loop
        invariant
            from <= i <= last + 1,
            last == h@.len() - n@.len(),
            n@.len() <= h@.len(),
            h@.len() <= usize::MAX,
            forall|j: int| from <= j < i ==> !match_at(h@, n@, j),
        decreases last + 1 - i,
    {
        if i > last {
            proof {
                lemma_first_match_from(h@, n@, from as int);
                match first_match_from(h@, n@, from as int) {
                    Some(w) => {
                        assert(match_at(h@, n@, w));
                        assert(false);
                    },
                    None => {},
                }
            }
            return None;
        }
        if bytes_eq_at(h, n, i) {
            proof {
                lemma_first_match_from(h@, n@, from as int);
                match first_match_from(h@, n@, from as int) {
                    Some(w) => {
                        if w < i {
                            assert(!match_at(h@, n@, w));
                        }
                        if w > i {
                            assert(!match_at(h@, n@, i as int));
                        }
                    },
                    None => {
                        assert(!match_at(h@, n@, i as int));
                    },
                }
            }
            return Some(i);
        }
        proof {
            assert(n@.len() > 0);
        }
        i += 1;
    }
}

/// `p` is a prefix of `h` starting at its beginning.
pub fn bytes_starts_with(h: &[u8], p: &[u8]) -> (r: bool)
    ensures
        r == seq_starts_with(h@, p@),
{
    if p.len() > h.len() {
        return false;
    }
    let r = bytes_eq_at(h, p, 0);
    proof {
        if match_at(h@, p@, 0) {
            assert(h@.subrange(0, p@.len() as int) =~= p@);
        } else if seq_starts_with(h@, p@) {
            assert(forall|t: int|
                0 <= t < p@.len() ==> h@[0 + t] == #[trigger] h@.subrange(0, p@.len() as int)[t]);
        }
    }
    r
}

/// A copy of `h[from..to]` as a fresh vector.
pub fn bytes_range(h: &[u8], from: usize, to: usize) -> (r: Vec<u8>)
    requires
        from <= to <= h@.len(),
    ensures
        r@ == h@.subrange(from as int, to as int),
{
    let mut out: Vec<u8> = Vec::new();
    let mut i: usize = from;
    while i < to
        invariant
            from <= i <= to <= h@.len(),
            out@.len() == i - from,
            forall|j: int| 0 <= j < out@.len() ==> out@[j] == h@[from + j],
        decreases to - i,
    {
        out.push(h[i]);
        i += 1;
    }
    proof {
        assert(out@ =~= h@.subrange(from as int, to as int));
    }
    out
}

} // verus!
