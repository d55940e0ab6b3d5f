//! Text helpers on character sequences: splitting at a separator, substring
//! search, decimal numbers and lower case.

use vstd::prelude::*;

verus! {

/// `i` is the position of the first `c` in `s`.
pub open spec fn is_first_index(s: Seq<char>, c: char, i: int) -> bool {
    &&& 0 <= i < s.len()
    &&& s[i] == c
    &&& forall|j: int| 0 <= j < i ==> s[j] != c
}

/// `s` cut at its first `c`, which neither part keeps.
pub open spec fn split_once(s: Seq<char>, c: char) -> Option<(Seq<char>, Seq<char>)> {
    if exists|i: int| is_first_index(s, c, i) {
        let i = choose|i: int| is_first_index(s, c, i);
        Some((s.subrange(0, i), s.subrange(i + 1, s.len() as int)))
    } else {
        None
    }
}

/// `s` cut at every `c`: one more piece than there are separators, empty
/// pieces included.
pub open spec fn split_all(s: Seq<char>, c: char) -> Seq<Seq<char>>
    decreases s.len(),
{
    match split_once(s, c) {
        Some((head, tail)) => seq![head] + split_all(tail, c),
        None => seq![s],
    }
}

/// The views of a list of strings.
pub open spec fn texts(v: Seq<String>) -> Seq<Seq<char>> {
    v.map_values(|x: String| x@)
}

proof fn lemma_first_index_unique(s: Seq<char>, c: char, i: int, k: int)
    requires
        is_first_index(s, c, i),
        is_first_index(s, c, k),
    ensures
        i == k,
{
    if i < k {
        assert(s[i] != c);
    } else if k < i {
        assert(s[k] != c);
    }
}

/// The first `c` at or after `start`.
fn find_from(s: &str, len: usize, c: char, start: usize) -> (r: Option<usize>)
    requires
        len == s@.len(),
        start <= len,
    ensures
        match r {
            Some(i) => start <= i < len && s@[i as int] == c && forall|j: int|
                start <= j < i ==> s@[j] != c,
            None => forall|j: int| start <= j < len ==> s@[j] != c,
        },
{
    let mut i = start;
    while i < len
        invariant
            len == s@.len(),
            start <= i <= len,
            forall|j: int| start <= j < i ==> s@[j] != c,
        decreases len - i,
    {
        if s.get_char(i) == c {
            return Some(i);
        }
        i = i + 1;
    }
    None
}

proof fn lemma_split_at_found(s: Seq<char>, c: char, start: int, i: int)
    requires
        0 <= start <= i < s.len(),
        s[i] == c,
        forall|j: int| start <= j < i ==> s[j] != c,
    ensures
        split_once(s.subrange(start, s.len() as int), c) == Some(
            (s.subrange(start, i), s.subrange(i + 1, s.len() as int)),
        ),
{
    let rest = s.subrange(start, s.len() as int);
    assert(is_first_index(rest, c, i - start));
    let k = choose|k: int| is_first_index(rest, c, k);
    lemma_first_index_unique(rest, c, i - start, k);
    assert(rest.subrange(0, i - start) =~= s.subrange(start, i));
    assert(rest.subrange(i - start + 1, rest.len() as int) =~= s.subrange(i + 1, s.len() as int));
}

proof fn lemma_split_none(s: Seq<char>, c: char, start: int)
    requires
        0 <= start <= s.len(),
        forall|j: int| start <= j < s.len() ==> s[j] != c,
    ensures
        split_once(s.subrange(start, s.len() as int), c) is None,
{
    let rest = s.subrange(start, s.len() as int);
    assert forall|k: int| !is_first_index(rest, c, k) by {
        if 0 <= k < rest.len() {
            assert(rest[k] == s[start + k]);
        }
    }
}

/// `s` cut at its first `c`.
pub fn split_first(s: &str, c: char) -> (r: Option<(String, String)>)
    ensures
        match split_once(s@, c) {
            Some((head, tail)) => r matches Some((h, t)) && h@ == head && t@ == tail,
            None => r is None,
        },
{
    let len = s.unicode_len();
    assert(s@.subrange(0, len as int) =~= s@);
    match find_from(s, len, c, 0) {
        Some(i) => {
            proof {
                lemma_split_at_found(s@, c, 0, i as int);
            }
            let head = String::from_str(s.substring_char(0, i));
            let tail = String::from_str(s.substring_char(i + 1, len));
            Some((head, tail))
        },
        None => {
            proof {
                lemma_split_none(s@, c, 0);
            }
            None
        },
    }
}

/// `s` cut at every `c`, as [`split_all`] defines it.
pub fn split_text(s: &str, c: char) -> (r: Vec<String>)
    ensures
        texts(r@) == split_all(s@, c),
{
    let len = s.unicode_len();
    let mut parts: Vec<String> = Vec::new();
    let mut start: usize = 0;
    assert(s@.subrange(0, len as int) =~= s@);
    assert(texts(parts@) + split_all(s@.subrange(0, len as int), c) =~= split_all(s@, c));
    loop
        invariant
            len == s@.len(),
            start <= len,
            texts(parts@) + split_all(s@.subrange(start as int, len as int), c) == split_all(s@, c),
        decreases len - start,
    {
        let ghost rest = s@.subrange(start as int, len as int);
        match find_from(s, len, c, start) {
            Some(i) => {
                proof {
                    lemma_split_at_found(s@, c, start as int, i as int);
                }
                let piece = String::from_str(s.substring_char(start, i));
                let ghost before = parts@;
                parts.push(piece);
                proof {
                    assert(split_all(rest, c) == seq![s@.subrange(start as int, i as int)]
                        + split_all(s@.subrange(i + 1, len as int), c));
                    assert(texts(parts@) =~= texts(before).push(piece@));
                    assert(texts(parts@) + split_all(s@.subrange(i + 1, len as int), c) =~= texts(
                        before,
                    ) + split_all(rest, c));
                }
                start = i + 1;
            },
            None => {
                proof {
                    lemma_split_none(s@, c, start as int);
                }
                let piece = String::from_str(s.substring_char(start, len));
                let ghost before = parts@;
                parts.push(piece);
                proof {
                    assert(split_all(rest, c) == seq![rest]);
                    assert(texts(parts@) =~= texts(before) + split_all(rest, c));
                }
                return parts;
            },
        }
    }
}

/// `needle` occurs in `hay`.
pub open spec fn is_infix(needle: Seq<char>, hay: Seq<char>) -> bool {
    exists|i: int|
        0 <= i && i + needle.len() <= hay.len() && #[trigger] hay.subrange(i, i + needle.len())
            == needle
}

/// Whether `needle` occurs in `hay`.
pub fn contains_text(hay: &str, needle: &str) -> (r: bool)
    ensures
        r == is_infix(needle@, hay@),
{
    let h = hay.unicode_len();
    let n = needle.unicode_len();
    if n > h {
        return false;
    }
    if n == 0 {
        assert(hay@.subrange(0, 0 + needle@.len() as int) =~= needle@);
        return true;
    }
    let wanted = String::from_str(needle);
    let mut i: usize = 0;
    while i < h - n + 1
        invariant
            h == hay@.len(),
            n == needle@.len(),
            0 < n <= h,
            wanted@ == needle@,
            forall|j: int| 0 <= j < i ==> #[trigger] hay@.subrange(j, j + n) != needle@,
        decreases h - n + 1 - i,
    {
        let window = String::from_str(hay.substring_char(i, i + n));
        if window == wanted {
            return true;
        }
        i = i + 1;
    }
    false
}

/// A decimal digit.
pub open spec fn is_digit(c: char) -> bool {
    '0' <= c <= '9'
}

/// The number that a sequence of decimal digits writes.
pub open spec fn digits_value(d: Seq<char>) -> int
    decreases d.len(),
{
    if d.len() == 0 {
        0
    } else {
        digits_value(d.drop_last()) * 10 + (d.last() as u32 - '0' as u32)
    }
}

/// `s` without one leading `+`.
pub open spec fn without_plus(s: Seq<char>) -> Seq<char> {
    if s.len() > 0 && s[0] == '+' {
        s.drop_first()
    } else {
        s
    }
}

/// Every character of `d` is a decimal digit.
pub open spec fn all_digits(d: Seq<char>) -> bool {
    forall|i: int| 0 <= i < d.len() ==> is_digit(#[trigger] d[i])
}

/// A `u8` in decimal: an optional `+`, then one or more digits, worth at most
/// 255.
pub open spec fn parse_u8_spec(s: Seq<char>) -> Option<u8> {
    let d = without_plus(s);
    if d.len() == 0 || !all_digits(d) || digits_value(d) > 255 {
        None
    } else {
        Some(digits_value(d) as u8)
    }
}

/// Reads a `u8` in decimal, as [`parse_u8_spec`] defines it.
pub fn parse_u8(s: &str) -> (r: Option<u8>)
    ensures
        r == parse_u8_spec(s@),
{
    let len = s.unicode_len();
    let mut start: usize = 0;
    if len > 0 && s.get_char(0) == '+' {
        start = 1;
    }
    let ghost d = without_plus(s@);
    assert(d =~= s@.subrange(start as int, len as int));
    if start == len {
        return None;
    }
    let mut value: u32 = 0;
    let mut i: usize = start;
    while i < len
        invariant
            len == s@.len(),
            start <= i <= len,
            d == s@.subrange(start as int, len as int),
            d == without_plus(s@),
            forall|j: int| 0 <= j < i - start ==> is_digit(#[trigger] d[j]),
            value == (if digits_value(d.subrange(0, i - start)) < 256 {
                digits_value(d.subrange(0, i - start))
            } else {
                256
            }),
        decreases len - i,
    {
        let c = s.get_char(i);
        assert(d[i - start] == c);
        if !('0' <= c && c <= '9') {
            assert(!is_digit(d[i - start]));
            return None;
        }
        let digit = (c as u32) - ('0' as u32);
        let ghost prefix = d.subrange(0, i - start + 1);
        assert(prefix.drop_last() =~= d.subrange(0, i - start));
        assert(prefix.last() == c);
        if value < 256 {
            value = value * 10 + digit;
            if value > 256 {
                value = 256;
            }
        }
        i = i + 1;
    }
    assert(d.subrange(0, d.len() as int) =~= d);
    if value > 255 {
        None
    } else {
        Some(value as u8)
    }
}

/// The lower-case form of a text, as Unicode defines it.
pub uninterp spec fn lower_of(s: Seq<char>) -> Seq<char>;

/// Relies on `str::to_lowercase`: the result depends on the characters alone.
#[verifier::external_body]
pub(crate) fn lowercase(s: &str) -> (r: String)
    ensures
        r@ == lower_of(s@),
{
    s.to_lowercase()
}

} // verus!
