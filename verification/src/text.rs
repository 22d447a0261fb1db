//! Text as sequences of characters: trimming, splitting, searching, decimal numbers.
//!
//! Every function here works on `Vec<char>` or `&str` and is specified over `Seq<char>`.

use vstd::prelude::*;
use vstd::utf8::{encode_utf8, valid_utf8};

verus! {

/// `String::push` of the standard library: the character is added behind the text.
pub assume_specification[ String::push ](s: &mut String, ch: char)
    ensures
        final(s)@ == old(s)@.push(ch),
;

/// The characters of `s`, in order.
pub fn to_chars(s: &str) -> (r: Vec<char>)
    ensures
        r@ == s@,
{
    let mut out: Vec<char> = Vec::new();
    for c in it: s.chars()
        invariant
            it.seq() == s@,
            out@ == s@.take(it.index() as int),
    {
        out.push(c);
        assert(out@ == s@.take(it.index() + 1));
    }
    assert(s@.take(s@.len() as int) == s@);
    out
}

/// The text made of `chars`.
pub fn from_chars(chars: &Vec<char>) -> (r: String)
    ensures
        r@ == chars@,
{
    range_text(chars, 0, chars.len())
}

/// The text made of the characters `from..to`.
pub fn range_text(chars: &Vec<char>, from: usize, to: usize) -> (r: String)
    requires
        from <= to <= chars@.len(),
    ensures
        r@ == chars@.subrange(from as int, to as int),
{
    let mut out = String::new();
    let mut i: usize = from;
    while i < to
        invariant
            from <= i <= to <= chars@.len(),
            out@ == chars@.subrange(from as int, i as int),
        decreases to - i,
    {
        out.push(chars[i]);
        i += 1;
        assert(out@ == chars@.subrange(from as int, i as int));
    }
    out
}

/// The characters `from..to`.
pub fn range_chars(chars: &Vec<char>, from: usize, to: usize) -> (r: Vec<char>)
    requires
        from <= to <= chars@.len(),
    ensures
        r@ == chars@.subrange(from as int, to as int),
{
    let mut out: Vec<char> = Vec::new();
    let mut i: usize = from;
    while i < to
        invariant
            from <= i <= to <= chars@.len(),
            out@ == chars@.subrange(from as int, i as int),
        decreases to - i,
    {
        out.push(chars[i]);
        i += 1;
        assert(out@ == chars@.subrange(from as int, i as int));
    }
    out
}

/// A copy of `s` as an owned text.
pub fn owned(s: &str) -> (r: String)
    ensures
        r@ == s@,
{
    s.to_owned()
}

/// Whether two texts hold the same characters.
pub fn same(a: &str, b: &str) -> (r: bool)
    ensures
        r == (a@ == b@),
{
    a.to_owned() == b.to_owned()
}

/// Whether two character vectors are equal.
pub fn same_chars(a: &Vec<char>, b: &Vec<char>) -> (r: bool)
    ensures
        r == (a@ == b@),
{
    if a.len() != b.len() {
        return false;
    }
    let mut i: usize = 0;
    while i < a.len()
        invariant
            i <= a@.len(),
            a@.len() == b@.len(),
            forall|j: int| 0 <= j < i ==> a@[j] == b@[j],
        decreases a@.len() - i,
    {
        if a[i] != b[i] {
            return false;
        }
        i += 1;
    }
    assert(a@ =~= b@);
    true
}

// ---------------------------------------------------------------------------
// Searching
// ---------------------------------------------------------------------------
/// `needle` stands in `text` at position `at`.
pub open spec fn stands_at(text: Seq<char>, needle: Seq<char>, at: int) -> bool {
    &&& 0 <= at
    &&& at + needle.len() <= text.len()
    &&& text.subrange(at, at + needle.len()) == needle
}

/// `text` begins with `prefix`.
pub open spec fn begins(text: Seq<char>, prefix: Seq<char>) -> bool {
    stands_at(text, prefix, 0)
}

/// `text` ends with `suffix`.
pub open spec fn ends(text: Seq<char>, suffix: Seq<char>) -> bool {
    stands_at(text, suffix, text.len() - suffix.len())
}

/// `needle` stands somewhere in `text`.
pub open spec fn holds(text: Seq<char>, needle: Seq<char>) -> bool {
    exists|at: int| #[trigger] stands_at(text, needle, at)
}

/// The first position at which `needle` stands in `text`, if there is one.
pub open spec fn first_at(text: Seq<char>, needle: Seq<char>, at: Option<int>) -> bool {
    match at {
        Some(i) => stands_at(text, needle, i) && forall|j: int|
            0 <= j < i ==> !#[trigger] stands_at(text, needle, j),
        None => forall|j: int| !#[trigger] stands_at(text, needle, j),
    }
}

/// Whether `needle` stands in `text` at `at`.
pub fn is_at(text: &Vec<char>, needle: &Vec<char>, at: usize) -> (r: bool)
    ensures
        r == stands_at(text@, needle@, at as int),
{
    if needle.len() > text.len() || at > text.len() - needle.len() {
        return false;
    }
    let mut i: usize = 0;
    while i < needle.len()
        invariant
            i <= needle@.len(),
            at + needle@.len() <= text.len(),
            forall|j: int| 0 <= j < i ==> text@[at + j] == needle@[j],
        decreases needle@.len() - i,
    {
        if text[at + i] != needle[i] {
            assert(text@.subrange(at as int, at + needle@.len())[i as int] == text@[at + i]);
            return false;
        }
        i += 1;
    }
    assert(text@.subrange(at as int, at + needle@.len()) =~= needle@);
    true
}

/// The first position of `needle` in `text`.
pub fn find(text: &Vec<char>, needle: &Vec<char>) -> (r: Option<usize>)
    ensures
        match r {
            Some(i) => first_at(text@, needle@, Some(i as int)),
            None => first_at(text@, needle@, None),
        },
{
    let mut i: usize = 0;
    while i < text.len()
        invariant
            i <= text@.len(),
            forall|j: int| 0 <= j < i ==> !#[trigger] stands_at(text@, needle@, j),
        decreases text@.len() - i,
    {
        if is_at(text, needle, i) {
            return Some(i);
        }
        i += 1;
    }
    if is_at(text, needle, i) {
        return Some(i);
    }
    None
}

/// The first position from `from` on at which `needle` stands in `text`.
pub open spec fn position(text: Seq<char>, needle: Seq<char>, from: int) -> Option<int>
    decreases text.len() + 1 - from,
{
    if from < 0 || from > text.len() {
        None
    } else if stands_at(text, needle, from) {
        Some(from)
    } else {
        position(text, needle, from + 1)
    }
}

/// What stands before the first `needle` in `text`, and what behind it.
pub open spec fn cut(text: Seq<char>, needle: Seq<char>) -> Option<(Seq<char>, Seq<char>)> {
    match position(text, needle, 0) {
        Some(at) => Some((text.take(at), text.skip(at + needle.len()))),
        None => None,
    }
}

/// What stands before the first `needle` in `text`, and what behind it.
pub fn split_once(text: &Vec<char>, needle: &str) -> (r: Option<(Vec<char>, Vec<char>)>)
    ensures
        match (r, cut(text@, needle@)) {
            (Some(parts), Some(expected)) => parts.0@ == expected.0 && parts.1@ == expected.1,
            (None, None) => true,
            _ => false,
        },
{
    let wanted = to_chars(needle);
    let n: usize = text.len();
    let mut i: usize = 0;
    while i <= n
        invariant
            n == text.len(),
            i <= n + 1,
            wanted@ == needle@,
            position(text@, needle@, 0) == position(text@, needle@, i as int),
        decreases n + 1 - i,
    {
        if is_at(text, &wanted, i) {
            let before = range_chars(text, 0, i);
            assert(i + wanted@.len() <= text@.len());
            let after = range_chars(text, i + wanted.len(), n);
            assert(before@ =~= text@.take(i as int));
            assert(after@ =~= text@.skip(i + needle@.len()));
            return Some((before, after));
        }
        if i == n {
            assert(position(text@, needle@, i + 1) is None);
            return None;
        }
        i += 1;
    }
    None
}

/// Whether `text` begins with `prefix`.
pub fn starts_with(text: &str, prefix: &str) -> (r: bool)
    ensures
        r == begins(text@, prefix@),
{
    is_at(&to_chars(text), &to_chars(prefix), 0)
}

/// Whether `text` ends with `suffix`.
pub fn ends_with(text: &str, suffix: &str) -> (r: bool)
    ensures
        r == ends(text@, suffix@),
{
    let chars = to_chars(text);
    let tail = to_chars(suffix);
    if tail.len() > chars.len() {
        return false;
    }
    is_at(&chars, &tail, chars.len() - tail.len())
}

/// Whether `needle` stands somewhere in `text`.
pub fn contains(text: &str, needle: &str) -> (r: bool)
    ensures
        r == holds(text@, needle@),
{
    find(&to_chars(text), &to_chars(needle)).is_some()
}

/// What follows `prefix`, if `text` begins with it.
pub fn strip_prefix(text: &str, prefix: &str) -> (r: Option<String>)
    ensures
        match r {
            Some(rest) => begins(text@, prefix@) && rest@ == text@.skip(prefix@.len() as int),
            None => !begins(text@, prefix@),
        },
{
    let chars = to_chars(text);
    let head = to_chars(prefix);
    if is_at(&chars, &head, 0) {
        Some(range_text(&chars, head.len(), chars.len()))
    } else {
        None
    }
}

/// What precedes `suffix`, if `text` ends with it.
pub fn strip_suffix(text: &str, suffix: &str) -> (r: Option<String>)
    ensures
        match r {
            Some(rest) => ends(text@, suffix@) && rest@ == text@.take(text@.len() - suffix@.len()),
            None => !ends(text@, suffix@),
        },
{
    let chars = to_chars(text);
    let tail = to_chars(suffix);
    if tail.len() > chars.len() {
        return None;
    }
    if is_at(&chars, &tail, chars.len() - tail.len()) {
        Some(range_text(&chars, 0, chars.len() - tail.len()))
    } else {
        None
    }
}

/// `c` occurs in `text`.
pub fn has_char(text: &Vec<char>, c: char) -> (r: bool)
    ensures
        r == text@.contains(c),
{
    let mut i: usize = 0;
    while i < text.len()
        invariant
            i <= text@.len(),
            forall|j: int| 0 <= j < i ==> text@[j] != c,
        decreases text@.len() - i,
    {
        if text[i] == c {
            return true;
        }
        i += 1;
    }
    false
}

// ---------------------------------------------------------------------------
// White space and letter case
// ---------------------------------------------------------------------------
/// The characters with the Unicode property `White_Space`.
pub open spec fn is_white(c: char) -> bool {
    let v = c as u32;
    ||| 9 <= v <= 13
    ||| v == 0x20
    ||| v == 0x85
    ||| v == 0xa0
    ||| v == 0x1680
    ||| 0x2000 <= v <= 0x200a
    ||| v == 0x2028
    ||| v == 0x2029
    ||| v == 0x202f
    ||| v == 0x205f
    ||| v == 0x3000
}

/// Whether `c` is white space.
pub fn white(c: char) -> (r: bool)
    ensures
        r == is_white(c),
{
    let v: u32 = c as u32;
    (9 <= v && v <= 13) || v == 0x20 || v == 0x85 || v == 0xa0 || v == 0x1680 || (0x2000 <= v && v
        <= 0x200a) || v == 0x2028 || v == 0x2029 || v == 0x202f || v == 0x205f || v == 0x3000
}

/// `s` without the white space at its front.
pub open spec fn trimmed_front(s: Seq<char>) -> Seq<char>
    decreases s.len(),
{
    if s.len() > 0 && is_white(s[0]) {
        trimmed_front(s.drop_first())
    } else {
        s
    }
}

/// `s` without the white space at its back.
pub open spec fn trimmed_back(s: Seq<char>) -> Seq<char>
    decreases s.len(),
{
    if s.len() > 0 && is_white(s.last()) {
        trimmed_back(s.drop_last())
    } else {
        s
    }
}

/// `s` without the white space at its two ends.
pub open spec fn trimmed(s: Seq<char>) -> Seq<char> {
    trimmed_back(trimmed_front(s))
}

/// The characters of `chars` without the white space at its two ends.
pub fn trim_chars(chars: &Vec<char>) -> (r: Vec<char>)
    ensures
        r@ == trimmed(chars@),
{
    let n: usize = chars.len();
    let mut from: usize = 0;
    assert(chars@.subrange(0, n as int) == chars@);
    while from < n && white(chars[from])
        invariant
            n == chars@.len(),
            from <= n,
            trimmed_front(chars@) == trimmed_front(chars@.subrange(from as int, n as int)),
        decreases n - from,
    {
        assert(chars@.subrange(from as int, n as int).drop_first() == chars@.subrange(
            from + 1,
            n as int,
        ));
        from += 1;
    }
    let ghost front = chars@.subrange(from as int, n as int);
    assert(trimmed_front(chars@) == front);
    let mut to: usize = n;
    while from < to && white(chars[to - 1])
        invariant
            n == chars@.len(),
            from <= to <= n,
            front == chars@.subrange(from as int, n as int),
            trimmed_back(front) == trimmed_back(chars@.subrange(from as int, to as int)),
        decreases to - from,
    {
        assert(chars@.subrange(from as int, to as int).drop_last() == chars@.subrange(
            from as int,
            to - 1,
        ));
        to -= 1;
    }
    range_chars(chars, from, to)
}

/// `s` without the white space at its two ends.
pub fn trim(s: &str) -> (r: String)
    ensures
        r@ == trimmed(s@),
{
    from_chars(&trim_chars(&to_chars(s)))
}

/// `c` with an ASCII capital made small.
pub open spec fn lower_char(c: char) -> char {
    if 'A' <= c && c <= 'Z' {
        ((c as u8) + 32) as char
    } else {
        c
    }
}

/// `s` with the ASCII capitals made small.
pub open spec fn lowered(s: Seq<char>) -> Seq<char> {
    s.map_values(|c: char| lower_char(c))
}

/// `c` with a small ASCII letter made a capital.
pub open spec fn upper_char(c: char) -> char {
    if 'a' <= c && c <= 'z' {
        ((c as u8) - 32) as char
    } else {
        c
    }
}

/// `s` with the small ASCII letters made capitals.
pub open spec fn raised(s: Seq<char>) -> Seq<char> {
    s.map_values(|c: char| upper_char(c))
}

/// `s` with the ASCII capitals made small.
pub fn lower(s: &str) -> (r: String)
    ensures
        r@ == lowered(s@),
{
    let chars = to_chars(s);
    let mut out = String::new();
    let mut i: usize = 0;
    while i < chars.len()
        invariant
            chars@ == s@,
            i <= chars@.len(),
            out@ == lowered(s@).take(i as int),
        decreases chars@.len() - i,
    {
        let c: char = chars[i];
        let l: char = if 'A' <= c && c <= 'Z' {
            ((c as u8) + 32) as char
        } else {
            c
        };
        out.push(l);
        i += 1;
        assert(out@ == lowered(s@).take(i as int));
    }
    assert(lowered(s@).take(i as int) == lowered(s@));
    out
}

/// `s` with the small ASCII letters made capitals.
pub fn upper(s: &str) -> (r: String)
    ensures
        r@ == raised(s@),
{
    let chars = to_chars(s);
    let mut out = String::new();
    let mut i: usize = 0;
    while i < chars.len()
        invariant
            chars@ == s@,
            i <= chars@.len(),
            out@ == raised(s@).take(i as int),
        decreases chars@.len() - i,
    {
        let c: char = chars[i];
        let l: char = if 'a' <= c && c <= 'z' {
            ((c as u8) - 32) as char
        } else {
            c
        };
        out.push(l);
        i += 1;
        assert(out@ == raised(s@).take(i as int));
    }
    assert(raised(s@).take(i as int) == raised(s@));
    out
}

/// Whether two texts are equal when ASCII letter case is left aside.
pub fn same_ignoring_case(a: &str, b: &str) -> (r: bool)
    ensures
        r == (lowered(a@) == lowered(b@)),
{
    same(lower(a).as_str(), lower(b).as_str())
}

// ---------------------------------------------------------------------------
// Splitting and joining
// ---------------------------------------------------------------------------
/// The position of the first `sep` in `s`, or the length of `s`.
pub open spec fn first_index(s: Seq<char>, sep: char) -> int
    decreases s.len(),
{
    if s.len() == 0 || s[0] == sep {
        0
    } else {
        1 + first_index(s.drop_first(), sep)
    }
}

/// The pieces of `s` between the occurrences of `sep`: one more than there are separators.
pub open spec fn pieces(s: Seq<char>, sep: char) -> Seq<Seq<char>>
    decreases s.len(),
{
    if s.len() == 0 {
        seq![Seq::<char>::empty()]
    } else if s.last() == sep {
        pieces(s.drop_last(), sep).push(Seq::<char>::empty())
    } else {
        let before = pieces(s.drop_last(), sep);
        before.drop_last().push(before.last().push(s.last()))
    }
}

/// The views of the texts in `v`.
pub open spec fn views(v: Seq<String>) -> Seq<Seq<char>> {
    v.map_values(|s: String| s@)
}

/// The views of the character vectors in `v`.
pub open spec fn char_views(v: Seq<Vec<char>>) -> Seq<Seq<char>> {
    v.map_values(|s: Vec<char>| s@)
}

/// There is always at least one piece.
pub proof fn lemma_pieces_nonempty(s: Seq<char>, sep: char)
    ensures
        pieces(s, sep).len() >= 1,
    decreases s.len(),
{
    if s.len() > 0 {
        lemma_pieces_nonempty(s.drop_last(), sep);
    }
}

/// A text without the separator is its own only piece.
pub proof fn lemma_pieces_single(s: Seq<char>, sep: char)
    requires
        !s.contains(sep),
    ensures
        pieces(s, sep) == seq![s],
    decreases s.len(),
{
    if s.len() > 0 {
        assert(s.last() != sep) by {
            assert(s.contains(s.last()));
        }
        assert(!s.drop_last().contains(sep)) by {
            if s.drop_last().contains(sep) {
                let i = s.drop_last().index_of(sep);
                assert(s[i] == sep);
            }
        }
        lemma_pieces_single(s.drop_last(), sep);
        assert(s.drop_last().push(s.last()) == s);
        assert(pieces(s, sep) == seq![s]);
    } else {
        assert(s == Seq::<char>::empty());
    }
}

/// The pieces of `chars` between the occurrences of `sep`.
pub fn split(chars: &Vec<char>, sep: char) -> (r: Vec<Vec<char>>)
    ensures
        char_views(r@) == pieces(chars@, sep),
{
    let mut done: Vec<Vec<char>> = Vec::new();
    let mut last: Vec<char> = Vec::new();
    let mut i: usize = 0;
    assert(char_views(done@).push(last@) == pieces(chars@.take(0), sep));
    while i < chars.len()
        invariant
            i <= chars@.len(),
            char_views(done@).push(last@) == pieces(chars@.take(i as int), sep),
        decreases chars@.len() - i,
    {
        let c: char = chars[i];
        let ghost head = chars@.take(i as int);
        let ghost next = chars@.take(i + 1);
        assert(next.drop_last() == head);
        let ghost old_views = char_views(done@);
        let ghost old_last = last@;
        assert(old_views.push(old_last).drop_last() == old_views);
        if c == sep {
            done.push(last);
            last = Vec::new();
            assert(char_views(done@) == old_views.push(old_last));
            assert(last@ == Seq::<char>::empty());
        } else {
            last.push(c);
        }
        i += 1;
    }
    assert(chars@.take(i as int) == chars@);
    let ghost before = char_views(done@);
    let ghost tail = last@;
    done.push(last);
    assert(char_views(done@) == before.push(tail));
    done
}

/// The texts of `parts` with `sep` between neighbours.
pub open spec fn joined(parts: Seq<Seq<char>>, sep: Seq<char>) -> Seq<char>
    decreases parts.len(),
{
    if parts.len() == 0 {
        Seq::empty()
    } else if parts.len() == 1 {
        parts[0]
    } else {
        joined(parts.drop_last(), sep) + sep + parts.last()
    }
}

/// The texts of `parts` with `sep` between neighbours.
pub fn join(parts: &Vec<String>, sep: &str) -> (r: String)
    ensures
        r@ == joined(views(parts@), sep@),
{
    let mut out = String::new();
    let mut i: usize = 0;
    while i < parts.len()
        invariant
            i <= parts@.len(),
            out@ == joined(views(parts@).take(i as int), sep@),
        decreases parts@.len() - i,
    {
        let ghost next = views(parts@).take(i + 1);
        assert(next.drop_last() == views(parts@).take(i as int));
        if i > 0 {
            out.append(sep);
        }
        out.append(parts[i].as_str());
        assert(out@ == joined(next, sep@));
        i += 1;
    }
    assert(views(parts@).take(i as int) == views(parts@));
    out
}

/// `c` is a hexadecimal digit.
pub open spec fn is_hex(c: char) -> bool {
    ||| '0' <= c && c <= '9'
    ||| 'a' <= c && c <= 'f'
    ||| 'A' <= c && c <= 'F'
}

// ---------------------------------------------------------------------------
// Decimal numbers
// ---------------------------------------------------------------------------
/// `c` is one of the ten ASCII digits.
pub open spec fn is_digit(c: char) -> bool {
    '0' <= c && c <= '9'
}

/// The ASCII digit for `d`.
pub open spec fn digit(d: int) -> char {
    (d + 0x30) as char
}

/// The decimal digits of `n`, without leading zeros.
pub open spec fn decimal(n: nat) -> Seq<char>
    decreases n,
{
    if n < 10 {
        seq![digit(n as int)]
    } else {
        decimal(n / 10).push(digit((n % 10) as int))
    }
}

/// The number that a run of decimal digits writes.
pub open spec fn digits_value(s: Seq<char>) -> nat
    decreases s.len(),
{
    if s.len() == 0 {
        0
    } else {
        digits_value(s.drop_last()) * 10 + (s.last() as int - 0x30) as nat
    }
}

/// `s` holds digits and nothing else.
pub open spec fn all_digits(s: Seq<char>) -> bool {
    forall|i: int| 0 <= i < s.len() ==> is_digit(#[trigger] s[i])
}

/// Whether all of the characters are hexadecimal digits.
pub fn all_hex(chars: &Vec<char>) -> (r: bool)
    ensures
        r == forall|i: int| 0 <= i < chars@.len() ==> is_hex(#[trigger] chars@[i]),
{
    let mut i: usize = 0;
    while i < chars.len()
        invariant
            i <= chars@.len(),
            forall|k: int| 0 <= k < i ==> is_hex(#[trigger] chars@[k]),
        decreases chars@.len() - i,
    {
        let c = chars[i];
        if !('0' <= c && c <= '9' || 'a' <= c && c <= 'f' || 'A' <= c && c <= 'F') {
            assert(!is_hex(chars@[i as int]));
            return false;
        }
        i += 1;
    }
    true
}

/// Whether there are digits, and nothing else.
pub fn only_digits(chars: &Vec<char>) -> (r: bool)
    ensures
        r == (chars@.len() > 0 && all_digits(chars@)),
{
    if chars.len() == 0 {
        return false;
    }
    let mut i: usize = 0;
    while i < chars.len()
        invariant
            i <= chars@.len(),
            forall|k: int| 0 <= k < i ==> is_digit(#[trigger] chars@[k]),
        decreases chars@.len() - i,
    {
        if !('0' <= chars[i] && chars[i] <= '9') {
            return false;
        }
        i += 1;
    }
    true
}

/// What `s` writes as an unsigned decimal number: digits, with an optional `+` before them.
pub open spec fn unsigned_value(s: Seq<char>) -> Option<nat> {
    let body = if s.len() > 0 && s[0] == '+' {
        s.drop_first()
    } else {
        s
    };
    if body.len() > 0 && all_digits(body) {
        Some(digits_value(body))
    } else {
        None
    }
}

/// The number that `chars` writes, where it is at most `max`.
pub fn parse_unsigned(chars: &Vec<char>, max: u64) -> (r: Option<u64>)
    ensures
        match r {
            Some(n) => unsigned_value(chars@) == Some(n as nat) && n <= max,
            None => unsigned_value(chars@) is None || unsigned_value(chars@)->0 > max,
        },
{
    let from: usize = if chars.len() > 0 && chars[0] == '+' {
        1
    } else {
        0
    };
    let ghost body = chars@.skip(from as int);
    assert(from == 0 ==> body == chars@);
    assert(from == 1 ==> body == chars@.drop_first());
    if from == chars.len() {
        return None;
    }
    let mut value: u64 = 0;
    let mut over: bool = false;
    let mut i: usize = from;
    while i < chars.len()
        invariant
            from <= i <= chars@.len(),
            body == chars@.skip(from as int),
            body.len() > 0,
            body == if chars@.len() > 0 && chars@[0] == '+' {
                chars@.drop_first()
            } else {
                chars@
            },
            all_digits(body.take(i - from)),
            !over ==> value == digits_value(body.take(i - from)) && value <= max,
            over ==> digits_value(body.take(i - from)) > max,
        decreases chars@.len() - i,
    {
        let c: char = chars[i];
        let ghost next = body.take(i - from + 1);
        assert(next.drop_last() == body.take(i - from));
        assert(next.last() == c);
        if !('0' <= c && c <= '9') {
            assert(!is_digit(body[i - from]));
            return None;
        }
        assert(all_digits(next)) by {
            assert forall|j: int| 0 <= j < next.len() implies is_digit(#[trigger] next[j]) by {
                if j < i - from {
                    assert(next[j] == body.take(i - from)[j]);
                }
            }
        }
        let d: u64 = (c as u64) - 0x30;
        if !over {
            let wide: u128 = (value as u128) * 10 + (d as u128);
            if wide > max as u128 {
                over = true;
            } else {
                value = wide as u64;
            }
        }
        i += 1;
        assert(body.take(i - from) == next);
    }
    assert(body.take(i - from) == body);
    if over {
        None
    } else {
        Some(value)
    }
}

/// The decimal digits of `n`.
pub fn decimal_text_wide(n: u128) -> (r: String)
    ensures
        r@ == decimal(n as nat),
    decreases n,
{
    let d: u8 = (n % 10) as u8;
    let c: char = (d + 0x30) as char;
    if n < 10 {
        let mut out = String::new();
        out.push(c);
        assert(out@ == seq![digit(n as int)]);
        out
    } else {
        let mut out = decimal_text_wide(n / 10);
        out.push(c);
        out
    }
}

/// The decimal digits of `n`.
pub fn decimal_text(n: u64) -> (r: String)
    ensures
        r@ == decimal(n as nat),
{
    decimal_text_wide(n as u128)
}

/// What `decimal` writes consists of digits and reads back as the same number.
pub proof fn decimal_reads_back(n: nat)
    ensures
        decimal(n).len() > 0,
        all_digits(decimal(n)),
        digits_value(decimal(n)) == n,
        unsigned_value(decimal(n)) == Some(n),
    decreases n,
{
    reveal_with_fuel(digits_value, 2);
    if n < 10 {
        assert(decimal(n).drop_last() == Seq::<char>::empty());
        assert(decimal(n).last() == digit(n as int));
    } else {
        decimal_reads_back(n / 10);
        assert(decimal(n).drop_last() == decimal(n / 10));
        assert(decimal(n).last() == digit((n % 10) as int));
    }
    assert(is_digit(decimal(n)[0]));
}

// ---------------------------------------------------------------------------
// Building messages
// ---------------------------------------------------------------------------
/// The first text followed by the second.
pub fn cat(a: &str, b: &str) -> (r: String)
    ensures
        r@ == a@ + b@,
{
    let mut out = a.to_owned();
    out.append(b);
    out
}

/// Three texts in a row.
pub fn cat3(a: &str, b: &str, c: &str) -> (r: String)
    ensures
        r@ == a@ + b@ + c@,
{
    let mut out = a.to_owned();
    out.append(b);
    out.append(c);
    out
}

/// Four texts in a row.
pub fn cat4(a: &str, b: &str, c: &str, d: &str) -> (r: String)
    ensures
        r@ == a@ + b@ + c@ + d@,
{
    let mut out = a.to_owned();
    out.append(b);
    out.append(c);
    out.append(d);
    out
}

/// Five texts in a row.
pub fn cat5(a: &str, b: &str, c: &str, d: &str, e: &str) -> (r: String)
    ensures
        r@ == a@ + b@ + c@ + d@ + e@,
{
    let mut out = a.to_owned();
    out.append(b);
    out.append(c);
    out.append(d);
    out.append(e);
    out
}

/// The view of an optional text.
pub open spec fn opt_view(o: Option<String>) -> Option<Seq<char>> {
    match o {
        Some(s) => Some(s@),
        None => None,
    }
}

// ---------------------------------------------------------------------------
// Bytes
// ---------------------------------------------------------------------------
/// `std::str::from_utf8`: a text comes back exactly where the bytes are valid UTF-8, and it is
/// the text that they encode.
#[verifier::external_body]
pub(crate) fn read_utf8(bytes: &Vec<u8>) -> (r: Option<&str>)
    ensures
        r is Some <==> valid_utf8(bytes@),
        r matches Some(text) ==> encode_utf8(text@) == bytes@,
{
    std::str::from_utf8(bytes.as_slice()).ok()
}

/// The length of `s` in UTF-8.
pub fn byte_length(s: &str) -> (r: usize)
    ensures
        r == encode_utf8(s@).len(),
{
    s.as_bytes().len()
}

/// A copy of `bytes` from `from` to `to`.
pub fn range_bytes(bytes: &Vec<u8>, from: usize, to: usize) -> (r: Vec<u8>)
    requires
        from <= to <= bytes@.len(),
    ensures
        r@ == bytes@.subrange(from as int, to as int),
{
    let mut out: Vec<u8> = Vec::new();
    let mut i: usize = from;
    while i < to
        invariant
            from <= i <= to <= bytes@.len(),
            out@ == bytes@.subrange(from as int, i as int),
        decreases to - i,
    {
        out.push(bytes[i]);
        i += 1;
        assert(out@ == bytes@.subrange(from as int, i as int));
    }
    out
}

/// Whether two byte vectors are equal.
pub fn same_bytes(a: &Vec<u8>, b: &Vec<u8>) -> (r: bool)
    ensures
        r == (a@ == b@),
{
    if a.len() != b.len() {
        return false;
    }
    let mut i: usize = 0;
    while i < a.len()
        invariant
            i <= a@.len(),
            a@.len() == b@.len(),
            forall|j: int| 0 <= j < i ==> a@[j] == b@[j],
        decreases a@.len() - i,
    {
        if a[i] != b[i] {
            return false;
        }
        i += 1;
    }
    assert(a@ =~= b@);
    true
}

/// The bytes of `s` in UTF-8.
pub fn to_bytes(s: &str) -> (r: Vec<u8>)
    ensures
        r@ == encode_utf8(s@),
{
    s.as_bytes_vec()
}

/// A trimmed text is the text without the white space at its two ends, and without anything else:
/// it begins and ends with something that is not white, and only white stands around it.
pub proof fn trimming_takes_white_space_off_the_ends(s: Seq<char>)
    ensures
        ({
            let rest = trimmed(s);
            let from = s.len() - trimmed_front(s).len();
            &&& 0 <= from
            &&& from + rest.len() <= s.len()
            &&& rest == s.subrange(from, from + rest.len())
            &&& rest.len() > 0 ==> !is_white(rest[0]) && !is_white(rest.last())
            &&& forall|i: int| 0 <= i < from ==> is_white(s[i])
            &&& forall|i: int| from + rest.len() <= i < s.len() ==> is_white(s[i])
        }),
{
    let front = trimmed_front(s);
    let rest = trimmed(s);
    lemma_front(s);
    lemma_back(front);
    let from = s.len() - front.len();
    assert(rest =~= s.subrange(from, from + rest.len()));
    if rest.len() > 0 {
        assert(rest[0] == front[0]);
    }
    assert forall|i: int| from + rest.len() <= i < s.len() implies is_white(s[i]) by {
        assert(front[i - from] == s[i]);
    }
}

proof fn lemma_front(s: Seq<char>)
    ensures
        trimmed_front(s).len() <= s.len(),
        trimmed_front(s) == s.skip(s.len() - trimmed_front(s).len()),
        trimmed_front(s).len() > 0 ==> !is_white(trimmed_front(s)[0]),
        forall|i: int| 0 <= i < s.len() - trimmed_front(s).len() ==> is_white(s[i]),
    decreases s.len(),
{
    if s.len() > 0 && is_white(s[0]) {
        let rest = s.drop_first();
        lemma_front(rest);
        assert(trimmed_front(s) =~= s.skip(s.len() - trimmed_front(s).len()));
        assert forall|i: int| 0 <= i < s.len() - trimmed_front(s).len() implies is_white(
            s[i],
        ) by {
            if i > 0 {
                assert(rest[i - 1] == s[i]);
            }
        }
    } else {
        assert(s.skip(0) =~= s);
    }
}

proof fn lemma_back(s: Seq<char>)
    ensures
        trimmed_back(s).len() <= s.len(),
        trimmed_back(s) == s.take(trimmed_back(s).len() as int),
        trimmed_back(s).len() > 0 ==> !is_white(trimmed_back(s).last()),
        forall|i: int| trimmed_back(s).len() <= i < s.len() ==> is_white(s[i]),
    decreases s.len(),
{
    if s.len() > 0 && is_white(s.last()) {
        let rest = s.drop_last();
        lemma_back(rest);
        assert(trimmed_back(s) =~= s.take(trimmed_back(s).len() as int));
        assert forall|i: int| trimmed_back(s).len() <= i < s.len() implies is_white(s[i]) by {
            if i < rest.len() {
                assert(rest[i] == s[i]);
            }
        }
    } else {
        assert(s.take(s.len() as int) =~= s);
    }
}

/// The pieces of a text, put together again with the separator, are the text, and none of them
/// holds the separator.
pub proof fn pieces_make_up_the_text(s: Seq<char>, sep: char)
    ensures
        pieces(s, sep).len() >= 1,
        joined(pieces(s, sep), seq![sep]) == s,
        forall|i: int| 0 <= i < pieces(s, sep).len() ==> !(#[trigger] pieces(s, sep)[i]).contains(
            sep,
        ),
    decreases s.len(),
{
    lemma_pieces_nonempty(s, sep);
    if s.len() > 0 {
        let shorter = s.drop_last();
        pieces_make_up_the_text(shorter, sep);
        let before = pieces(shorter, sep);
        let after = pieces(s, sep);
        if s.last() == sep {
            assert(after.drop_last() == before);
            assert(joined(after, seq![sep]) =~= s);
        } else {
            let head = before.drop_last();
            assert(after.drop_last() == head);
            assert(after.last() == before.last().push(s.last()));
            if before.len() == 1 {
                assert(before[0] == shorter);
                assert(joined(after, seq![sep]) =~= s);
            } else {
                let front = joined(head, seq![sep]) + seq![sep];
                assert(joined(before, seq![sep]) == front + before.last());
                assert(joined(after, seq![sep]) == front + after.last());
                assert(front + before.last().push(s.last()) =~= (front + before.last()).push(
                    s.last(),
                ));
                assert(shorter.push(s.last()) =~= s);
            }
            assert forall|i: int| 0 <= i < after.len() implies !(
            #[trigger] after[i]).contains(sep) by {
                if i < head.len() {
                    assert(after[i] == before[i]);
                } else {
                    assert(!before[before.len() - 1].contains(sep));
                    if after[i].contains(sep) {
                        let k = after[i].index_of(sep);
                        if k < before.last().len() {
                            assert(before.last()[k] == sep);
                            assert(before.last().contains(sep));
                        }
                    }
                }
            }
        }
        assert forall|i: int| 0 <= i < after.len() implies !(#[trigger] after[i]).contains(sep) by {
            if s.last() == sep {
                if i < before.len() {
                    assert(after[i] == before[i]);
                }
            }
        }
    }
}

/// The first index of a character is where it first stands, or the end of the text.
pub proof fn the_first_index_is_the_first(s: Seq<char>, sep: char)
    ensures
        0 <= first_index(s, sep) <= s.len(),
        forall|i: int| 0 <= i < first_index(s, sep) ==> s[i] != sep,
        first_index(s, sep) < s.len() ==> s[first_index(s, sep)] == sep,
    decreases s.len(),
{
    if s.len() > 0 && s[0] != sep {
        let rest = s.drop_first();
        the_first_index_is_the_first(rest, sep);
        assert forall|i: int| 0 <= i < first_index(s, sep) implies s[i] != sep by {
            if i > 0 {
                assert(rest[i - 1] == s[i]);
            }
        }
        if first_index(s, sep) < s.len() {
            assert(rest[first_index(rest, sep)] == s[first_index(s, sep)]);
        }
    }
}

/// Small letters are the letters of the alphabet made small, one for one; whatever else stands in a
/// text stays.
pub proof fn small_letters_are_one_for_one(s: Seq<char>, i: int)
    requires
        0 <= i < s.len(),
    ensures
        lowered(s).len() == s.len(),
        !('A' <= s[i] && s[i] <= 'Z') ==> lowered(s)[i] == s[i],
        'A' <= s[i] && s[i] <= 'Z' ==> lowered(s)[i] as u32 == s[i] as u32 + 32,
        raised(s).len() == s.len(),
        !('a' <= s[i] && s[i] <= 'z') ==> raised(s)[i] == s[i],
        'a' <= s[i] && s[i] <= 'z' ==> raised(s)[i] as u32 == s[i] as u32 - 32,
{
}

/// A text is cut at the first place where the mark stands: what stands before it holds no earlier
/// one, and with the mark and the rest it makes up the text.
pub proof fn a_text_is_cut_at_the_first_mark(s: Seq<char>, mark: Seq<char>)
    ensures
        cut(s, mark) is None ==> forall|at: int| !#[trigger] stands_at(s, mark, at),
        cut(s, mark) matches Some((before, behind)) ==> {
            &&& s == before + mark + behind
            &&& forall|at: int| 0 <= at < before.len() ==> !#[trigger] stands_at(s, mark, at)
        },
{
    lemma_position(s, mark, 0);
    if let Some(at) = position(s, mark, 0) {
        assert(s.take(at) + mark + s.skip(at + mark.len()) =~= s);
    } else {
        assert forall|at: int| !#[trigger] stands_at(s, mark, at) by {
            if stands_at(s, mark, at) {
                assert(0 <= at <= s.len());
            }
        }
    }
}

proof fn lemma_position(s: Seq<char>, mark: Seq<char>, from: int)
    requires
        0 <= from,
    ensures
        position(s, mark, from) matches Some(at) ==> from <= at && stands_at(s, mark, at)
            && forall|j: int| from <= j < at ==> !#[trigger] stands_at(s, mark, j),
        position(s, mark, from) is None ==> forall|j: int|
            from <= j <= s.len() ==> !#[trigger] stands_at(s, mark, j),
    decreases s.len() + 1 - from,
{
    if from <= s.len() && !stands_at(s, mark, from) {
        lemma_position(s, mark, from + 1);
    }
}

} // verus!
