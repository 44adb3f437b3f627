//! Character-level text primitives: conversion between strings and character vectors,
//! exact and ASCII-case-insensitive comparison, prefix tests, substring search and
//! decimal rendering. Every contract is stated over `Seq<char>`.

use vstd::prelude::*;

verus! {

/// `String::push` appends one character to the end of the string.
pub assume_specification[ String::push ](s: &mut String, c: char)
    ensures
        final(s)@ == old(s)@.push(c),
;

/// What `str::to_lowercase` returns for a string with the given characters.
pub uninterp spec fn lowercase_of(s: Seq<char>) -> Seq<char>;

/// `str::to_lowercase`: the lowercase form of `s` under the Unicode rules, which is a
/// function of the characters of `s` alone.
#[verifier::external_body]
pub(crate) fn lowercase(s: &str) -> (r: String)
    ensures
        r@ == lowercase_of(s@),
{
    s.to_lowercase()
}

/// The view of an optional string: the view of the string, if there is one.
pub open spec fn opt_text(o: Option<String>) -> Option<Seq<char>> {
    match o {
        Some(s) => Some(s@),
        None => None,
    }
}

/// The view of an optional string slice.
pub open spec fn opt_str(o: Option<&str>) -> Option<Seq<char>> {
    match o {
        Some(s) => Some(s@),
        None => None,
    }
}

/// `needle` stands in `hay` at character offset `i`.
pub open spec fn occurs_at(hay: Seq<char>, needle: Seq<char>, i: int) -> bool {
    &&& 0 <= i
    &&& i + needle.len() <= hay.len()
    &&& hay.subrange(i, i + needle.len()) == needle
}

/// `needle` stands somewhere in `hay`, compared character by character.
pub open spec fn contains_text(hay: Seq<char>, needle: Seq<char>) -> bool {
    exists|i: int| occurs_at(hay, needle, i)
}

/// `prefix` is an initial segment of `s`, compared character by character.
pub open spec fn starts_with(s: Seq<char>, prefix: Seq<char>) -> bool {
    occurs_at(s, prefix, 0)
}

/// The lowercase form of an ASCII capital letter; every other character is itself.
pub open spec fn ascii_lower(c: char) -> char {
    if 'A' <= c && c <= 'Z' {
        ((c as u8) + 32) as char
    } else {
        c
    }
}

/// `s` with each of its characters replaced by its `ascii_lower`.
pub open spec fn ascii_lower_text(s: Seq<char>) -> Seq<char> {
    Seq::new(s.len(), |i: int| ascii_lower(s[i]))
}

/// The two texts are equal once ASCII capitals are lowered.
pub open spec fn eq_ignoring_ascii_case(a: Seq<char>, b: Seq<char>) -> bool {
    ascii_lower_text(a) == ascii_lower_text(b)
}

/// The decimal digits of `n`, most significant first, without leading zeros.
pub open spec fn decimal_digits(n: nat) -> Seq<char>
    decreases n,
{
    if n < 10 {
        seq![digit_char(n)]
    } else {
        decimal_digits(n / 10).push(digit_char(n % 10))
    }
}

/// The character for a single decimal digit.
pub open spec fn digit_char(d: nat) -> char
    recommends
        d < 10,
{
    (('0' as u8) + (d as u8)) as char
}

/// A copy of an optional string.
pub fn copy_opt(o: &Option<String>) -> (r: Option<String>)
    ensures
        r == *o,
{
    match o {
        Some(s) => Some(s.clone()),
        None => None,
    }
}

/// An owned copy of an optional string slice.
pub fn owned(o: Option<&str>) -> (r: Option<String>)
    ensures
        opt_text(r) == opt_str(o),
{
    match o {
        Some(s) => Some(String::from_str(s)),
        None => None,
    }
}

/// The characters of `s`, in order, as a vector that can be indexed in constant time.
pub fn chars_of(s: &str) -> (v: Vec<char>)
    ensures
        v@ == s@,
{
    let mut v: Vec<char> = Vec::new();
    for c in it: s.chars()
        invariant
            v@ == it.seq().take(it.index() as int),
    {
        v.push(c);
    }
    v
}

/// The string made of the characters of `v`, in order.
pub fn string_of(v: &Vec<char>) -> (s: String)
    ensures
        s@ == v@,
{
    let mut s = String::new();
    let mut i: usize = 0;
    while i < v.len()
        invariant
            i <= v.len(),
            s@ == v@.take(i as int),
        decreases v.len() - i,
    {
        s.push(v[i]);
        i += 1;
    }
    s
}

/// Whether two character vectors hold the same text.
pub fn same_chars(a: &Vec<char>, b: &Vec<char>) -> (r: bool)
    ensures
        r == (a@ == b@),
{
    if a.len() != b.len() {
        return false;
    }
    let mut i: usize = 0;
    while i < a.len()
        invariant
            i <= a.len(),
            a.len() == b.len(),
            a@.take(i as int) == b@.take(i as int),
        decreases a.len() - i,
    {
        if a[i] != b[i] {
            return false;
        }
        assert(a@.take(i + 1) == a@.take(i as int).push(a@[i as int]));
        assert(b@.take(i + 1) == b@.take(i as int).push(b@[i as int]));
        i += 1;
    }
    assert(a@.take(a.len() as int) == a@);
    assert(b@.take(b.len() as int) == b@);
    true
}

/// Whether two strings hold the same text.
pub fn same_text(a: &str, b: &str) -> (r: bool)
    ensures
        r == (a@ == b@),
{
    let av = chars_of(a);
    let bv = chars_of(b);
    same_chars(&av, &bv)
}

/// The lowercase form of an ASCII capital letter; every other character is itself.
pub fn lower_ascii_char(c: char) -> (r: char)
    ensures
        r == ascii_lower(c),
{
    if 'A' <= c && c <= 'Z' {
        ((c as u8) + 32) as char
    } else {
        c
    }
}

/// Whether two strings are equal once ASCII capitals are lowered.
pub fn same_text_ignoring_ascii_case(a: &str, b: &str) -> (r: bool)
    ensures
        r == eq_ignoring_ascii_case(a@, b@),
{
    let av = chars_of(a);
    let bv = chars_of(b);
    if av.len() != bv.len() {
        assert(ascii_lower_text(a@).len() != ascii_lower_text(b@).len());
        return false;
    }
    let mut i: usize = 0;
    while i < av.len()
        invariant
            i <= av.len(),
            av.len() == bv.len(),
            av@ == a@,
            bv@ == b@,
            forall|k: int| 0 <= k < i ==> ascii_lower(av@[k]) == ascii_lower(bv@[k]),
        decreases av.len() - i,
    {
        if lower_ascii_char(av[i]) != lower_ascii_char(bv[i]) {
            assert(ascii_lower_text(a@)[i as int] != ascii_lower_text(b@)[i as int]);
            return false;
        }
        i += 1;
    }
    assert(ascii_lower_text(a@) =~= ascii_lower_text(b@));
    true
}

/// Whether `needle` stands in `hay` at character offset `i`.
pub fn matches_at(hay: &Vec<char>, needle: &Vec<char>, i: usize) -> (r: bool)
    ensures
        r == occurs_at(hay@, needle@, i as int),
{
    if i > hay.len() || needle.len() > hay.len() - i {
        return false;
    }
    let mut k: usize = 0;
    while k < needle.len()
        invariant
            k <= needle.len(),
            i + needle.len() <= hay.len(),
            forall|j: int| 0 <= j < k ==> hay@[i + j] == needle@[j],
        decreases needle.len() - k,
    {
        if hay[i + k] != needle[k] {
            assert(hay@.subrange(i as int, i + needle.len())[k as int] != needle@[k as int]);
            return false;
        }
        k += 1;
    }
    assert(hay@.subrange(i as int, i + needle.len()) =~= needle@);
    true
}

/// The least offset at or after `start` at which `needle` stands in `hay`, if there is one.
pub fn find_from(hay: &Vec<char>, needle: &Vec<char>, start: usize) -> (r: Option<usize>)
    ensures
        match r {
            Some(p) => {
                &&& start <= p
                &&& occurs_at(hay@, needle@, p as int)
                &&& forall|j: int| start <= j < p ==> !occurs_at(hay@, needle@, j)
            },
            None => forall|j: int| start <= j ==> !occurs_at(hay@, needle@, j),
        },
{
    if start > hay.len() || needle.len() > hay.len() - start {
        return None;
    }
    let last: usize = hay.len() - needle.len();
    let mut p: usize = start;
    loop
        invariant
            start <= p <= last,
            last == hay.len() - needle.len(),
            forall|j: int| start <= j < p ==> !occurs_at(hay@, needle@, j),
        decreases last - p,
    {
        if matches_at(hay, needle, p) {
            return Some(p);
        }
        if p == last {
            return None;
        }
        p += 1;
    }
}

/// Whether `needle` stands somewhere in `hay`.
pub fn contains_chars(hay: &Vec<char>, needle: &Vec<char>) -> (r: bool)
    ensures
        r == contains_text(hay@, needle@),
{
    match find_from(hay, needle, 0) {
        Some(p) => true,
        None => false,
    }
}

/// Whether `prefix` is an initial segment of `s`.
pub fn has_prefix(s: &str, prefix: &str) -> (r: bool)
    ensures
        r == starts_with(s@, prefix@),
{
    let sv = chars_of(s);
    let pv = chars_of(prefix);
    matches_at(&sv, &pv, 0)
}

/// The text of `a` followed by the text of `b`.
pub fn joined(a: &str, b: &str) -> (r: String)
    ensures
        r@ == a@ + b@,
{
    let mut r = String::from_str(a);
    r.append(b);
    r
}

/// The characters of `v` from offset `start` up to, not including, offset `end`.
pub fn slice_chars(v: &Vec<char>, start: usize, end: usize) -> (r: Vec<char>)
    requires
        start <= end <= v.len(),
    ensures
        r@ == v@.subrange(start as int, end as int),
{
    let mut r: Vec<char> = Vec::new();
    let mut i: usize = start;
    while i < end
        invariant
            start <= i <= end <= v.len(),
            r@ == v@.subrange(start as int, i as int),
        decreases end - i,
    {
        r.push(v[i]);
        assert(v@.subrange(start as int, i + 1) =~= v@.subrange(start as int, i as int).push(
            v@[i as int],
        ));
        i += 1;
    }
    r
}

/// The pieces into which the separator `sep` cuts `s`: at least one, and one more
/// than `sep` occurs in `s`.
pub open spec fn pieces(s: Seq<char>, sep: char) -> Seq<Seq<char>>
    decreases s.len(),
{
    if s.len() == 0 {
        seq![Seq::empty()]
    } else {
        let before = pieces(s.drop_last(), sep);
        if s.last() == sep {
            before.push(Seq::empty())
        } else {
            before.drop_last().push(before.last().push(s.last()))
        }
    }
}

/// The pieces into which the separator `sep` cuts `s`.
pub fn split_on(s: &str, sep: char) -> (r: Vec<String>)
    ensures
        texts_of(r@) == pieces(s@, sep),
{
    let v = chars_of(s);
    let mut done: Vec<String> = Vec::new();
    let mut current: Vec<char> = Vec::new();
    let mut i: usize = 0;
    proof {
        assert(v@.take(0) =~= Seq::<char>::empty());
        assert(texts_of(done@).push(current@) =~= pieces(v@.take(0), sep));
    }
    while i < v.len()
        invariant
            i <= v.len(),
            v@ == s@,
            texts_of(done@).push(current@) == pieces(v@.take(i as int), sep),
        decreases v.len() - i,
    {
        let c = v[i];
        proof {
            assert(v@.take(i + 1).drop_last() =~= v@.take(i as int));
            assert(v@.take(i + 1).last() == c);
        }
        let ghost before = texts_of(done@).push(current@);
        if c == sep {
            let ghost old_done = texts_of(done@);
            done.push(string_of(&current));
            current = Vec::new();
            proof {
                assert(texts_of(done@) =~= before);
                assert(texts_of(done@).push(current@) =~= before.push(Seq::<char>::empty()));
            }
        } else {
            let ghost old_current = current@;
            current.push(c);
            proof {
                assert(before.drop_last() =~= texts_of(done@));
                assert(before.last() == old_current);
                assert(texts_of(done@).push(current@) =~= before.drop_last().push(
                    before.last().push(c),
                ));
            }
        }
        i += 1;
    }
    proof {
        assert(v@.take(v.len() as int) =~= v@);
    }
    let ghost before = texts_of(done@).push(current@);
    done.push(string_of(&current));
    assert(texts_of(done@) =~= before);
    done
}

/// The views of the strings of `parts`.
pub open spec fn texts_of(parts: Seq<String>) -> Seq<Seq<char>> {
    Seq::new(parts.len(), |i: int| parts[i]@)
}

/// The texts of `parts` in order with `sep` between each two of them.
pub open spec fn joined_with(parts: Seq<Seq<char>>, sep: Seq<char>) -> Seq<char>
    decreases parts.len(),
{
    if parts.len() == 0 {
        Seq::empty()
    } else if parts.len() == 1 {
        parts[0]
    } else {
        joined_with(parts.drop_last(), sep) + sep + parts.last()
    }
}

/// The strings of `parts` in order with `sep` between each two of them.
pub fn join_with(parts: &Vec<String>, sep: &str) -> (r: String)
    ensures
        r@ == joined_with(texts_of(parts@), sep@),
{
    let mut r = String::new();
    let mut i: usize = 0;
    while i < parts.len()
        invariant
            i <= parts.len(),
            r@ == joined_with(texts_of(parts@).take(i as int), sep@),
        decreases parts.len() - i,
    {
        proof {
            let all = texts_of(parts@);
            assert(all.take(i + 1).drop_last() =~= all.take(i as int));
            assert(all.take(i + 1).last() == parts@[i as int]@);
        }
        if i > 0 {
            r.append(sep);
        }
        r.append(parts[i].as_str());
        proof {
            if i == 0 {
                assert(r@ =~= parts@[0]@);
            }
        }
        i += 1;
    }
    proof {
        assert(texts_of(parts@).take(parts.len() as int) =~= texts_of(parts@));
    }
    r
}

/// The decimal rendering of `n`.
pub fn decimal_wide(n: u64) -> (r: String)
    ensures
        r@ == decimal_digits(n as nat),
{
    let mut rev: Vec<char> = Vec::new();
    let mut rest: u64 = n;
    while rest >= 10
        invariant
            decimal_digits(n as nat) == decimal_digits(rest as nat) + rev@.reverse(),
        decreases rest,
    {
        let d: u8 = (rest % 10) as u8;
        let c: char = (48u8 + d) as char;
        proof {
            let tail = rev@.reverse();
            assert(decimal_digits(rest as nat) == decimal_digits((rest / 10) as nat).push(c));
            assert(rev@.push(c).reverse() =~= seq![c] + tail);
            assert(decimal_digits((rest / 10) as nat).push(c) + tail =~= decimal_digits(
                (rest / 10) as nat,
            ) + (seq![c] + tail));
        }
        rev.push(c);
        rest = rest / 10;
    }
    let c: char = (48u8 + (rest as u8)) as char;
    let mut out = String::new();
    out.push(c);
    let mut i: usize = rev.len();
    while i > 0
        invariant
            i <= rev.len(),
            out@ == seq![c] + rev@.reverse().take(rev.len() - i),
        decreases i,
    {
        i -= 1;
        proof {
            let r = rev@.reverse();
            let k = rev.len() - i - 1;
            assert(r[k] == rev@[i as int]);
            assert(r.take(k + 1) =~= r.take(k).push(r[k]));
            assert((seq![c] + r.take(k)).push(r[k]) =~= seq![c] + r.take(k + 1));
        }
        out.push(rev[i]);
    }
    proof {
        assert(rev@.reverse().take(rev.len() as int) =~= rev@.reverse());
        assert(decimal_digits(rest as nat) =~= seq![c]);
    }
    out
}

/// The decimal rendering of `n`, as `usize::to_string` writes it.
pub fn decimal(n: usize) -> (r: String)
    ensures
        r@ == decimal_digits(n as nat),
{
    decimal_wide(n as u64)
}

/// The decimal digits of `n` with a minus sign before them where `n` is negative.
pub open spec fn signed_digits(n: int) -> Seq<char> {
    if n < 0 {
        seq!['-'] + decimal_digits((-n) as nat)
    } else {
        decimal_digits(n as nat)
    }
}

/// The decimal rendering of `n`, as `i64::to_string` writes it.
pub fn signed_decimal(n: i64) -> (r: String)
    ensures
        r@ == signed_digits(n as int),
{
    if n < 0 {
        let magnitude: u64 = ((-(n as i128)) as u64);
        let digits = decimal_wide(magnitude);
        let mut r = String::new();
        r.push('-');
        r.append(digits.as_str());
        r
    } else {
        decimal_wide(n as u64)
    }
}

} // verus!
