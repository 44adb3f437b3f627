//! The store's wildcard patterns: how a caller's text is escaped so that it is matched
//! literally, what a pattern matches, and the proof that an escaped text between
//! wildcards matches exactly the contents in which the text occurs.
//!
//! In a pattern `%` stands for any run of characters, `_` for any one character, and
//! the escape character `\` makes the character after it literal. A literal character
//! matches without regard to the case of ASCII letters.

use vstd::prelude::*;
use crate::domain::text::{ascii_lower, chars_of, contains_text, occurs_at, starts_with, string_of};

verus! {

/// The character that makes the next pattern character literal.
pub open spec fn escape_char() -> char {
    '\\'
}

/// The characters that mean something other than themselves in a pattern.
pub open spec fn is_reserved(c: char) -> bool {
    c == '%' || c == '_' || c == escape_char()
}

/// No character of `q` is reserved.
pub open spec fn is_plain(q: Seq<char>) -> bool {
    forall|i: int| 0 <= i < q.len() ==> !is_reserved(#[trigger] q[i])
}

/// The pattern characters that stand for the single text character `c`.
pub open spec fn escaped_char(c: char) -> Seq<char> {
    if is_reserved(c) {
        seq![escape_char(), c]
    } else {
        seq![c]
    }
}

/// `q` with an escape character put before each reserved character.
pub open spec fn escaped(q: Seq<char>) -> Seq<char>
    decreases q.len(),
{
    if q.len() == 0 {
        Seq::empty()
    } else {
        escaped_char(q[0]) + escaped(q.skip(1))
    }
}

/// The pattern for "contains `q`, taken literally".
pub open spec fn contains_pattern_of(q: Seq<char>) -> Seq<char> {
    seq!['%'] + escaped(q) + seq!['%']
}

/// The pattern for "begins with `p`, taken literally".
pub open spec fn prefix_pattern_of(p: Seq<char>) -> Seq<char> {
    escaped(p) + seq!['%']
}

/// A literal pattern character matches a text character: they are the same, or they
/// are the two cases of one ASCII letter.
pub open spec fn chars_match(p: char, t: char) -> bool {
    ascii_lower(p) == ascii_lower(t)
}

/// The texts have the same length and match character by character.
pub open spec fn texts_match(a: Seq<char>, b: Seq<char>) -> bool {
    &&& a.len() == b.len()
    &&& forall|i: int| 0 <= i < a.len() ==> chars_match(#[trigger] a[i], b[i])
}

/// The pattern `p` matches the whole of the text `t`.
pub open spec fn like_matches(p: Seq<char>, t: Seq<char>) -> bool
    decreases p.len(), t.len(),
{
    if p.len() == 0 {
        t.len() == 0
    } else if p[0] == '%' {
        like_matches(p.skip(1), t) || (t.len() > 0 && like_matches(p, t.skip(1)))
    } else if t.len() == 0 {
        false
    } else if p[0] == '_' {
        like_matches(p.skip(1), t.skip(1))
    } else if p[0] == escape_char() {
        p.len() >= 2 && chars_match(p[1], t[0]) && like_matches(p.skip(2), t.skip(1))
    } else {
        chars_match(p[0], t[0]) && like_matches(p.skip(1), t.skip(1))
    }
}

/// `q` stands in `t` at offset `k` when the case of ASCII letters is disregarded.
pub open spec fn occurs_folded_at(t: Seq<char>, q: Seq<char>, k: int) -> bool {
    &&& 0 <= k
    &&& k + q.len() <= t.len()
    &&& texts_match(q, t.subrange(k, k + q.len()))
}

/// `q` stands somewhere in `t` when the case of ASCII letters is disregarded.
pub open spec fn contains_folded(t: Seq<char>, q: Seq<char>) -> bool {
    exists|k: int| occurs_folded_at(t, q, k)
}

/// The pattern `r` matches what is left of `t` after its first `k` characters.
pub open spec fn matches_from(r: Seq<char>, t: Seq<char>, k: int) -> bool {
    0 <= k <= t.len() && like_matches(r, t.skip(k))
}

/// Escaping goes character by character: what is appended to the text is appended,
/// escaped, to the pattern.
pub proof fn lemma_escaped_push(q: Seq<char>, c: char)
    ensures
        escaped(q.push(c)) == escaped(q) + escaped_char(c),
    decreases q.len(),
{
    if q.len() == 0 {
        assert(q.push(c).skip(1) =~= Seq::<char>::empty());
        assert(escaped(q.push(c).skip(1)) =~= Seq::<char>::empty());
        assert(escaped(q.push(c)) =~= escaped_char(c));
        assert(escaped(q) + escaped_char(c) =~= escaped_char(c));
    } else {
        lemma_escaped_push(q.skip(1), c);
        assert(q.push(c).skip(1) =~= q.skip(1).push(c));
        assert(q.push(c)[0] == q[0]);
        assert(escaped_char(q[0]) + (escaped(q.skip(1)) + escaped_char(c)) =~= (escaped_char(q[0])
            + escaped(q.skip(1))) + escaped_char(c));
    }
}

/// A text without reserved characters is its own escaped form.
pub proof fn lemma_escaped_plain(q: Seq<char>)
    requires
        is_plain(q),
    ensures
        escaped(q) == q,
    decreases q.len(),
{
    if q.len() == 0 {
        assert(escaped(q) =~= q);
    } else {
        assert forall|i: int| 0 <= i < q.skip(1).len() implies !is_reserved(
            #[trigger] q.skip(1)[i],
        ) by {
            assert(q.skip(1)[i] == q[i + 1]);
        }
        lemma_escaped_plain(q.skip(1));
        assert(!is_reserved(q[0]));
        assert(seq![q[0]] + q.skip(1) =~= q);
    }
}

/// The pattern `%` alone matches every text.
pub proof fn lemma_percent_matches_all(t: Seq<char>)
    ensures
        like_matches(seq!['%'], t),
    decreases t.len(),
{
    let p = seq!['%'];
    if t.len() == 0 {
        assert(p.skip(1).len() == 0);
        assert(like_matches(p.skip(1), t));
    } else {
        lemma_percent_matches_all(t.skip(1));
    }
}

/// A pattern that begins with `%` matches a text exactly when the rest of the pattern
/// matches some tail of the text.
pub proof fn lemma_like_leading_percent(r: Seq<char>, t: Seq<char>)
    ensures
        like_matches(seq!['%'] + r, t) <==> exists|k: int| matches_from(r, t, k),
    decreases t.len(),
{
    let p = seq!['%'] + r;
    assert(p.skip(1) =~= r);
    assert(p[0] == '%');
    assert(t.skip(0) =~= t);
    if t.len() == 0 {
        if like_matches(p, t) {
            assert(matches_from(r, t, 0));
        }
        if exists|k: int| matches_from(r, t, k) {
            let k = choose|k: int| matches_from(r, t, k);
            assert(k == 0);
        }
    } else {
        lemma_like_leading_percent(r, t.skip(1));
        if like_matches(p, t) {
            if like_matches(r, t) {
                assert(matches_from(r, t, 0));
            } else {
                let k_rest = choose|k: int| matches_from(r, t.skip(1), k);
                assert(t.skip(1).skip(k_rest) =~= t.skip(k_rest + 1));
                assert(matches_from(r, t, k_rest + 1));
            }
        }
        if exists|k: int| matches_from(r, t, k) {
            let k = choose|k: int| matches_from(r, t, k);
            if k == 0 {
                assert(like_matches(r, t));
            } else {
                assert(t.skip(1).skip(k - 1) =~= t.skip(k));
                assert(matches_from(r, t.skip(1), k - 1));
            }
        }
    }
}

/// An escaped text followed by a pattern `r` matches a text exactly when the text
/// begins with the escaped text's characters, case of ASCII letters disregarded, and
/// `r` matches what follows them.
pub proof fn lemma_like_escaped_head(q: Seq<char>, r: Seq<char>, t: Seq<char>)
    ensures
        like_matches(escaped(q) + r, t) <==> (q.len() <= t.len() && texts_match(
            q,
            t.take(q.len() as int),
        ) && like_matches(r, t.skip(q.len() as int))),
    decreases q.len(),
{
    let p = escaped(q) + r;
    if q.len() == 0 {
        assert(p =~= r);
        assert(t.skip(0) =~= t);
        assert(t.take(0) =~= Seq::<char>::empty());
    } else {
        let c = q[0];
        let q_rest = q.skip(1);
        let p_rest = escaped(q_rest) + r;
        assert(p =~= escaped_char(c) + p_rest);
        if t.len() == 0 {
            assert(p.len() > 0);
            assert(p[0] != '%');
        } else {
            let t_rest = t.skip(1);
            lemma_like_escaped_head(q_rest, r, t_rest);
            if is_reserved(c) {
                assert(p[0] == escape_char());
                assert(p[1] == c);
                assert(p.skip(2) =~= p_rest);
            } else {
                assert(p[0] == c);
                assert(p.skip(1) =~= p_rest);
            }
            assert(like_matches(p, t) <==> (chars_match(c, t[0]) && like_matches(p_rest, t_rest)));
            if q.len() <= t.len() {
                assert(t_rest.skip(q_rest.len() as int) =~= t.skip(q.len() as int));
                let a = t.take(q.len() as int);
                let a1 = t_rest.take(q_rest.len() as int);
                assert(a[0] == t[0]);
                assert forall|i: int| 0 <= i < q_rest.len() implies a1[i] == a[i + 1] && q_rest[i] == q[i
                    + 1] by {}
                if texts_match(q, a) {
                    assert(chars_match(q[0], a[0]));
                    assert forall|i: int| 0 <= i < q_rest.len() implies chars_match(
                        #[trigger] q_rest[i],
                        a1[i],
                    ) by {
                        assert(chars_match(q[i + 1], a[i + 1]));
                    }
                }
                if chars_match(c, t[0]) && texts_match(q_rest, a1) {
                    assert forall|i: int| 0 <= i < q.len() implies chars_match(
                        #[trigger] q[i],
                        a[i],
                    ) by {
                        if i > 0 {
                            assert(chars_match(q_rest[i - 1], a1[i - 1]));
                        }
                    }
                }
            }
        }
    }
}

/// An escaped text between two `%` matches exactly the texts in which it occurs,
/// case of ASCII letters disregarded: no character of the text acts as a wildcard.
pub proof fn lemma_contains_pattern_is_literal(q: Seq<char>, t: Seq<char>)
    ensures
        like_matches(contains_pattern_of(q), t) <==> contains_folded(t, q),
{
    let tail = escaped(q) + seq!['%'];
    assert(contains_pattern_of(q) =~= seq!['%'] + tail);
    lemma_like_leading_percent(tail, t);
    if like_matches(contains_pattern_of(q), t) {
        let k = choose|k: int| matches_from(tail, t, k);
        lemma_like_escaped_head(q, seq!['%'], t.skip(k));
        assert(t.skip(k).take(q.len() as int) =~= t.subrange(k, k + q.len()));
        assert(occurs_folded_at(t, q, k));
    }
    if contains_folded(t, q) {
        let k = choose|k: int| occurs_folded_at(t, q, k);
        lemma_like_escaped_head(q, seq!['%'], t.skip(k));
        assert(t.skip(k).take(q.len() as int) =~= t.subrange(k, k + q.len()));
        lemma_percent_matches_all(t.skip(k).skip(q.len() as int));
        assert(matches_from(tail, t, k));
    }
}

/// An escaped text followed by `%` matches exactly the texts that begin with it,
/// case of ASCII letters disregarded.
pub proof fn lemma_prefix_pattern_is_literal(p: Seq<char>, t: Seq<char>)
    ensures
        like_matches(prefix_pattern_of(p), t) <==> occurs_folded_at(t, p, 0),
{
    lemma_like_escaped_head(p, seq!['%'], t);
    lemma_percent_matches_all(t.skip(p.len() as int));
    if p.len() <= t.len() {
        assert(t.take(p.len() as int) =~= t.subrange(0, 0 + p.len() as int));
    }
}

/// An exact occurrence is also an occurrence when case is disregarded.
pub proof fn lemma_exact_occurrence_folds(t: Seq<char>, q: Seq<char>, k: int)
    requires
        occurs_at(t, q, k),
    ensures
        occurs_folded_at(t, q, k),
{
}

/// The "contains" pattern loses nothing: every content in which `q` occurs exactly is
/// matched by the pattern made from `q`.
pub proof fn lemma_contains_pattern_covers(q: Seq<char>, t: Seq<char>)
    requires
        contains_text(t, q),
    ensures
        like_matches(contains_pattern_of(q), t),
{
    let k = choose|k: int| occurs_at(t, q, k);
    lemma_exact_occurrence_folds(t, q, k);
    lemma_contains_pattern_is_literal(q, t);
}

/// The "begins with" pattern loses nothing: every text that begins with `p` exactly
/// is matched by the pattern made from `p`.
pub proof fn lemma_prefix_pattern_covers(p: Seq<char>, t: Seq<char>)
    requires
        starts_with(t, p),
    ensures
        like_matches(prefix_pattern_of(p), t),
{
    lemma_exact_occurrence_folds(t, p, 0);
    lemma_prefix_pattern_is_literal(p, t);
}

/// `q` with an escape character put before each `%`, `_` and escape character.
pub fn escape_like(q: &str) -> (r: String)
    ensures
        r@ == escaped(q@),
{
    let qv = chars_of(q);
    let mut out: Vec<char> = Vec::new();
    let mut i: usize = 0;
    proof {
        assert(qv@.take(0) =~= Seq::<char>::empty());
    }
    while i < qv.len()
        invariant
            i <= qv.len(),
            out@ == escaped(qv@.take(i as int)),
        decreases qv.len() - i,
    {
        let c = qv[i];
        proof {
            lemma_escaped_push(qv@.take(i as int), c);
            assert(qv@.take(i + 1) =~= qv@.take(i as int).push(c));
        }
        if c == '%' || c == '_' || c == '\\' {
            out.push('\\');
            out.push(c);
            assert(out@ =~= escaped(qv@.take(i as int)) + escaped_char(c));
        } else {
            out.push(c);
            assert(out@ =~= escaped(qv@.take(i as int)) + escaped_char(c));
        }
        i += 1;
    }
    proof {
        assert(qv@.take(qv.len() as int) =~= qv@);
    }
    string_of(&out)
}

/// The pattern that matches the contents in which `q` occurs literally.
pub fn contains_pattern(q: &str) -> (r: String)
    ensures
        r@ == contains_pattern_of(q@),
{
    let mut r = String::new();
    r.push('%');
    let e = escape_like(q);
    r.append(e.as_str());
    r.push('%');
    assert(r@ =~= contains_pattern_of(q@));
    r
}

/// The pattern that matches the texts that begin with `p` literally.
pub fn prefix_pattern(p: &str) -> (r: String)
    ensures
        r@ == prefix_pattern_of(p@),
{
    let mut r = escape_like(p);
    r.push('%');
    assert(r@ =~= prefix_pattern_of(p@));
    r
}

} // verus!
