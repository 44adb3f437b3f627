//! Mentions: an `@` followed by a name that ends at a word boundary.
//!
//! The store narrows the candidates with a wildcard pattern; the scan here confirms
//! each candidate character by character and discards the false positives.

use vstd::prelude::*;
use crate::domain::entity::Message;
use crate::domain::pattern::{
    contains_pattern, contains_pattern_of, lemma_contains_pattern_covers, like_matches,
};
use crate::domain::select::{keep, Criterion};
use crate::domain::text::{chars_of, contains_text, find_from, occurs_at, string_of};

verus! {

/// What `char::is_alphanumeric` answers for a character.
pub uninterp spec fn alphanumeric(c: char) -> bool;

/// An ASCII letter or digit.
pub open spec fn is_ascii_alphanumeric(c: char) -> bool {
    ('a' <= c && c <= 'z') || ('A' <= c && c <= 'Z') || ('0' <= c && c <= '9')
}

/// `char::is_alphanumeric`: whether the character is a letter or a number under the
/// Unicode rules, which is a function of the character alone. Among the ASCII
/// characters the letters and the digits are those, and no others.
pub assume_specification[ char::is_alphanumeric ](c: char) -> (r: bool)
    ensures
        r == alphanumeric(c),
        c <= '\u{7f}' ==> r == is_ascii_alphanumeric(c),
;

/// A character that continues a name: a letter, a number or an underscore. Among
/// the ASCII characters these are the letters `a` to `z` and `A` to `Z`, the digits
/// and the underscore; beyond them the Unicode rules decide.
pub open spec fn is_word_char(c: char) -> bool {
    if c <= '\u{7f}' {
        is_ascii_alphanumeric(c) || c == '_'
    } else {
        alphanumeric(c)
    }
}

/// The token that mentions `target`: an `@`, then the name.
pub open spec fn mention_token(target: Seq<char>) -> Seq<char> {
    seq!['@'] + target
}

/// `token` stands in `content` at offset `i` and what follows it, if anything, does
/// not continue a name.
pub open spec fn token_ends_at_boundary(content: Seq<char>, token: Seq<char>, i: int) -> bool {
    &&& occurs_at(content, token, i)
    &&& (i + token.len() == content.len() || !is_word_char(content[i + token.len()]))
}

/// `content` mentions `target`: somewhere in it stands `@target` with nothing after
/// it, or with a character after it that does not continue a name.
pub open spec fn has_mention(content: Seq<char>, target: Seq<char>) -> bool {
    exists|i: int| token_ends_at_boundary(content, mention_token(target), i)
}

/// The messages whose content mentions `target`.
pub open spec fn mentions_name(target: Seq<char>) -> spec_fn(Message) -> bool {
    |m: Message| has_mention(m.content@, target)
}

/// The wildcard pattern with which the store narrows the candidates for `target`.
pub open spec fn mention_pattern_of(target: Seq<char>) -> Seq<char> {
    contains_pattern_of(mention_token(target))
}

/// The store's pattern loses no mention: a content that mentions `target` is matched
/// by the pattern made for `target`.
pub proof fn lemma_mention_pattern_covers(content: Seq<char>, target: Seq<char>)
    requires
        has_mention(content, target),
    ensures
        like_matches(mention_pattern_of(target), content),
{
    let i = choose|i: int| token_ends_at_boundary(content, mention_token(target), i);
    assert(occurs_at(content, mention_token(target), i));
    assert(contains_text(content, mention_token(target)));
    lemma_contains_pattern_covers(mention_token(target), content);
}

/// The characters of the token that mentions `target`.
pub fn token_chars(target: &str) -> (token: Vec<char>)
    ensures
        token@ == mention_token(target@),
{
    let t = chars_of(target);
    let mut token: Vec<char> = Vec::new();
    token.push('@');
    let mut i: usize = 0;
    while i < t.len()
        invariant
            i <= t.len(),
            token@ == seq!['@'] + t@.take(i as int),
        decreases t.len() - i,
    {
        token.push(t[i]);
        assert(t@.take(i + 1) =~= t@.take(i as int).push(t@[i as int]));
        assert(token@ =~= seq!['@'] + t@.take(i + 1));
        i += 1;
    }
    assert(t@.take(t.len() as int) =~= t@);
    token
}

/// The wildcard pattern with which the store narrows the candidates for `target`.
pub fn mention_pattern(target: &str) -> (r: String)
    ensures
        r@ == mention_pattern_of(target@),
{
    let token = token_chars(target);
    let token_text = string_of(&token);
    contains_pattern(token_text.as_str())
}

/// Whether `token` stands somewhere in `content` with a word boundary after it.
pub fn token_at_boundary(content: &Vec<char>, token: &Vec<char>) -> (r: bool)
    ensures
        r == exists|i: int| token_ends_at_boundary(content@, token@, i),
{
    let mut start: usize = 0;
    loop
        invariant
            start <= content.len(),
            forall|j: int| 0 <= j < start ==> !token_ends_at_boundary(content@, token@, j),
        decreases content.len() - start,
    {
        match find_from(content, token, start) {
            None => {
                assert forall|j: int| !token_ends_at_boundary(content@, token@, j) by {
                    if j >= start {
                        assert(!occurs_at(content@, token@, j));
                    }
                }
                return false;
            },
            Some(pos) => {
                let end: usize = pos + token.len();
                if end >= content.len() {
                    assert(token_ends_at_boundary(content@, token@, pos as int));
                    return true;
                }
                let next = content[end];
                if !next.is_alphanumeric() && next != '_' {
                    assert(token_ends_at_boundary(content@, token@, pos as int));
                    return true;
                }
                assert(!token_ends_at_boundary(content@, token@, pos as int));
                start = pos + 1;
            },
        }
    }
}

/// Whether `content` mentions `target`: `@target` with nothing after it, or with a
/// character after it that is neither a letter, a number nor an underscore.
pub fn mentions(content: &str, target: &str) -> (r: bool)
    ensures
        r == has_mention(content@, target@),
{
    let c = chars_of(content);
    let token = token_chars(target);
    token_at_boundary(&c, &token)
}

/// The condition "the content mentions the name behind `token`".
pub struct MentionOf {
    /// The `@` and the name.
    pub token: Vec<char>,
}

impl Criterion<Message> for MentionOf {
    open spec fn accepts(&self) -> spec_fn(Message) -> bool {
        |m: Message| exists|i: int| token_ends_at_boundary(m.content@, self.token@, i)
    }

    fn test(&self, item: &Message) -> (r: bool) {
        let content = chars_of(item.content.as_str());
        token_at_boundary(&content, &self.token)
    }
}

/// The messages among `messages` whose content mentions `target`, in their order.
pub fn filter_mention_boundary(messages: Vec<Message>, target: &str) -> (kept: Vec<Message>)
    ensures
        kept@ == messages@.filter(mentions_name(target@)),
{
    let criterion = MentionOf { token: token_chars(target) };
    proof {
        assert(criterion.accepts() =~= mentions_name(target@));
    }
    keep(messages, &criterion)
}

} // verus!
