//! Turning fetched HTML into the Markdown that is stored.
//!
//! The renderer walks the parsed document by recursion, one round for each level
//! of nesting, and sets no limit to it, so a document that nests deeply enough
//! exhausts the stack. How deep a text nests once parsed is the parser's to say,
//! which closes and reopens elements by rules of its own. What can be read off the
//! text is a bound: every element of the parsed document comes of an opening tag
//! of the text, a `<` that a letter follows, but for the three that every document
//! has and the two that a table puts around a cell. A document is rendered only
//! where it has no more opening tags than a thread's stack of two mebibytes takes
//! when every one of them opens a new level, with half as many again to spare for
//! the deepest kind, a table in a cell of a table; a larger one is stored as it
//! came.

use vstd::prelude::*;
use crate::domain::text::chars_of;

verus! {

/// The largest number of opening tags of a document that is rendered.
pub const MAX_OPENING_TAGS: usize = 160;

/// An ASCII letter.
pub open spec fn is_ascii_letter(c: char) -> bool {
    ('a' <= c && c <= 'z') || ('A' <= c && c <= 'Z')
}

/// An opening tag begins at place `i` of `s`: a `<` that a letter follows.
pub open spec fn opens_tag(s: Seq<char>, i: int) -> bool {
    0 <= i && i + 1 < s.len() && s[i] == '<' && is_ascii_letter(s[i + 1])
}

/// The number of opening tags that begin in the first `n` places of `s`.
pub open spec fn opening_tags_before(s: Seq<char>, n: nat) -> nat
    decreases n,
{
    if n == 0 {
        0
    } else {
        opening_tags_before(s, (n - 1) as nat) + if opens_tag(s, n - 1) {
            1nat
        } else {
            0nat
        }
    }
}

/// The number of opening tags of `s`.
pub open spec fn opening_tags(s: Seq<char>) -> nat {
    opening_tags_before(s, s.len())
}

/// Whether `c` is an ASCII letter.
pub fn ascii_letter(c: char) -> (r: bool)
    ensures
        r == is_ascii_letter(c),
{
    ('a' <= c && c <= 'z') || ('A' <= c && c <= 'Z')
}

/// The number of opening tags of `html`.
pub fn count_opening_tags(html: &str) -> (n: usize)
    ensures
        n == opening_tags(html@),
{
    let v = chars_of(html);
    let mut n: usize = 0;
    let mut i: usize = 0;
    while i < v.len()
        invariant
            i <= v@.len(),
            v@ == html@,
            n == opening_tags_before(v@, i as nat),
            n <= i,
        decreases v@.len() - i,
    {
        if v[i] == '<' && i + 1 < v.len() && ascii_letter(v[i + 1]) {
            n += 1;
        }
        i += 1;
    }
    n
}

/// What htmd makes of an HTML document; `None` where it gives up on the document.
pub uninterp spec fn markdown_of(html: Seq<char>) -> Option<Seq<char>>;

/// `htmd::convert`: the Markdown rendering of an HTML document, which is a function
/// of the document alone; `None` where htmd reports a failure. htmd walks the
/// parsed document by recursion without a limit of its own, so only a document of
/// few opening tags, and by that of little nesting, may be handed to it.
///
/// Of the places where htmd's walker and handlers would stop the program, none is
/// reached from a text: the parser of HTML makes no processing instruction, which
/// is the one kind of node that the walker refuses; two neighbours are joined only
/// after both were seen to hold one text and nothing else, which is what the
/// joining then unwraps; a code element takes its parent only after the parent
/// was seen to be a `pre`; and the widths of a table are as many as its longest
/// row or its headers have cells.
#[verifier::external_body]
pub(crate) fn convert_html(html: &str) -> (r: Option<String>)
    requires
        opening_tags(html@) <= MAX_OPENING_TAGS,
    ensures
        match r {
            Some(md) => markdown_of(html@) == Some(md@),
            None => markdown_of(html@) is None,
        },
{
    htmd::convert(html).ok()
}

/// The text that is stored for a document: its Markdown rendering where it has no
/// more than `MAX_OPENING_TAGS` opening tags and can be rendered, the document
/// itself otherwise.
pub open spec fn stored_rendering(html: Seq<char>) -> Seq<char> {
    if opening_tags(html) <= MAX_OPENING_TAGS {
        match markdown_of(html) {
            Some(md) => md,
            None => html,
        }
    } else {
        html
    }
}

/// The Markdown rendering of `html`, or `html` itself where it has too many
/// opening tags to be rendered safely or cannot be rendered.
pub fn html_to_markdown(html: &str) -> (r: String)
    ensures
        r@ == stored_rendering(html@),
{
    if count_opening_tags(html) > MAX_OPENING_TAGS {
        return String::from_str(html);
    }
    match convert_html(html) {
        Some(md) => md,
        None => String::from_str(html),
    }
}

} // verus!
