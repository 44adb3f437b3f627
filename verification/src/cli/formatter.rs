//! How messages and threads are written for a reader: one line each, with long
//! content cut short or reduced to the surroundings of a match.

use vstd::prelude::*;
use crate::domain::entity::{Message, MessageView, Thread, ThreadView};
use crate::domain::ident::{short_id, shorten_id};
use crate::domain::instant::local_text;
use crate::domain::text::{
    chars_of, decimal, decimal_digits, join_with, joined_with, lowercase, lowercase_of,
    matches_at, occurs_at, slice_chars, starts_with, string_of, texts_of,
};

verus! {

/// The number of characters after which content is cut short.
pub const TRUNCATE_LEN: usize = 100;

/// The number of characters shown on each side of a match.
pub const SNIPPET_CONTEXT: usize = 50;

/// The mark that stands for text left out.
pub open spec fn ellipsis() -> Seq<char> {
    seq!['…']
}

/// `s` where it has at most `max` characters; its first `max` characters and the
/// mark of omission otherwise.
pub open spec fn truncated(s: Seq<char>, max: nat) -> Seq<char> {
    if s.len() <= max {
        s
    } else {
        s.take(max as int) + ellipsis()
    }
}

/// Where the shown part of a text of `total` characters ends, for a match of
/// `width` characters at `pos`.
pub open spec fn window_end(total: nat, pos: nat, width: nat, context: nat) -> nat {
    if pos + width + context < total {
        pos + width + context
    } else {
        total
    }
}

/// Where the shown part begins.
pub open spec fn window_start(total: nat, pos: nat, width: nat, context: nat) -> nat {
    let begin = if pos >= context {
        (pos - context) as nat
    } else {
        0
    };
    if begin <= window_end(total, pos, width, context) {
        begin
    } else {
        window_end(total, pos, width, context)
    }
}

/// The surroundings of a match of `width` characters at `pos` in `s`: `context`
/// characters on each side as far as `s` reaches, with the mark of omission on each
/// side where `s` goes on.
pub open spec fn snippet_at(s: Seq<char>, pos: nat, width: nat, context: nat) -> Seq<char> {
    let start = window_start(s.len(), pos, width, context);
    let end = window_end(s.len(), pos, width, context);
    (if start > 0 {
        ellipsis()
    } else {
        Seq::empty()
    }) + s.subrange(start as int, end as int) + (if end < s.len() {
        ellipsis()
    } else {
        Seq::empty()
    })
}

/// `s` in lower case, character by character: each character gives what lowering
/// it alone gives, which may be more than one character.
pub open spec fn folded(s: Seq<char>) -> Seq<char>
    decreases s.len(),
{
    if s.len() == 0 {
        Seq::empty()
    } else {
        folded(s.drop_last()) + lowercase_of(seq![s.last()])
    }
}

/// `query` stands at the place `p` of `s`, both taken in lower case: what follows
/// in `s` from `p` on begins with `query`.
pub open spec fn stands_at_place(s: Seq<char>, query: Seq<char>, p: int) -> bool {
    0 <= p <= s.len() && starts_with(folded(s.skip(p)), folded(query))
}

/// `p` is the first place of `s` at which `query` stands.
pub open spec fn is_first_place(s: Seq<char>, query: Seq<char>, p: int) -> bool {
    stands_at_place(s, query, p) && forall|j: int| 0 <= j < p ==> !stands_at_place(s, query, j)
}

/// `snippet` is what is shown of `s` for `query`: the surroundings of the first
/// place of `s` at which `query` stands, both taken in lower case, or `s` cut short
/// as a line is where `query` stands nowhere.
pub open spec fn is_snippet_of(
    snippet: Seq<char>,
    s: Seq<char>,
    query: Seq<char>,
    context: nat,
) -> bool {
    if exists|p: int| stands_at_place(s, query, p) {
        exists|p: int| #[trigger]
            is_first_place(s, query, p) && snippet == snippet_at(
                s,
                p as nat,
                query.len(),
                context,
            )
    } else {
        snippet == truncated(s, TRUNCATE_LEN as nat)
    }
}

/// Lowering character by character goes through a text piece by piece.
pub proof fn lemma_folded_concat(a: Seq<char>, b: Seq<char>)
    ensures
        folded(a + b) == folded(a) + folded(b),
    decreases b.len(),
{
    if b.len() == 0 {
        assert(a + b =~= a);
        assert(folded(a) + folded(b) =~= folded(a));
    } else {
        lemma_folded_concat(a, b.drop_last());
        assert((a + b).drop_last() =~= a + b.drop_last());
        assert((a + b).last() == b.last());
        assert(folded(a + b) =~= folded(a) + folded(b));
    }
}

/// `query` stands at the place `p` of `s` exactly when its lower case stands in the
/// lower case of `s` where the lower case of the first `p` characters ends.
pub proof fn lemma_place_in_folded(s: Seq<char>, query: Seq<char>, p: int)
    requires
        0 <= p <= s.len(),
    ensures
        stands_at_place(s, query, p) == occurs_at(
            folded(s),
            folded(query),
            folded(s.take(p)).len() as int,
        ),
{
    let head = folded(s.take(p));
    let rest = folded(s.skip(p));
    let needle = folded(query);
    lemma_folded_concat(s.take(p), s.skip(p));
    assert(s.take(p) + s.skip(p) =~= s);
    assert(folded(s) == head + rest);
    if needle.len() <= rest.len() {
        assert(folded(s).subrange(head.len() as int, (head.len() + needle.len()) as int)
            =~= rest.subrange(0, needle.len() as int));
    }
}

/// The lower case of `v`, character by character, and for each place of `v`, and
/// for its end, how many characters the lower case of what stands before it has.
pub fn fold_chars(v: &Vec<char>) -> (r: (Vec<char>, Vec<usize>))
    ensures
        r.0@ == folded(v@),
        r.1@.len() == v@.len() + 1,
        forall|p: int| 0 <= p <= v@.len() ==> (#[trigger] r.1@[p]) == folded(v@.take(p)).len(),
{
    let mut low: Vec<char> = Vec::new();
    let mut ends: Vec<usize> = Vec::new();
    let mut i: usize = 0;
    while i < v.len()
        invariant
            i <= v@.len(),
            low@ == folded(v@.take(i as int)),
            ends@.len() == i,
            forall|p: int| 0 <= p < i ==> (#[trigger] ends@[p]) == folded(v@.take(p)).len(),
        decreases v@.len() - i,
    {
        ends.push(low.len());
        let mut one = String::new();
        one.push(v[i]);
        let lowered = lowercase(one.as_str());
        let added = chars_of(lowered.as_str());
        let ghost before = low@;
        let mut k: usize = 0;
        while k < added.len()
            invariant
                k <= added@.len(),
                low@ == before + added@.take(k as int),
            decreases added@.len() - k,
        {
            low.push(added[k]);
            proof {
                assert(added@.take(k + 1) =~= added@.take(k as int).push(added@[k as int]));
                assert(low@ =~= before + added@.take(k + 1));
            }
            k += 1;
        }
        proof {
            assert(added@.take(added@.len() as int) =~= added@);
            assert(one@ =~= seq![v@[i as int]]);
            assert(v@.take(i + 1).drop_last() =~= v@.take(i as int));
            assert(v@.take(i + 1).last() == v@[i as int]);
        }
        i += 1;
    }
    ends.push(low.len());
    proof {
        assert(v@.take(v@.len() as int) =~= v@);
    }
    (low, ends)
}

/// The text, or a dash where there is none.
pub open spec fn or_dash(o: Option<Seq<char>>) -> Seq<char> {
    match o {
        Some(s) => s,
        None => "-"@,
    }
}

/// The provenance tag in brackets after a space, or nothing where there is none.
pub open spec fn source_tag(o: Option<Seq<char>>) -> Seq<char> {
    match o {
        Some(s) => " ["@ + s + "]"@,
        None => Seq::empty(),
    }
}

/// The line for a message: `[time] id (role) sender [source]: content`.
pub open spec fn message_line(m: MessageView, content: Seq<char>, time: Seq<char>) -> Seq<char> {
    "["@ + time + "] "@ + short_id(m.id) + " ("@ + m.role.text() + ") "@ + or_dash(m.sender)
        + source_tag(m.source) + ": "@ + content
}

/// `line` is the line for `m` under some text of its time: with all of its content
/// where `full` is set, with the content cut short otherwise.
pub open spec fn is_line_of(line: Seq<char>, m: MessageView, full: bool) -> bool {
    exists|time: Seq<char>| line == #[trigger] message_line(m, shown_content(m, full), time)
}

/// The content that a line shows: all of it where `full` is set, cut short
/// otherwise.
pub open spec fn shown_content(m: MessageView, full: bool) -> Seq<char> {
    if full {
        m.content
    } else {
        truncated(m.content, TRUNCATE_LEN as nat)
    }
}

/// `line` is the line for `m` as found for `query`: with all of its content where
/// `full` is set, with the surroundings of the match otherwise.
pub open spec fn is_search_line_of(
    line: Seq<char>,
    m: MessageView,
    query: Seq<char>,
    full: bool,
) -> bool {
    exists|time: Seq<char>, content: Seq<char>|
        line == #[trigger] message_line(m, content, time) && (if full {
            content == m.content
        } else {
            is_snippet_of(content, m.content, query, SNIPPET_CONTEXT as nat)
        })
}

/// `line` is the line for `t` under some text of its time.
pub open spec fn is_thread_line_of(line: Seq<char>, t: ThreadView, full: bool) -> bool {
    exists|time: Seq<char>| line == #[trigger] thread_line(t, full, time)
}

/// The line for a thread: identifier, name, title and time, separated by tabs.
pub open spec fn thread_line(t: ThreadView, full: bool, time: Seq<char>) -> Seq<char> {
    (if full {
        t.id
    } else {
        short_id(t.id)
    }) + "\t"@ + or_dash(t.name) + "\t"@ + t.title + "\t"@ + time
}

/// `s` where it has at most `max` characters; its first `max` characters and `…`
/// otherwise.
pub fn truncate_content(s: &str, max: usize) -> (r: String)
    ensures
        r@ == truncated(s@, max as nat),
{
    let v = chars_of(s);
    if v.len() <= max {
        return String::from_str(s);
    }
    let head = slice_chars(&v, 0, max);
    let mut r = string_of(&head);
    r.push('…');
    assert(r@ =~= truncated(s@, max as nat));
    r
}

/// The surroundings of the first place at which `query` stands in `s`, both taken
/// in lower case: `context` characters on each side. Where `query` stands nowhere,
/// `s` cut short as a line is.
pub fn snippet_around(s: &str, query: &str, context: usize) -> (r: String)
    ensures
        is_snippet_of(r@, s@, query@, context as nat),
{
    let chars = chars_of(s);
    let query_chars = chars_of(query);
    let (low, ends) = fold_chars(&chars);
    let (needle, _) = fold_chars(&query_chars);
    let mut place: usize = 0;
    let mut found = false;
    let mut done = false;
    while !found && !done
        invariant
            place <= chars@.len(),
            chars@ == s@,
            query_chars@ == query@,
            low@ == folded(s@),
            needle@ == folded(query@),
            ends@.len() == s@.len() + 1,
            forall|p: int| 0 <= p <= s@.len() ==> (#[trigger] ends@[p]) == folded(s@.take(p)).len(),
            found ==> stands_at_place(s@, query@, place as int),
            done ==> !found && !stands_at_place(s@, query@, place as int) && place == s@.len(),
            forall|j: int| 0 <= j < place ==> !stands_at_place(s@, query@, j),
        decreases chars@.len() - place + (if found || done { 0int } else { 1int }),
    {
        proof {
            lemma_place_in_folded(s@, query@, place as int);
        }
        if matches_at(&low, &needle, ends[place]) {
            found = true;
        } else if place < chars.len() {
            place += 1;
        } else {
            done = true;
        }
    }
    if !found {
        return truncate_content(s, TRUNCATE_LEN);
    }
    let pos = place;
    assert(is_first_place(s@, query@, pos as int));
    let total = chars.len();
    let width = query_chars.len();
    let reach = pos.saturating_add(width).saturating_add(context);
    let end = if reach < total {
        reach
    } else {
        total
    };
    let begin = pos.saturating_sub(context);
    let start = if begin <= end {
        begin
    } else {
        end
    };
    let shown = slice_chars(&chars, start, end);
    let mut r = String::new();
    if start > 0 {
        r.push('…');
    }
    let middle = string_of(&shown);
    r.append(middle.as_str());
    if end < total {
        r.push('…');
    }
    assert(r@ =~= snippet_at(s@, pos as nat, query@.len(), context as nat));
    r
}

/// The line for `msg` with `content` in place of its content and `time` as the
/// text of its creation.
pub fn format_message_with_content(msg: &Message, content: &str, time: &str) -> (r: String)
    ensures
        r@ == message_line(msg@, content@, time@),
{
    let mut r = String::from_str("[");
    r.append(time);
    r.append("] ");
    let id = shorten_id(msg.id.as_str());
    r.append(id.as_str());
    r.append(" (");
    r.append(msg.role.as_str());
    r.append(") ");
    match &msg.sender {
        Some(s) => r.append(s.as_str()),
        None => r.append("-"),
    }
    match &msg.source {
        Some(s) => {
            let mut tag = String::from_str(" [");
            tag.append(s.as_str());
            tag.append("]");
            r.append(tag.as_str());
        },
        None => {
            assert(r@ + Seq::<char>::empty() =~= r@);
        },
    }
    r.append(": ");
    r.append(content);
    r
}

/// The line for `msg` with all of its content.
pub fn format_message_text(msg: &Message) -> (r: String)
    ensures
        is_line_of(r@, msg@, true),
{
    let time = local_text(&msg.created_at);
    let r = format_message_with_content(msg, msg.content.as_str(), time.as_str());
    assert(r@ == message_line(msg@, shown_content(msg@, true), time@));
    r
}

/// The line for `msg` with its content cut short.
pub fn format_message_truncated(msg: &Message) -> (r: String)
    ensures
        is_line_of(r@, msg@, false),
{
    let time = local_text(&msg.created_at);
    let content = truncate_content(msg.content.as_str(), TRUNCATE_LEN);
    let r = format_message_with_content(msg, content.as_str(), time.as_str());
    assert(r@ == message_line(msg@, shown_content(msg@, false), time@));
    r
}

/// The line for `msg` with the surroundings of `query` in place of its content.
pub fn format_message_snippet(msg: &Message, query: &str) -> (r: String)
    ensures
        is_search_line_of(r@, msg@, query@, false),
{
    let time = local_text(&msg.created_at);
    let content = snippet_around(msg.content.as_str(), query, SNIPPET_CONTEXT);
    let r = format_message_with_content(msg, content.as_str(), time.as_str());
    assert(r@ == message_line(msg@, content@, time@));
    r
}

/// The lines of `messages`, one under the other: with all of the content where
/// `full` is set, with the content cut short otherwise.
pub fn format_messages_text(messages: &[Message], full: bool) -> (r: String)
    ensures
        exists|lines: Seq<Seq<char>>|
            {
                &&& lines.len() == messages@.len()
                &&& forall|i: int|
                    0 <= i < lines.len() ==> is_line_of(#[trigger] lines[i], messages@[i]@, full)
                &&& r@ == #[trigger] joined_with(lines, "\n"@)
            },
{
    let mut lines: Vec<String> = Vec::new();
    let mut i: usize = 0;
    while i < messages.len()
        invariant
            i <= messages@.len(),
            lines@.len() == i,
            forall|k: int| 0 <= k < i ==> is_line_of((#[trigger] lines@[k])@, messages@[k]@, full),
        decreases messages@.len() - i,
    {
        let line = if full {
            format_message_text(&messages[i])
        } else {
            format_message_truncated(&messages[i])
        };
        lines.push(line);
        i += 1;
    }
    let r = join_with(&lines, "\n");
    proof {
        let texts = texts_of(lines@);
        assert forall|k: int| 0 <= k < texts.len() implies is_line_of(
            #[trigger] texts[k],
            messages@[k]@,
            full,
        ) by {
            assert(texts[k] == lines@[k]@);
        }
        assert(r@ == joined_with(texts, "\n"@));
    }
    r
}

/// The lines of `messages` found for `query`, one under the other: with all of the
/// content where `full` is set, with the surroundings of the match otherwise.
pub fn format_messages_search(messages: &[Message], query: &str, full: bool) -> (r: String)
    ensures
        exists|lines: Seq<Seq<char>>|
            {
                &&& lines.len() == messages@.len()
                &&& forall|i: int|
                    0 <= i < lines.len() ==> is_search_line_of(
                        #[trigger] lines[i],
                        messages@[i]@,
                        query@,
                        full,
                    )
                &&& r@ == #[trigger] joined_with(lines, "\n"@)
            },
{
    let mut lines: Vec<String> = Vec::new();
    let mut i: usize = 0;
    while i < messages.len()
        invariant
            i <= messages@.len(),
            lines@.len() == i,
            forall|k: int|
                0 <= k < i ==> is_search_line_of(
                    (#[trigger] lines@[k])@,
                    messages@[k]@,
                    query@,
                    full,
                ),
        decreases messages@.len() - i,
    {
        let line = if full {
            let l = format_message_text(&messages[i]);
            proof {
                let m = messages@[i as int]@;
                let time = choose|time: Seq<char>|
                    l@ == #[trigger] message_line(m, shown_content(m, true), time);
                assert(l@ == message_line(m, m.content, time));
            }
            l
        } else {
            format_message_snippet(&messages[i], query)
        };
        lines.push(line);
        i += 1;
    }
    let r = join_with(&lines, "\n");
    proof {
        let texts = texts_of(lines@);
        assert forall|k: int| 0 <= k < texts.len() implies is_search_line_of(
            #[trigger] texts[k],
            messages@[k]@,
            query@,
            full,
        ) by {
            assert(texts[k] == lines@[k]@);
        }
        assert(r@ == joined_with(texts, "\n"@));
    }
    r
}

/// The line for `thread` with `time` as the text of its last update.
pub fn format_thread_with_time(thread: &Thread, full: bool, time: &str) -> (r: String)
    ensures
        r@ == thread_line(thread@, full, time@),
{
    let mut r = if full {
        thread.id.clone()
    } else {
        shorten_id(thread.id.as_str())
    };
    r.append("\t");
    match &thread.name {
        Some(n) => r.append(n.as_str()),
        None => r.append("-"),
    }
    r.append("\t");
    r.append(thread.title.as_str());
    r.append("\t");
    r.append(time);
    r
}

/// The line for `thread`: with its whole identifier where `full` is set, with the
/// short one otherwise.
pub fn format_thread_text(thread: &Thread, full: bool) -> (r: String)
    ensures
        is_thread_line_of(r@, thread@, full),
{
    let time = local_text(&thread.updated_at);
    format_thread_with_time(thread, full, time.as_str())
}

/// The lines of `threads`, one under the other.
pub fn format_threads_text(threads: &[Thread], full: bool) -> (r: String)
    ensures
        exists|lines: Seq<Seq<char>>|
            {
                &&& lines.len() == threads@.len()
                &&& forall|i: int|
                    0 <= i < lines.len() ==> is_thread_line_of(
                        #[trigger] lines[i],
                        threads@[i]@,
                        full,
                    )
                &&& r@ == #[trigger] joined_with(lines, "\n"@)
            },
{
    let mut lines: Vec<String> = Vec::new();
    let mut i: usize = 0;
    while i < threads.len()
        invariant
            i <= threads@.len(),
            lines@.len() == i,
            forall|k: int|
                0 <= k < i ==> is_thread_line_of((#[trigger] lines@[k])@, threads@[k]@, full),
        decreases threads@.len() - i,
    {
        lines.push(format_thread_text(&threads[i], full));
        i += 1;
    }
    let r = join_with(&lines, "\n");
    proof {
        let texts = texts_of(lines@);
        assert forall|k: int| 0 <= k < texts.len() implies is_thread_line_of(
            #[trigger] texts[k],
            threads@[k]@,
            full,
        ) by {
            assert(texts[k] == lines@[k]@);
        }
        assert(r@ == joined_with(texts, "\n"@));
    }
    r
}

/// What is printed for a message that was posted: its identifier.
pub fn format_message_posted(msg: &Message) -> (r: String)
    ensures
        r@ == msg.id@,
{
    msg.id.clone()
}

/// The content of some message of `messages` is longer than a line shows.
pub open spec fn some_content_exceeds(messages: Seq<Message>, max: nat) -> bool {
    exists|i: int| 0 <= i < messages.len() && (#[trigger] messages[i]).content@.len() > max
}

/// Whether the content of some message would be cut short on its line.
pub fn any_content_truncated(messages: &[Message]) -> (r: bool)
    ensures
        r == some_content_exceeds(messages@, TRUNCATE_LEN as nat),
{
    let mut i: usize = 0;
    while i < messages.len()
        invariant
            i <= messages@.len(),
            forall|k: int| 0 <= k < i ==> (#[trigger] messages@[k]).content@.len() <= TRUNCATE_LEN,
        decreases messages@.len() - i,
    {
        let n = messages[i].content.as_str().unicode_len();
        if n > TRUNCATE_LEN {
            return true;
        }
        i += 1;
    }
    false
}

/// The note that tells `name` how many messages mention them.
pub open spec fn mention_note(name: Seq<char>, count: nat) -> Seq<char> {
    "@"@ + name + ": "@ + decimal_digits(count) + " mention(s)"@
}

/// The note that tells `name` how many messages mention them.
pub fn format_mention_notification(name: &str, count: usize) -> (r: String)
    ensures
        r@ == mention_note(name@, count as nat),
{
    let mut r = String::from_str("@");
    r.append(name);
    r.append(": ");
    let n = decimal(count);
    r.append(n.as_str());
    r.append(" mention(s)");
    r
}

} // verus!
