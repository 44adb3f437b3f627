//! Resolving a short identifier: a prefix names a record when exactly one stored
//! identifier begins with it.

use vstd::prelude::*;
use crate::domain::error::DomainError;
use crate::domain::select::{keep, Criterion};
use crate::domain::text::{chars_of, matches_at, starts_with};

verus! {

/// The kind of record that an identifier names.
#[derive(Debug, Clone, Copy, PartialEq, Eq, Structural)]
pub enum RecordKind {
    Thread,
    Message,
}

/// The identifiers among `ids` that begin with `prefix`, compared case-sensitively,
/// in their order.
pub open spec fn with_prefix(ids: Seq<String>, prefix: Seq<char>) -> Seq<String> {
    ids.filter(begins_with(prefix))
}

/// The identifiers that begin with `prefix`.
pub open spec fn begins_with(prefix: Seq<char>) -> spec_fn(String) -> bool {
    |id: String| starts_with(id@, prefix)
}

/// `e` says that no record of `kind` is named by `prefix`.
pub open spec fn is_not_found(e: DomainError, kind: RecordKind, prefix: Seq<char>) -> bool {
    match kind {
        RecordKind::Thread => e matches DomainError::ThreadNotFound(p) && p@ == prefix,
        RecordKind::Message => e matches DomainError::MessageNotFound(p) && p@ == prefix,
    }
}

/// `e` says that `prefix` names `count` records.
pub open spec fn is_ambiguous(e: DomainError, prefix: Seq<char>, count: nat) -> bool {
    e matches DomainError::AmbiguousShortId(p, n) && p@ == prefix && n == count
}

/// `r` is what resolving `prefix` among `ids` answers: the one identifier that
/// begins with it; with none, the not-found error of `kind`; with more than one,
/// the ambiguity error with their number.
pub open spec fn is_resolved_among(
    r: Result<String, DomainError>,
    ids: Seq<String>,
    prefix: Seq<char>,
    kind: RecordKind,
) -> bool {
    match r {
        Ok(id) => with_prefix(ids, prefix).len() == 1 && id == with_prefix(ids, prefix)[0],
        Err(e) => if with_prefix(ids, prefix).len() == 0 {
            is_not_found(e, kind, prefix)
        } else {
            with_prefix(ids, prefix).len() > 1 && is_ambiguous(
                e,
                prefix,
                with_prefix(ids, prefix).len(),
            )
        },
    }
}

/// The error for an identifier that names no record of `kind`.
pub fn not_found(kind: RecordKind, id: &str) -> (e: DomainError)
    ensures
        is_not_found(e, kind, id@),
{
    match kind {
        RecordKind::Thread => DomainError::ThreadNotFound(String::from_str(id)),
        RecordKind::Message => DomainError::MessageNotFound(String::from_str(id)),
    }
}

/// The condition "the identifier begins with `prefix`".
pub struct BeginsWith {
    pub prefix: Vec<char>,
}

impl Criterion<String> for BeginsWith {
    open spec fn accepts(&self) -> spec_fn(String) -> bool {
        begins_with(self.prefix@)
    }

    fn test(&self, item: &String) -> (r: bool) {
        let id = chars_of(item.as_str());
        matches_at(&id, &self.prefix, 0)
    }
}

/// The identifiers among `ids` that begin with `prefix`, in their order.
pub fn keep_with_prefix(ids: Vec<String>, prefix: &str) -> (kept: Vec<String>)
    ensures
        kept@ == with_prefix(ids@, prefix@),
{
    let criterion = BeginsWith { prefix: chars_of(prefix) };
    keep(ids, &criterion)
}

/// The one identifier among `ids` that begins with `prefix`.
///
/// With no such identifier the result is the not-found error of `kind` for `prefix`;
/// with more than one it is the ambiguity error with their number. A prefix that is
/// a whole identifier is the case of one match, unless a longer identifier begins
/// with it too.
pub fn resolve_among(ids: Vec<String>, prefix: &str, kind: RecordKind) -> (r: Result<
    String,
    DomainError,
>)
    ensures
        is_resolved_among(r, ids@, prefix@, kind),
{
    let mut kept = keep_with_prefix(ids, prefix);
    let n = kept.len();
    if n == 0 {
        Err(not_found(kind, prefix))
    } else if n == 1 {
        let id = kept.pop().unwrap();
        Ok(id)
    } else {
        Err(DomainError::AmbiguousShortId(String::from_str(prefix), n))
    }
}

/// One matching record resolves to it: when exactly one identifier begins with the
/// prefix, that identifier is the only possible success and no error is possible.
pub proof fn lemma_single_match_resolves(ids: Seq<String>, prefix: Seq<char>, i: int)
    requires
        0 <= i < ids.len(),
        starts_with(ids[i]@, prefix),
        forall|j: int| 0 <= j < ids.len() && j != i ==> !starts_with((#[trigger] ids[j])@, prefix),
    ensures
        with_prefix(ids, prefix) == seq![ids[i]],
    decreases ids.len(),
{
    let pred = begins_with(prefix);
    reveal(Seq::filter);
    let front = ids.drop_last();
    if i == ids.len() - 1 {
        assert forall|k: int| 0 <= k < front.len() implies !pred(#[trigger] front[k]) by {
            assert(front[k] == ids[k]);
        }
        front.lemma_all_neg_filter_empty(pred);
        assert(ids.filter(pred) =~= seq![ids[i]]);
    } else {
        assert(front[i] == ids[i]);
        assert forall|j: int| 0 <= j < front.len() && j != i implies !starts_with(
            (#[trigger] front[j])@,
            prefix,
        ) by {
            assert(front[j] == ids[j]);
        }
        lemma_single_match_resolves(front, prefix, i);
        assert(!pred(ids.last()));
        assert(ids.filter(pred) =~= seq![ids[i]]);
    }
}

/// No identifier after the first `n` begins with the prefix: the rest adds nothing.
proof fn lemma_rest_adds_nothing(ids: Seq<String>, prefix: Seq<char>, n: int)
    requires
        0 <= n <= ids.len(),
        forall|j: int| n <= j < ids.len() ==> !starts_with((#[trigger] ids[j])@, prefix),
    ensures
        with_prefix(ids, prefix) == with_prefix(ids.take(n), prefix),
{
    let pred = begins_with(prefix);
    let rest = ids.skip(n);
    assert(ids =~= ids.take(n) + rest);
    Seq::filter_distributes_over_add(ids.take(n), rest, pred);
    assert forall|k: int| 0 <= k < rest.len() implies !pred(#[trigger] rest[k]) by {
        assert(rest[k] == ids[n + k]);
    }
    rest.lemma_all_neg_filter_empty(pred);
    assert(ids.take(n).filter(pred) + rest.filter(pred) =~= ids.take(n).filter(pred));
}

/// With one record whose identifier begins with the prefix, resolving answers with
/// that identifier.
pub proof fn lemma_one_match_is_resolved(
    r: Result<String, DomainError>,
    ids: Seq<String>,
    prefix: Seq<char>,
    kind: RecordKind,
    i: int,
)
    requires
        is_resolved_among(r, ids, prefix, kind),
        0 <= i < ids.len(),
        starts_with(ids[i]@, prefix),
        forall|j: int| 0 <= j < ids.len() && j != i ==> !starts_with((#[trigger] ids[j])@, prefix),
    ensures
        r == Ok::<String, DomainError>(ids[i]),
{
    lemma_single_match_resolves(ids, prefix, i);
}

/// With two records whose identifiers begin with the prefix, resolving answers that
/// the prefix is ambiguous between 2 records.
pub proof fn lemma_two_matches_are_ambiguous(
    r: Result<String, DomainError>,
    ids: Seq<String>,
    prefix: Seq<char>,
    kind: RecordKind,
    i: int,
    j: int,
)
    requires
        is_resolved_among(r, ids, prefix, kind),
        0 <= i < j < ids.len(),
        starts_with(ids[i]@, prefix),
        starts_with(ids[j]@, prefix),
        forall|k: int|
            0 <= k < ids.len() && k != i && k != j ==> !starts_with((#[trigger] ids[k])@, prefix),
    ensures
        r matches Err(e) && is_ambiguous(e, prefix, 2),
{
    let pred = begins_with(prefix);
    let upto = ids.take(j + 1);
    lemma_rest_adds_nothing(ids, prefix, j + 1);
    let before = upto.drop_last();
    assert(before =~= ids.take(j));
    assert forall|k: int| 0 <= k < before.len() && k != i implies !starts_with(
        (#[trigger] before[k])@,
        prefix,
    ) by {
        assert(before[k] == ids[k]);
    }
    assert(before[i] == ids[i]);
    lemma_single_match_resolves(before, prefix, i);
    reveal(Seq::filter);
    assert(upto.last() == ids[j]);
    assert(upto.filter(pred) =~= seq![ids[i], ids[j]]);
}

/// With no record whose identifier begins with the prefix, resolving answers that
/// none was found.
pub proof fn lemma_no_match_is_not_found(
    r: Result<String, DomainError>,
    ids: Seq<String>,
    prefix: Seq<char>,
    kind: RecordKind,
)
    requires
        is_resolved_among(r, ids, prefix, kind),
        forall|k: int| 0 <= k < ids.len() ==> !starts_with((#[trigger] ids[k])@, prefix),
    ensures
        r matches Err(e) && is_not_found(e, kind, prefix),
{
    lemma_rest_adds_nothing(ids, prefix, 0);
    reveal(Seq::filter);
    assert(ids.take(0) =~= Seq::<String>::empty());
}

} // verus!
