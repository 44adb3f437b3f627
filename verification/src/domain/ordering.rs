//! Putting records in order of time. The store is asked for its rows in order; the
//! pass here makes the order a fact whatever the store returned, and leaves rows
//! that already are in order exactly as they came.

use vstd::prelude::*;
use crate::domain::entity::{Message, Thread};
use crate::domain::instant::Timestamp;
use vstd::seq_lib::{to_multiset_contains, to_multiset_insert, to_multiset_len};

verus! {

/// A record that is ordered by one of its instants.
pub trait Dated {
    /// The instant by which the record is ordered.
    spec fn instant(&self) -> Timestamp;

    /// The instant by which the record is ordered.
    fn when(&self) -> (t: Timestamp)
        ensures
            t == self.instant(),
    ;
}

impl Dated for Message {
    /// A message is ordered by its creation.
    open spec fn instant(&self) -> Timestamp {
        self.created_at
    }

    fn when(&self) -> (t: Timestamp) {
        self.created_at
    }
}

impl Dated for Thread {
    /// A thread is ordered by its last update.
    open spec fn instant(&self) -> Timestamp {
        self.updated_at
    }

    fn when(&self) -> (t: Timestamp) {
        self.updated_at
    }
}

/// `a` may stand before `b`: it is not later than `b` when the oldest comes first,
/// not earlier than `b` when the newest comes first.
pub open spec fn may_precede(a: Timestamp, b: Timestamp, newest_first: bool) -> bool {
    if newest_first {
        b.at_or_before(&a)
    } else {
        a.at_or_before(&b)
    }
}

/// Every record of `s` may stand before every record after it.
pub open spec fn is_ordered<T: Dated>(s: Seq<T>, newest_first: bool) -> bool {
    forall|i: int, j: int|
        0 <= i < j < s.len() ==> may_precede(
            (#[trigger] s[i]).instant(),
            (#[trigger] s[j]).instant(),
            newest_first,
        )
}

/// `out` is `candidates` put in order of time: the same records, each as often as
/// before, in order, and as they came if they came in order.
pub open spec fn is_presentation<T: Dated>(
    out: Seq<T>,
    candidates: Seq<T>,
    newest_first: bool,
) -> bool {
    &&& is_ordered(out, newest_first)
    &&& out.to_multiset() == candidates.to_multiset()
    &&& (is_ordered(candidates, newest_first) ==> out == candidates)
}

/// Putting records in order neither adds nor loses one.
pub proof fn lemma_presentation_draws<T: Dated>(out: Seq<T>, candidates: Seq<T>, newest_first: bool)
    requires
        is_presentation(out, candidates, newest_first),
    ensures
        out.len() == candidates.len(),
        forall|x: T| out.contains(x) <==> candidates.contains(x),
{
    to_multiset_len(out);
    to_multiset_len(candidates);
    assert forall|x: T| out.contains(x) <==> candidates.contains(x) by {
        to_multiset_contains(out, x);
        to_multiset_contains(candidates, x);
    }
}

/// Whether `a` may stand before `b`.
pub fn precedes(a: &Timestamp, b: &Timestamp, newest_first: bool) -> (r: bool)
    ensures
        r == may_precede(*a, *b, newest_first),
{
    if newest_first {
        !a.is_before(b)
    } else {
        !b.is_before(a)
    }
}

/// The records of `items` in order of time: the same records, each as often as
/// before, with equal instants left in the order in which they came. Records that
/// come in order are returned as they came.
pub fn order_by_time<T: Dated>(items: Vec<T>, newest_first: bool) -> (out: Vec<T>)
    ensures
        is_presentation(out@, items@, newest_first),
{
    let mut out: Vec<T> = Vec::new();
    proof {
        assert(items@.take(0) =~= Seq::<T>::empty());
    }
    for x in it: items
        invariant
            it.seq() == items@,
            is_ordered(out@, newest_first),
            out@.to_multiset() == items@.take(it.index() as int).to_multiset(),
            out@.len() == it.index(),
            is_ordered(items@, newest_first) ==> out@ == items@.take(it.index() as int),
    {
        let ghost before = out@;
        let ghost seen = items@.take(it.index() as int);
        let key = x.when();
        let mut p: usize = out.len();
        while p > 0 && !precedes(&out[p - 1].when(), &key, newest_first)
            invariant
                p <= out.len(),
                out@ == before,
                key == x.instant(),
                forall|k: int|
                    p <= k < out.len() ==> !may_precede(
                        (#[trigger] out@[k]).instant(),
                        key,
                        newest_first,
                    ),
            decreases p,
        {
            p -= 1;
        }
        proof {
            let after = before.insert(p as int, x);
            assert forall|i: int, j: int| 0 <= i < j < after.len() implies may_precede(
                (#[trigger] after[i]).instant(),
                (#[trigger] after[j]).instant(),
                newest_first,
            ) by {
                if j < p {
                    assert(after[i] == before[i] && after[j] == before[j]);
                } else if j == p {
                    assert(after[i] == before[i]);
                    assert(may_precede(before[p - 1].instant(), key, newest_first));
                    if i < p - 1 {
                        assert(may_precede(
                            before[i].instant(),
                            before[p - 1].instant(),
                            newest_first,
                        ));
                    }
                } else if i < p {
                    assert(after[i] == before[i] && after[j] == before[j - 1]);
                } else if i == p {
                    assert(after[j] == before[j - 1]);
                    assert(!may_precede(before[j - 1].instant(), key, newest_first));
                } else {
                    assert(after[i] == before[i - 1] && after[j] == before[j - 1]);
                }
            }
            to_multiset_insert(before, p as int, x);
            assert(items@.take(it.index() + 1) =~= seen.push(x));
            vstd::seq_lib::to_multiset_build(seen, x);
            if is_ordered(items@, newest_first) {
                if p < before.len() {
                    assert(before[p as int] == items@[p as int]);
                    assert(x == items@[it.index() as int]);
                    assert(may_precede(
                        items@[p as int].instant(),
                        items@[it.index() as int].instant(),
                        newest_first,
                    ));
                }
                assert(after =~= seen.push(x));
            }
        }
        out.insert(p, x);
    }
    proof {
        assert(items@.take(items@.len() as int) =~= items@);
    }
    out
}

} // verus!
