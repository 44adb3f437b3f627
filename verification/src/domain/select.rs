//! Keeping the records that meet a criterion, in their order.

use vstd::prelude::*;

verus! {

/// A condition on records of type `T` that can be tested on one of them.
pub trait Criterion<T> {
    /// The records that meet the condition.
    spec fn accepts(&self) -> spec_fn(T) -> bool;

    /// Whether `item` meets the condition.
    fn test(&self, item: &T) -> (r: bool)
        ensures
            r == (self.accepts())(*item),
    ;
}

/// The records of `items` that meet `criterion`, in their order.
pub fn keep<T, C: Criterion<T>>(items: Vec<T>, criterion: &C) -> (kept: Vec<T>)
    ensures
        kept@ == items@.filter(criterion.accepts()),
{
    let ghost pred = criterion.accepts();
    let mut kept: Vec<T> = Vec::new();
    proof {
        assert(items@.take(0) =~= Seq::<T>::empty());
        reveal(Seq::filter);
    }
    for item in it: items
        invariant
            pred == criterion.accepts(),
            it.seq() == items@,
            kept@ == items@.take(it.index() as int).filter(pred),
    {
        let hit = criterion.test(&item);
        proof {
            let before = items@.take(it.index() as int);
            assert(items@.take(it.index() + 1) =~= before.push(item));
            before.lemma_filter_push(item, pred);
        }
        if hit {
            kept.push(item);
        }
    }
    proof {
        assert(items@.take(items@.len() as int) =~= items@);
    }
    kept
}

/// What is drawn from the records kept meets the condition: if every record of
/// `out` is among those of `items` that meet `pred`, every record of `out` meets it.
pub proof fn lemma_drawn_from_kept<T>(items: Seq<T>, pred: spec_fn(T) -> bool, out: Seq<T>)
    requires
        forall|x: T| out.contains(x) ==> items.filter(pred).contains(x),
    ensures
        forall|i: int| 0 <= i < out.len() ==> pred(#[trigger] out[i]),
{
    let kept = items.filter(pred);
    assert forall|i: int| 0 <= i < out.len() implies pred(#[trigger] out[i]) by {
        assert(out.contains(out[i]));
        let j = choose|j: int| 0 <= j < kept.len() && kept[j] == out[i];
        items.lemma_filter_pred(pred, j);
    }
}

} // verus!
