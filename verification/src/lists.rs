//! Lists made from other lists.
use vstd::prelude::*;

verus! {

/// What `pick` takes from the items of a list, in their order.
pub open spec fn picked<A, B>(list: Seq<A>, pick: spec_fn(A) -> Option<B>) -> Seq<B>
    decreases list.len(),
{
    if list.len() == 0 {
        Seq::empty()
    } else {
        let front = picked(list.drop_last(), pick);
        match pick(list.last()) {
            Some(item) => front.push(item),
            None => front,
        }
    }
}

/// One item more is picked from at the end.
pub proof fn lemma_picked_step<A, B>(list: Seq<A>, i: int, pick: spec_fn(A) -> Option<B>)
    requires
        0 <= i < list.len(),
    ensures
        picked(list.take(i + 1), pick) == match pick(list[i]) {
            Some(item) => picked(list.take(i), pick).push(item),
            None => picked(list.take(i), pick),
        },
{
    assert(list.take(i + 1).drop_last() =~= list.take(i));
    assert(list.take(i + 1).last() == list[i]);
}

/// What is picked comes from some item of the list, and what is taken from an item is picked.
pub proof fn lemma_picked_contains<A, B>(list: Seq<A>, pick: spec_fn(A) -> Option<B>, item: B)
    ensures
        picked(list, pick).contains(item) <==> exists|i: int|
            0 <= i < list.len() && pick(#[trigger] list[i]) == Some(item),
    decreases list.len(),
{
    if list.len() > 0 {
        let short = list.drop_last();
        let front = picked(short, pick);
        let all = picked(list, pick);
        lemma_picked_contains(short, pick, item);
        if all.contains(item) {
            let k = choose|k: int| 0 <= k < all.len() && all[k] == item;
            if k < front.len() {
                assert(front[k] == item);
                let i = choose|i: int|
                    0 <= i < short.len() && pick(#[trigger] short[i]) == Some(item);
                assert(list[i] == short[i]);
            } else {
                assert(pick(list[list.len() - 1]) == Some(item));
            }
        }
        if exists|i: int| 0 <= i < list.len() && pick(#[trigger] list[i]) == Some(item) {
            let i = choose|i: int| 0 <= i < list.len() && pick(#[trigger] list[i]) == Some(item);
            if i < short.len() {
                assert(pick(short[i]) == Some(item));
                let k = choose|k: int| 0 <= k < front.len() && front[k] == item;
                assert(all[k] == item);
            } else {
                assert(all.last() == item);
            }
        }
    }
}

/// What is picked from one list after another is picked from the first and then from the other.
pub proof fn law_picked_in_order<A, B>(a: Seq<A>, b: Seq<A>, pick: spec_fn(A) -> Option<B>)
    ensures
        picked(a + b, pick) == picked(a, pick) + picked(b, pick),
    decreases b.len(),
{
    if b.len() == 0 {
        assert(a + b =~= a);
    } else {
        assert((a + b).drop_last() =~= a + b.drop_last());
        law_picked_in_order(a, b.drop_last(), pick);
        assert(picked(a + b, pick) =~= picked(a, pick) + picked(b, pick));
    }
}

/// Two ways of picking that never both pick from an item, and never both leave it, pick as much
/// together as there are items.
pub proof fn lemma_picked_parts<A, B, C>(
    list: Seq<A>,
    pick: spec_fn(A) -> Option<B>,
    other: spec_fn(A) -> Option<C>,
)
    requires
        forall|i: int| 0 <= i < list.len() ==> (pick(#[trigger] list[i]) is Some <==> other(list[i]) is None),
    ensures
        picked(list, pick).len() + picked(list, other).len() == list.len(),
    decreases list.len(),
{
    if list.len() > 0 {
        let short = list.drop_last();
        assert forall|i: int| 0 <= i < short.len() implies (pick(#[trigger] short[i]) is Some
            <==> other(short[i]) is None) by {
            assert(short[i] == list[i]);
        }
        assert(list[list.len() - 1] == list.last());
        lemma_picked_parts(short, pick, other);
    }
}

/// At most one thing is picked from each item.
pub proof fn lemma_picked_len<A, B>(list: Seq<A>, pick: spec_fn(A) -> Option<B>)
    ensures
        picked(list, pick).len() <= list.len(),
    decreases list.len(),
{
    if list.len() > 0 {
        lemma_picked_len(list.drop_last(), pick);
    }
}

/// Puts `filler` in place of the item at `i` and hands that out.
pub fn take_at<T>(list: &mut Vec<T>, i: usize, filler: T) -> (r: T)
    requires
        i < old(list)@.len(),
    ensures
        r == old(list)@[i as int],
        final(list)@ == old(list)@.update(i as int, filler),
{
    let mut item = filler;
    std::mem::swap(&mut list[i], &mut item);
    item
}

} // verus!
