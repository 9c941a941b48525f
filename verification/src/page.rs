//! Pages: the part of a list of matches that one query returns.

use vstd::prelude::*;

verus! {

/// Where the page of `count` items from `offset` on starts in a list of
/// `len` items.
pub open spec fn page_start(len: nat, offset: nat) -> nat {
    if offset <= len {
        offset
    } else {
        len
    }
}

/// Where that page ends: its upper bound is clamped to the length of the list.
pub open spec fn page_end(len: nat, count: nat, offset: nat) -> nat {
    if offset + count <= len {
        offset + count
    } else {
        len
    }
}

/// The page of at most `count` items of `items` from `offset` on. It is empty
/// where `offset` lies at or behind the end.
pub open spec fn page<T>(items: Seq<T>, count: nat, offset: nat) -> Seq<T> {
    items.subrange(
        page_start(items.len(), offset) as int,
        page_end(items.len(), count, offset) as int,
    )
}

/// The first `k` pages of `count` items each, one behind the other.
pub open spec fn pages<T>(items: Seq<T>, count: nat, k: nat) -> Seq<T>
    decreases k,
{
    if k == 0 {
        Seq::<T>::empty()
    } else {
        pages(items, count, (k - 1) as nat) + page(items, count, ((k - 1) * count) as nat)
    }
}

/// Pages tile the list: the first `k` pages of a size above zero, read one
/// after the other, are the first `k * count` items of the list, each once
/// and in order.
pub proof fn lemma_pages_tile<T>(items: Seq<T>, count: nat, k: nat)
    requires
        count > 0,
    ensures
        pages(items, count, k) == items.take(page_end(items.len(), k * count, 0) as int),
    decreases k,
{
    if k > 0 {
        lemma_pages_tile(items, count, (k - 1) as nat);
        assert((k - 1) * count + count == k * count) by (nonlinear_arith);
        assert((k - 1) * count >= 0) by (nonlinear_arith)
            requires
                k >= 1,
                count > 0,
        ;
        assert(pages(items, count, k) =~= items.take(page_end(items.len(), k * count, 0) as int));
    } else {
        assert(0 * count == 0) by (nonlinear_arith);
        assert(pages(items, count, k) =~= items.take(page_end(items.len(), k * count, 0) as int));
    }
}

/// Enough pages cover the whole list, with no item twice and none left out.
pub proof fn lemma_pages_cover<T>(items: Seq<T>, count: nat, k: nat)
    requires
        count > 0,
        k * count >= items.len(),
    ensures
        pages(items, count, k) == items,
{
    lemma_pages_tile(items, count, k);
    assert(items.take(items.len() as int) == items);
}

} // verus!
