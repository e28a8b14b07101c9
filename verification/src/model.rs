//! The mathematical model of one aggregation pass: a decoded stream is a
//! sequence of items, each either the sequence length of a successfully
//! decoded record or the message of a decode error; the aggregates are
//! functions of the sequence of lengths.

use vstd::prelude::*;

verus! {

/// The smaller of two lengths.
pub open spec fn nat_min(a: nat, b: nat) -> nat {
    if a <= b {
        a
    } else {
        b
    }
}

/// The larger of two lengths.
pub open spec fn nat_max(a: nat, b: nat) -> nat {
    if a >= b {
        a
    } else {
        b
    }
}

/// Sum of a sequence of lengths.
pub open spec fn total_of(s: Seq<nat>) -> nat
    decreases s.len(),
{
    if s.len() == 0 {
        0
    } else {
        total_of(s.drop_last()) + s.last()
    }
}

/// Least element of a non-empty sequence of lengths.
pub open spec fn min_of(s: Seq<nat>) -> nat
    recommends
        s.len() > 0,
    decreases s.len(),
{
    if s.len() <= 1 {
        s.last()
    } else {
        nat_min(min_of(s.drop_last()), s.last())
    }
}

/// Greatest element of a non-empty sequence of lengths.
pub open spec fn max_of(s: Seq<nat>) -> nat
    recommends
        s.len() > 0,
    decreases s.len(),
{
    if s.len() <= 1 {
        s.last()
    } else {
        nat_max(max_of(s.drop_last()), s.last())
    }
}

/// Floor of the mean of a non-empty sequence of lengths.
pub open spec fn mean_of(s: Seq<nat>) -> nat
    recommends
        s.len() > 0,
{
    total_of(s) / s.len()
}

/// Lengths of the successfully decoded records of a stream, in stream order.
pub open spec fn ok_lengths(items: Seq<Result<nat, Seq<char>>>) -> Seq<nat>
    decreases items.len(),
{
    if items.len() == 0 {
        Seq::empty()
    } else {
        let rest = ok_lengths(items.drop_last());
        match items.last() {
            Ok(l) => rest.push(l),
            Err(_) => rest,
        }
    }
}

/// Messages of the decode errors of a stream, in stream order.
pub open spec fn err_messages(items: Seq<Result<nat, Seq<char>>>) -> Seq<Seq<char>>
    decreases items.len(),
{
    if items.len() == 0 {
        Seq::empty()
    } else {
        let rest = err_messages(items.drop_last());
        match items.last() {
            Ok(_) => rest,
            Err(m) => rest.push(m),
        }
    }
}

/// The stream with its decode errors removed.
pub open spec fn errors_removed(items: Seq<Result<nat, Seq<char>>>) -> Seq<
    Result<nat, Seq<char>>,
> {
    items.filter(|it: Result<nat, Seq<char>>| it is Ok)
}

/// Appending a length adds it to the sum.
pub proof fn lemma_total_push(s: Seq<nat>, x: nat)
    ensures
        total_of(s.push(x)) == total_of(s) + x,
{
    assert(s.push(x).drop_last() =~= s);
}

/// Appending a length updates the minimum and maximum pointwise.
pub proof fn lemma_min_max_push(s: Seq<nat>, x: nat)
    requires
        s.len() > 0,
    ensures
        min_of(s.push(x)) == nat_min(min_of(s), x),
        max_of(s.push(x)) == nat_max(max_of(s), x),
{
    assert(s.push(x).drop_last() =~= s);
}

/// Appending an item extends the lengths exactly when it is a record, and the
/// messages exactly when it is an error.
pub proof fn lemma_items_push(items: Seq<Result<nat, Seq<char>>>, x: Result<nat, Seq<char>>)
    ensures
        x is Ok ==> ok_lengths(items.push(x)) == ok_lengths(items).push(x->Ok_0)
            && err_messages(items.push(x)) == err_messages(items),
        x is Err ==> ok_lengths(items.push(x)) == ok_lengths(items)
            && err_messages(items.push(x)) == err_messages(items).push(x->Err_0),
{
    assert(items.push(x).drop_last() =~= items);
}

/// One step of a left-to-right traversal: extending the prefix by the item at
/// position `j` extends its lengths or its messages accordingly.
pub proof fn lemma_take_step(items: Seq<Result<nat, Seq<char>>>, j: int)
    requires
        0 <= j < items.len(),
    ensures
        items[j] is Ok ==> ok_lengths(items.take(j + 1)) == ok_lengths(items.take(j)).push(
            items[j]->Ok_0,
        ) && err_messages(items.take(j + 1)) == err_messages(items.take(j)),
        items[j] is Err ==> ok_lengths(items.take(j + 1)) == ok_lengths(items.take(j))
            && err_messages(items.take(j + 1)) == err_messages(items.take(j)).push(
            items[j]->Err_0,
        ),
{
    assert(items.take(j + 1).drop_last() =~= items.take(j));
    assert(items.take(j + 1).last() == items[j]);
}

/// Every stream splits into its record lengths and its error messages.
pub proof fn lemma_item_counts(items: Seq<Result<nat, Seq<char>>>)
    ensures
        ok_lengths(items).len() + err_messages(items).len() == items.len(),
    decreases items.len(),
{
    if items.len() > 0 {
        lemma_item_counts(items.drop_last());
    }
}

/// The sum over any prefix of a stream is at most the sum over the whole.
pub proof fn lemma_total_take_le(items: Seq<Result<nat, Seq<char>>>, j: int)
    requires
        0 <= j <= items.len(),
    ensures
        total_of(ok_lengths(items.take(j))) <= total_of(ok_lengths(items)),
    decreases items.len() - j,
{
    if j == items.len() {
        assert(items.take(j) =~= items);
    } else {
        lemma_take_step(items, j);
        if items[j] is Ok {
            lemma_total_push(ok_lengths(items.take(j)), items[j]->Ok_0);
        }
        lemma_total_take_le(items, j + 1);
    }
}

} // verus!
