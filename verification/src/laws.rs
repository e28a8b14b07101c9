//! Laws of the aggregates: what a single record yields, that the summary does
//! not depend on the order records arrive in, that decode errors are
//! transparent to the aggregates, and how minimum, mean, maximum and total
//! bound one another.

use crate::model::{
    err_messages, errors_removed, lemma_items_push, max_of, mean_of, min_of, nat_max, nat_min,
    ok_lengths, total_of,
};
use vstd::prelude::*;

verus! {

/// Removing the length at position `i` takes exactly that length off the sum.
proof fn lemma_total_remove(s: Seq<nat>, i: int)
    requires
        0 <= i < s.len(),
    ensures
        total_of(s) == total_of(s.remove(i)) + s[i],
    decreases s.len(),
{
    if i == s.len() - 1 {
        assert(s.remove(i) =~= s.drop_last());
    } else {
        let t = s.drop_last();
        assert(s.remove(i).drop_last() =~= t.remove(i));
        assert(s.remove(i).last() == s.last());
        lemma_total_remove(t, i);
    }
}

/// The minimum and maximum of a sequence of two or more lengths are those of
/// the sequence without its element at position `i`, corrected by that
/// element.
proof fn lemma_min_max_remove(s: Seq<nat>, i: int)
    requires
        s.len() >= 2,
        0 <= i < s.len(),
    ensures
        min_of(s) == nat_min(min_of(s.remove(i)), s[i]),
        max_of(s) == nat_max(max_of(s.remove(i)), s[i]),
    decreases s.len(),
{
    if i == s.len() - 1 {
        assert(s.remove(i) =~= s.drop_last());
        assert(min_of(s) == nat_min(min_of(s.drop_last()), s.last()));
    } else {
        let t = s.drop_last();
        assert(s.remove(i).drop_last() =~= t.remove(i));
        assert(s.remove(i).last() == s.last());
        if s.len() == 2 {
            assert(min_of(t) == s[0]);
            assert(min_of(s.remove(i)) == s.last());
            assert(min_of(s) == nat_min(s[0], s.last()));
            assert(max_of(t) == s[0]);
            assert(max_of(s.remove(i)) == s.last());
            assert(max_of(s) == nat_max(s[0], s.last()));
        } else {
            lemma_min_max_remove(t, i);
            assert(min_of(s.remove(i)) == nat_min(min_of(t.remove(i)), s.last()));
            assert(max_of(s.remove(i)) == nat_max(max_of(t.remove(i)), s.last()));
            assert(min_of(s) == nat_min(min_of(t), s.last()));
            assert(max_of(s) == nat_max(max_of(t), s.last()));
        }
    }
}

/// A pass over exactly one record of length `l` yields total, minimum, mean
/// and maximum all equal to `l`.
pub proof fn lemma_single_record(l: nat)
    ensures
        total_of(seq![l]) == l,
        min_of(seq![l]) == l,
        max_of(seq![l]) == l,
        mean_of(seq![l]) == l,
{
    assert(seq![l].drop_last() =~= Seq::<nat>::empty());
    assert(total_of(Seq::<nat>::empty()) == 0);
    assert(total_of(seq![l]) == l);
    assert(mean_of(seq![l]) == l) by {
        vstd::arithmetic::div_mod::lemma_div_basics(l as int);
    }
}

/// Order independence: two streams of record lengths that are permutations of
/// one another (the same multiset) have the same count, total, minimum,
/// maximum and mean.
pub proof fn lemma_order_independence(s1: Seq<nat>, s2: Seq<nat>)
    requires
        s1.to_multiset() == s2.to_multiset(),
    ensures
        s1.len() == s2.len(),
        total_of(s1) == total_of(s2),
        s1.len() > 0 ==> min_of(s1) == min_of(s2) && max_of(s1) == max_of(s2) && mean_of(s1)
            == mean_of(s2),
    decreases s1.len(),
{
    broadcast use vstd::seq_lib::group_to_multiset_ensures;
    broadcast use vstd::multiset::group_multiset_axioms;

    vstd::seq_lib::to_multiset_len(s1);
    vstd::seq_lib::to_multiset_len(s2);
    if s1.len() == 0 {
        assert(s2.len() == 0);
    } else {
        let x = s1.last();
        let t1 = s1.drop_last();
        assert(t1.push(x) =~= s1);
        assert(s1.to_multiset() == t1.to_multiset().insert(x));
        assert(s2.to_multiset().count(x) > 0);
        assert(s2.contains(x));
        let j = choose|j: int| 0 <= j < s2.len() && s2[j] == x;
        assert(s2.remove(j).to_multiset() == s2.to_multiset().remove(x));
        assert(t1.to_multiset().insert(x).remove(x) =~= t1.to_multiset());
        lemma_order_independence(t1, s2.remove(j));
        lemma_total_remove(s2, j);
        if s1.len() == 1 {
            assert(min_of(s2) == x);
            assert(max_of(s2) == x);
        } else {
            lemma_min_max_remove(s2, j);
        }
    }
}

/// Decode errors are transparent: a stream's record lengths are exactly those
/// of the stream with every error item removed, and the diagnostics are one
/// per error item.
pub proof fn lemma_errors_transparent(items: Seq<Result<nat, Seq<char>>>)
    ensures
        ok_lengths(errors_removed(items)) == ok_lengths(items),
        err_messages(items).len() + ok_lengths(items).len() == items.len(),
    decreases items.len(),
{
    reveal(Seq::filter);
    if items.len() > 0 {
        lemma_errors_transparent(items.drop_last());
        if items.last() is Ok {
            lemma_items_push(errors_removed(items.drop_last()), items.last());
        }
    }
}

/// Over a non-empty sequence of lengths: the minimum is at most the maximum,
/// the maximum at most the total, and the total lies between count times
/// minimum and count times maximum.
proof fn lemma_aggregate_bounds(s: Seq<nat>)
    requires
        s.len() > 0,
    ensures
        min_of(s) <= max_of(s),
        max_of(s) <= total_of(s),
        s.len() * min_of(s) <= total_of(s),
        total_of(s) <= s.len() * max_of(s),
    decreases s.len(),
{
    if s.len() == 1 {
        assert(s.len() * min_of(s) == min_of(s));
        assert(s.len() * max_of(s) == max_of(s));
        assert(total_of(s) == total_of(s.drop_last()) + s.last());
        assert(total_of(s.drop_last()) == 0);
    } else {
        let t = s.drop_last();
        let x = s.last();
        lemma_aggregate_bounds(t);
        assert(min_of(s) == nat_min(min_of(t), x));
        assert(max_of(s) == nat_max(max_of(t), x));
        assert(total_of(s) == total_of(t) + x);
        vstd::arithmetic::mul::lemma_mul_inequality(
            min_of(s) as int,
            min_of(t) as int,
            t.len() as int,
        );
        assert(t.len() * min_of(s) <= t.len() * min_of(t));
        vstd::arithmetic::mul::lemma_mul_inequality(
            max_of(t) as int,
            max_of(s) as int,
            t.len() as int,
        );
        assert(t.len() * max_of(t) <= t.len() * max_of(s));
        assert((t.len() + 1) * min_of(s) == t.len() * min_of(s) + min_of(s)) by (nonlinear_arith);
        assert((t.len() + 1) * max_of(s) == t.len() * max_of(s) + max_of(s)) by (nonlinear_arith);
        assert(s.len() * min_of(s) == (t.len() + 1) * min_of(s));
        assert(s.len() * max_of(s) == (t.len() + 1) * max_of(s));
    }
}

/// Monotonic bounds: for every non-empty stream of record lengths, the
/// minimum is at most the (floored) mean, the mean at most the maximum, and
/// the maximum at most the total; with one record, all four coincide.
pub proof fn lemma_monotonic_bounds(s: Seq<nat>)
    requires
        s.len() > 0,
    ensures
        min_of(s) <= mean_of(s),
        mean_of(s) <= max_of(s),
        min_of(s) <= max_of(s),
        max_of(s) <= total_of(s),
        s.len() == 1 ==> min_of(s) == max_of(s) && max_of(s) == total_of(s) && mean_of(s)
            == total_of(s),
{
    lemma_aggregate_bounds(s);
    let n = s.len() as int;
    let total = total_of(s) as int;
    vstd::arithmetic::div_mod::lemma_div_is_ordered(n * min_of(s) as int, total, n);
    vstd::arithmetic::div_mod::lemma_div_multiples_vanish(min_of(s) as int, n);
    vstd::arithmetic::div_mod::lemma_div_is_ordered(total, n * max_of(s) as int, n);
    vstd::arithmetic::div_mod::lemma_div_multiples_vanish(max_of(s) as int, n);
    if s.len() == 1 {
        vstd::arithmetic::div_mod::lemma_div_basics(total);
    }
}

} // verus!
