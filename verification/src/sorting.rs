//! The order in which a voucher shows its entries: largest amount first,
//! entries of equal amount in the order of the legs.

use vstd::prelude::*;
use crate::entry::{LedgerEntry, LedgerEntryModel};

verus! {

/// Whether no entry of `entries` is followed by one with a larger amount.
pub open spec fn descending(entries: Seq<LedgerEntryModel>) -> bool {
    forall|i: int, j: int|
        0 <= i < j < entries.len() ==> (#[trigger] entries[i]).amount >= (
        #[trigger] entries[j]).amount
}

/// The entries of `entries` whose amount is `amount`, in their order.
pub open spec fn with_amount(entries: Seq<LedgerEntryModel>, amount: int) -> Seq<
    LedgerEntryModel,
> {
    entries.filter(|e: LedgerEntryModel| e.amount == amount)
}

/// Whether `out` holds the entries of `legs` so that entries of one amount
/// come in the order in which `legs` has them.
pub open spec fn keeps_leg_order(out: Seq<LedgerEntryModel>, legs: Seq<LedgerEntryModel>) -> bool {
    forall|amount: int| #[trigger] with_amount(out, amount) == with_amount(legs, amount)
}

/// Whether `out` is `legs` sorted by amount, largest first, with entries
/// of equal amount left in the order of `legs`.
pub open spec fn is_stable_descending(
    out: Seq<LedgerEntryModel>,
    legs: Seq<LedgerEntryModel>,
) -> bool {
    &&& out.to_multiset() == legs.to_multiset()
    &&& descending(out)
    &&& keeps_leg_order(out, legs)
}

/// No entry of `entries` has the amount `amount`, so none is selected.
proof fn with_amount_of_others(entries: Seq<LedgerEntryModel>, amount: int)
    requires
        forall|i: int| 0 <= i < entries.len() ==> (#[trigger] entries[i]).amount != amount,
    ensures
        with_amount(entries, amount) == Seq::<LedgerEntryModel>::empty(),
{
    let pred = |e: LedgerEntryModel| e.amount == amount;
    assert(entries.all(|e: LedgerEntryModel| !pred(e)));
    entries.lemma_all_neg_filter_empty(pred);
    assert(with_amount(entries, amount) =~= Seq::<LedgerEntryModel>::empty());
}

/// Putting `x` into a sorted sequence behind every larger entry and
/// before every entry that is not larger keeps it sorted, and puts `x`
/// before the entries of its own amount.
proof fn insert_keeps_order(
    out: Seq<LedgerEntryModel>,
    k: int,
    x: LedgerEntryModel,
    tail: Seq<LedgerEntryModel>,
)
    requires
        0 <= k <= out.len(),
        is_stable_descending(out, tail),
        forall|j: int| 0 <= j < k ==> (#[trigger] out[j]).amount > x.amount,
        k < out.len() ==> out[k].amount <= x.amount,
    ensures
        is_stable_descending(out.insert(k, x), seq![x] + tail),
{
    let grown = out.insert(k, x);
    let front = out.subrange(0, k);
    let back = out.subrange(k, out.len() as int);
    assert(out =~= front + back);
    assert(grown =~= front + (seq![x] + back));
    assert(seq![x] + tail =~= tail.insert(0, x));
    vstd::seq_lib::to_multiset_insert(out, k, x);
    vstd::seq_lib::to_multiset_insert(tail, 0, x);
    assert(descending(grown)) by {
        assert forall|i: int, j: int| 0 <= i < j < grown.len() implies (#[trigger] grown[i]).amount
            >= (#[trigger] grown[j]).amount by {
            let a = if i < k {
                i
            } else {
                i - 1
            };
            let b = if j < k {
                j
            } else {
                j - 1
            };
            if i != k && j != k {
                assert(grown[i] == out[a] && grown[j] == out[b]);
            } else if i == k {
                assert(grown[j] == out[b]);
                assert(out[k].amount >= out[b].amount);
            } else {
                assert(grown[i] == out[a]);
            }
        }
    }
    assert forall|amount: int| #[trigger]
        with_amount(grown, amount) == with_amount(seq![x] + tail, amount) by {
        let pred = |e: LedgerEntryModel| e.amount == amount;
        Seq::filter_distributes_over_add(front, back, pred);
        Seq::filter_distributes_over_add(front, seq![x] + back, pred);
        back.lemma_filter_prepend(x, pred);
        tail.lemma_filter_prepend(x, pred);
        assert(with_amount(out, amount) == with_amount(tail, amount));
        if amount == x.amount {
            with_amount_of_others(front, amount);
            assert(with_amount(grown, amount) =~= seq![x] + with_amount(out, amount));
        } else {
            assert(with_amount(grown, amount) =~= with_amount(out, amount));
            assert(with_amount(seq![x] + tail, amount) =~= with_amount(tail, amount));
        }
    }
}

/// The largest amount of a sorted sequence is found among the entries of
/// any sequence that holds the same entries amount by amount.
proof fn first_amount_is_held(a: Seq<LedgerEntryModel>, b: Seq<LedgerEntryModel>)
    requires
        a.len() > 0,
        descending(b),
        keeps_leg_order(a, b),
    ensures
        b.len() > 0,
        b[0].amount >= a[0].amount,
{
    let amount = a[0].amount;
    let pred = |e: LedgerEntryModel| e.amount == amount;
    a.lemma_filter_contains(pred, 0);
    assert(with_amount(a, amount) == with_amount(b, amount));
    assert(b.filter(pred).contains(a[0]));
    b.lemma_filter_contains_rev(pred, a[0]);
    let at = choose|i: int| 0 <= i < b.len() && b[i] == a[0];
    assert(b[0].amount >= b[at].amount);
}

/// Two sorted sequences that hold the same entries in the same order,
/// amount by amount, are one sequence.
proof fn sorted_sequences_agree(a: Seq<LedgerEntryModel>, b: Seq<LedgerEntryModel>)
    requires
        descending(a),
        descending(b),
        keeps_leg_order(a, b),
    ensures
        a == b,
    decreases a.len(),
{
    assert(keeps_leg_order(b, a)) by {
        assert forall|amount: int| #[trigger]
            with_amount(b, amount) == with_amount(a, amount) by {
            assert(with_amount(a, amount) == with_amount(b, amount));
        }
    }
    if a.len() == 0 {
        if b.len() > 0 {
            first_amount_is_held(b, a);
        }
        assert(a =~= b);
    } else {
        first_amount_is_held(a, b);
        first_amount_is_held(b, a);
        let top = a[0].amount;
        let a_rest = a.drop_first();
        let b_rest = b.drop_first();
        assert(a =~= seq![a[0]] + a_rest);
        assert(b =~= seq![b[0]] + b_rest);
        assert forall|amount: int| #[trigger]
            with_amount(a_rest, amount) == with_amount(b_rest, amount) by {
            let pred = |e: LedgerEntryModel| e.amount == amount;
            a_rest.lemma_filter_prepend(a[0], pred);
            b_rest.lemma_filter_prepend(b[0], pred);
            assert(with_amount(a, amount) == with_amount(b, amount));
            if amount == top {
                let left = seq![a[0]] + with_amount(a_rest, amount);
                let right = seq![b[0]] + with_amount(b_rest, amount);
                assert(left == right);
                assert(with_amount(a_rest, amount) =~= left.drop_first());
                assert(with_amount(b_rest, amount) =~= right.drop_first());
            } else {
                assert(with_amount(a, amount) =~= with_amount(a_rest, amount));
                assert(with_amount(b, amount) =~= with_amount(b_rest, amount));
            }
        }
        assert(a[0] == b[0]) by {
            let pred = |e: LedgerEntryModel| e.amount == top;
            a_rest.lemma_filter_prepend(a[0], pred);
            b_rest.lemma_filter_prepend(b[0], pred);
            assert(with_amount(a, top) == with_amount(b, top));
            let left = seq![a[0]] + with_amount(a_rest, top);
            let right = seq![b[0]] + with_amount(b_rest, top);
            assert(left == right);
            assert(left[0] == a[0]);
            assert(right[0] == b[0]);
        }
        assert(descending(a_rest)) by {
            assert forall|i: int, j: int| 0 <= i < j < a_rest.len() implies (
            #[trigger] a_rest[i]).amount >= (#[trigger] a_rest[j]).amount by {
                assert(a_rest[i] == a[i + 1] && a_rest[j] == a[j + 1]);
            }
        }
        assert(descending(b_rest)) by {
            assert forall|i: int, j: int| 0 <= i < j < b_rest.len() implies (
            #[trigger] b_rest[i]).amount >= (#[trigger] b_rest[j]).amount by {
                assert(b_rest[i] == b[i + 1] && b_rest[j] == b[j + 1]);
            }
        }
        sorted_sequences_agree(a_rest, b_rest);
        assert(a =~= b);
    }
}

/// The legs of a voucher can be shown in one order only: whatever sorts
/// them largest first and keeps equal amounts in leg order arrives at the
/// same sequence.
pub proof fn stable_descending_is_unique(
    first: Seq<LedgerEntryModel>,
    second: Seq<LedgerEntryModel>,
    legs: Seq<LedgerEntryModel>,
)
    requires
        is_stable_descending(first, legs),
        is_stable_descending(second, legs),
    ensures
        first == second,
{
    assert forall|amount: int| #[trigger]
        with_amount(first, amount) == with_amount(second, amount) by {
        assert(with_amount(first, amount) == with_amount(legs, amount));
        assert(with_amount(second, amount) == with_amount(legs, amount));
    }
    sorted_sequences_agree(first, second);
}

/// Every leg is shown: an entry of `legs` is an entry of the sorted
/// sequence, and the two are equally long.
pub proof fn stable_descending_holds_legs(out: Seq<LedgerEntryModel>, legs: Seq<LedgerEntryModel>)
    requires
        is_stable_descending(out, legs),
    ensures
        out.len() == legs.len(),
        forall|i: int| 0 <= i < legs.len() ==> out.contains(#[trigger] legs[i]),
        forall|i: int| 0 <= i < out.len() ==> legs.contains(#[trigger] out[i]),
{
    broadcast use vstd::seq_lib::group_to_multiset_ensures;

    assert(out.len() == out.to_multiset().len());
    assert(legs.len() == legs.to_multiset().len());
    assert forall|i: int| 0 <= i < legs.len() implies out.contains(#[trigger] legs[i]) by {
        assert(legs.contains(legs[i]));
        assert(legs.to_multiset().count(legs[i]) > 0);
    }
    assert forall|i: int| 0 <= i < out.len() implies legs.contains(#[trigger] out[i]) by {
        assert(out.contains(out[i]));
        assert(out.to_multiset().count(out[i]) > 0);
    }
}

/// Sorts entries by amount, largest first. Entries of equal amount stay in
/// the order in which they were given.
pub fn sort_descending(entries: Vec<LedgerEntry>) -> (out: Vec<LedgerEntry>)
    ensures
        is_stable_descending(out.deep_view(), entries.deep_view()),
{
    let ghost legs = entries.deep_view();
    let mut rest = entries;
    let mut out: Vec<LedgerEntry> = Vec::new();
    proof {
        assert(legs.subrange(0, legs.len() as int) =~= legs);
        assert(legs.subrange(legs.len() as int, legs.len() as int) =~= out.deep_view());
        assert forall|amount: int| #[trigger]
            with_amount(out.deep_view(), amount) == with_amount(
                legs.subrange(legs.len() as int, legs.len() as int),
                amount,
            ) by {}
    }
    while rest.len() > 0
        invariant
            rest.len() <= legs.len(),
            rest.deep_view() == legs.subrange(0, rest.len() as int),
            is_stable_descending(
                out.deep_view(),
                legs.subrange(rest.len() as int, legs.len() as int),
            ),
        decreases rest.len(),
    {
        let ghost before = rest.deep_view();
        let ghost tail = legs.subrange(rest.len() as int, legs.len() as int);
        let x = rest.pop().unwrap();
        assert(x@ == before[before.len() - 1]);
        assert(rest.deep_view() =~= legs.subrange(0, rest.len() as int));
        let mut k: usize = 0;
        while k < out.len() && out[k].amount > x.amount
            invariant
                k <= out.len(),
                forall|j: int| 0 <= j < k ==> (#[trigger] out.deep_view()[j]).amount > x.amount,
            decreases out.len() - k,
        {
            k += 1;
        }
        let ghost sorted = out.deep_view();
        out.insert(k, x);
        proof {
            assert(out.deep_view() =~= sorted.insert(k as int, x@));
            assert(legs.subrange(rest.len() as int, legs.len() as int) =~= seq![x@] + tail);
            insert_keeps_order(sorted, k as int, x@, tail);
        }
    }
    assert(legs.subrange(0, legs.len() as int) =~= legs);
    out
}

} // verus!
