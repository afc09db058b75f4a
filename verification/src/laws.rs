//! General properties of the command semantics, stated over the same spec
//! functions that the executable functions' contracts use.
//!
//! Isolation between tenants is not restated here: it is an `ensures` of
//! every mutating operation (`ListStore::replace`, `ListStore::mutate`,
//! `apply_command`, `dispatch`), each of which promises that every other
//! tenant's list is unchanged.

use crate::executor::step_list;
use crate::parser::SpecCommand;
use vstd::prelude::*;
use vstd::seq_lib::lemma_multiset_commutative;

verus! {

/// Adding an item appends it: the list grows by exactly one, the new last
/// element is the added text, and every earlier item stays in place.
pub proof fn lemma_add_item_appends(l: Seq<Seq<char>>, x: Seq<char>)
    ensures
        step_list(l, SpecCommand::AddItem(x)).len() == l.len() + 1,
        step_list(l, SpecCommand::AddItem(x)).last() == x,
        forall|i: int| 0 <= i < l.len() ==> step_list(l, SpecCommand::AddItem(x))[i] == l[i],
{
}

/// Marking a position outside `[0, len)` as bought is a no-op: the list is
/// left exactly as it was.
pub proof fn lemma_mark_bought_out_of_range(l: Seq<Seq<char>>, i: int)
    requires
        !(0 <= i < l.len()),
    ensures
        step_list(l, SpecCommand::MarkBought(i)) == l,
{
}

/// Resetting yields the empty list regardless of prior state.
pub proof fn lemma_new_list_resets(l: Seq<Seq<char>>)
    ensures
        step_list(l, SpecCommand::NewList) == Seq::<Seq<char>>::empty(),
{
}

/// Round trip: adding one item to the empty list and then marking position 0
/// as bought yields the empty list again.
pub proof fn lemma_add_then_bought_round_trip(x: Seq<char>)
    ensures
        step_list(step_list(Seq::empty(), SpecCommand::AddItem(x)), SpecCommand::MarkBought(0))
            == Seq::<Seq<char>>::empty(),
{
    let one = step_list(Seq::empty(), SpecCommand::AddItem(x));
    assert(one.remove(0) =~= Seq::<Seq<char>>::empty());
}

/// The list left by a serialized run of `AddItem` commands, one per text in
/// `xs`, in that order. Commands on one tenant are linearized, so any
/// concurrent execution is one such run for some order of the texts.
pub open spec fn apply_adds(l: Seq<Seq<char>>, xs: Seq<Seq<char>>) -> Seq<Seq<char>>
    decreases xs.len(),
{
    if xs.len() == 0 {
        l
    } else {
        apply_adds(step_list(l, SpecCommand::AddItem(xs.first())), xs.drop_first())
    }
}

/// A serialized run of `AddItem` commands appends exactly its texts, in its
/// serialization order: no update is lost and nothing else appears.
pub proof fn lemma_adds_append_all(l: Seq<Seq<char>>, xs: Seq<Seq<char>>)
    ensures
        apply_adds(l, xs) == l + xs,
    decreases xs.len(),
{
    if xs.len() == 0 {
        assert(l + xs =~= l);
    } else {
        lemma_adds_append_all(l.push(xs.first()), xs.drop_first());
        assert(l.push(xs.first()) + xs.drop_first() =~= l + xs);
    }
}

/// From the empty list, N `AddItem` commands with N texts leave exactly
/// those N texts, in serialization order.
pub proof fn lemma_no_lost_updates(xs: Seq<Seq<char>>)
    ensures
        apply_adds(Seq::empty(), xs) == xs,
{
    lemma_adds_append_all(Seq::empty(), xs);
    assert(Seq::<Seq<char>>::empty() + xs =~= xs);
}

/// Whichever interleaving won the per-tenant critical sections — that is,
/// whichever order of the same texts was serialized — the final list has the
/// same length and contains exactly the same items with the same counts.
pub proof fn lemma_adds_any_order(l: Seq<Seq<char>>, xs1: Seq<Seq<char>>, xs2: Seq<Seq<char>>)
    requires
        xs1.to_multiset() == xs2.to_multiset(),
    ensures
        apply_adds(l, xs1).len() == apply_adds(l, xs2).len(),
        apply_adds(l, xs1).to_multiset() == apply_adds(l, xs2).to_multiset(),
{
    lemma_adds_append_all(l, xs1);
    lemma_adds_append_all(l, xs2);
    xs1.to_multiset_ensures();
    xs2.to_multiset_ensures();
    lemma_multiset_commutative(l, xs1);
    lemma_multiset_commutative(l, xs2);
}

} // verus!
