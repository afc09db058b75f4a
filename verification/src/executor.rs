//! Applies a parsed command to one tenant's list in the store: one logical
//! transaction per invocation, whose whole effect and outcome are fixed by
//! `step_list` and `step_outcome`.

use crate::parser::{parse, should_handle, spec_parse, spec_should_handle, Command, SpecCommand};
use crate::store::{lemma_items_push, lemma_items_remove, lemma_vec_items, ListStore};
use vstd::prelude::*;

verus! {

/// What a completed command reports: an outcome tag, with an immutable
/// snapshot of the list at completion time where one is shown to the user.
pub enum Outcome {
    Created(Vec<String>),
    Added(Vec<String>),
    Bought(Vec<String>),
    Help,
    Unknown,
}

/// The mathematical model of an `Outcome`: snapshots as their contents.
pub enum SpecOutcome {
    Created(Seq<Seq<char>>),
    Added(Seq<Seq<char>>),
    Bought(Seq<Seq<char>>),
    Help,
    Unknown,
}

impl View for Outcome {
    type V = SpecOutcome;

    open spec fn view(&self) -> SpecOutcome {
        match self {
            Outcome::Created(v) => SpecOutcome::Created(v.deep_view()),
            Outcome::Added(v) => SpecOutcome::Added(v.deep_view()),
            Outcome::Bought(v) => SpecOutcome::Bought(v.deep_view()),
            Outcome::Help => SpecOutcome::Help,
            Outcome::Unknown => SpecOutcome::Unknown,
        }
    }
}

/// The list a command leaves behind, given the list it found. `NewList`
/// resets to empty whatever was there; `AddItem` appends; `MarkBought`
/// removes the item at the 0-based position if it is in range and otherwise
/// leaves the list unchanged; `Help` and `Unrecognized` touch nothing.
pub open spec fn step_list(l: Seq<Seq<char>>, c: SpecCommand) -> Seq<Seq<char>> {
    match c {
        SpecCommand::NewList => Seq::empty(),
        SpecCommand::AddItem(x) => l.push(x),
        SpecCommand::MarkBought(i) => if 0 <= i < l.len() {
            l.remove(i)
        } else {
            l
        },
        SpecCommand::Help => l,
        SpecCommand::Unrecognized => l,
    }
}

/// The outcome a command reports, given the list it found: the tag of its
/// family, carrying a snapshot of the list as the command leaves it.
pub open spec fn step_outcome(l: Seq<Seq<char>>, c: SpecCommand) -> SpecOutcome {
    match c {
        SpecCommand::NewList => SpecOutcome::Created(Seq::empty()),
        SpecCommand::AddItem(x) => SpecOutcome::Added(l.push(x)),
        SpecCommand::MarkBought(i) => SpecOutcome::Bought(step_list(l, c)),
        SpecCommand::Help => SpecOutcome::Help,
        SpecCommand::Unrecognized => SpecOutcome::Unknown,
    }
}

/// Apply one command for one tenant: the tenant's list becomes
/// `step_list` of what it was, the report is `step_outcome` of what it was,
/// and no other tenant's list changes.
pub fn apply_command(store: &mut ListStore, tenant: u64, cmd: Command) -> (r: Outcome)
    ensures
        final(store).tenant_list(tenant) == step_list(old(store).tenant_list(tenant), cmd@),
        r@ == step_outcome(old(store).tenant_list(tenant), cmd@),
        forall|u: u64| u != tenant ==> final(store).tenant_list(u) == old(store).tenant_list(u),
{
    broadcast use lemma_vec_items;

    match cmd {
        Command::NewList => {
            let fresh: Vec<String> = Vec::new();
            let snap: Vec<String> = Vec::new();
            proof {
                assert(fresh.deep_view() =~= Seq::<Seq<char>>::empty());
                assert(snap.deep_view() =~= Seq::<Seq<char>>::empty());
            }
            store.replace(tenant, fresh);
            Outcome::Created(snap)
        },
        Command::AddItem(text) => {
            let mut l = store.get(tenant);
            proof {
                lemma_items_push(l@, text);
            }
            l.push(text);
            let snap = l.clone();
            proof {
                broadcast use vstd::std_specs::vec::vec_clone_deep_view_proof;

            }
            store.replace(tenant, l);
            Outcome::Added(snap)
        },
        Command::MarkBought(idx) => {
            let mut l = store.get(tenant);
            if 0 <= idx && (idx as u64) < (l.len() as u64) {
                proof {
                    lemma_items_remove(l@, idx as int);
                }
                l.remove(idx as usize);
            }
            let snap = l.clone();
            proof {
                broadcast use vstd::std_specs::vec::vec_clone_deep_view_proof;

            }
            store.replace(tenant, l);
            Outcome::Bought(snap)
        },
        Command::Help => Outcome::Help,
        Command::Unrecognized => Outcome::Unknown,
    }
}

/// The whole path of one inbound message: decide whether it is a command at
/// all, parse it, and apply it. Messages that open with neither `!` nor `-`
/// are ignored without touching the store or even parsing.
pub fn dispatch(store: &mut ListStore, tenant: u64, msg: &str) -> (r: Option<Outcome>)
    ensures
        r is Some <==> spec_should_handle(msg@),
        match r {
            Some(o) => o@ == step_outcome(old(store).tenant_list(tenant), spec_parse(msg@)),
            None => *final(store) == *old(store),
        },
        spec_should_handle(msg@) ==> final(store).tenant_list(tenant) == step_list(
            old(store).tenant_list(tenant),
            spec_parse(msg@),
        ),
        !spec_should_handle(msg@) ==> final(store).tenant_list(tenant) == old(store).tenant_list(
            tenant,
        ),
        forall|u: u64| u != tenant ==> final(store).tenant_list(u) == old(store).tenant_list(u),
{
    if !should_handle(msg) {
        return None;
    }
    let cmd = parse(msg);
    Some(apply_command(store, tenant, cmd))
}

} // verus!
