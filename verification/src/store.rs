//! The per-tenant state store: a mapping from tenant id to that tenant's
//! ordered list of item strings.
//!
//! A tenant's list is implicitly empty on first access; absence and "empty"
//! are equivalent states. Each `&mut self` operation is one atomic step on
//! exactly one tenant's entry and leaves every other tenant's list untouched.

use std::collections::HashMap;
use vstd::prelude::*;

verus! {

broadcast use vstd::std_specs::hash::group_hash_axioms;

/// The mathematical contents of a list of item strings: each item as its
/// character sequence.
pub open spec fn items_of(s: Seq<String>) -> Seq<Seq<char>> {
    Seq::new(s.len(), |i: int| s[i]@)
}

/// A `Vec` of strings views as `items_of` its sequence of strings.
pub broadcast proof fn lemma_vec_items(v: Vec<String>)
    ensures
        #[trigger] v.deep_view() == items_of(v@),
{
    assert(v.deep_view() =~= items_of(v@));
}

/// Appending a string appends its character sequence to the contents.
pub proof fn lemma_items_push(s: Seq<String>, x: String)
    ensures
        items_of(s.push(x)) == items_of(s).push(x@),
{
    assert(items_of(s.push(x)) =~= items_of(s).push(x@));
}

/// Removing a string removes its character sequence from the contents.
pub proof fn lemma_items_remove(s: Seq<String>, i: int)
    requires
        0 <= i < s.len(),
    ensures
        items_of(s.remove(i)) == items_of(s).remove(i),
{
    assert(items_of(s.remove(i)) =~= items_of(s).remove(i));
}

pub struct ListStore {
    lists: HashMap<u64, Vec<String>>,
}

impl ListStore {
    /// The list a tenant currently owns; unseen tenants own the empty list.
    pub closed spec fn tenant_list(self, t: u64) -> Seq<Seq<char>> {
        if self.lists@.contains_key(t) {
            self.lists@[t].deep_view()
        } else {
            Seq::empty()
        }
    }

    pub fn new() -> (s: Self)
        ensures
            forall|t: u64| s.tenant_list(t) == Seq::<Seq<char>>::empty(),
    {
        ListStore { lists: HashMap::new() }
    }

    /// The current list of the tenant, as an owned snapshot; never fails.
    pub fn get(&self, tenant: u64) -> (r: Vec<String>)
        ensures
            r.deep_view() == self.tenant_list(tenant),
    {
        match self.lists.get(&tenant) {
            Some(v) => {
                let r = v.clone();
                proof {
                    broadcast use vstd::std_specs::vec::vec_clone_deep_view_proof;

                }
                r
            },
            None => {
                let r: Vec<String> = Vec::new();
                proof {
                    assert(r.deep_view() =~= Seq::<Seq<char>>::empty());
                }
                r
            },
        }
    }

    /// Atomically set the tenant's list to `new_list`; never fails, and no
    /// other tenant's list changes.
    pub fn replace(&mut self, tenant: u64, new_list: Vec<String>)
        ensures
            final(self).tenant_list(tenant) == new_list.deep_view(),
            forall|u: u64|
                u != tenant ==> final(self).tenant_list(u) == old(self).tenant_list(u),
    {
        self.lists.insert(tenant, new_list);
    }

    /// Atomically read the tenant's list, apply a pure transform, and write
    /// the result back as one indivisible step. No other tenant's list
    /// changes, so operations on different tenants never disturb each other.
    pub fn mutate<F: FnOnce(Vec<String>) -> Vec<String>>(&mut self, tenant: u64, f: F)
        requires
            forall|v: Vec<String>|
                v.deep_view() == old(self).tenant_list(tenant) ==> call_requires(f, (v,)),
        ensures
            exists|v: Vec<String>, r: Vec<String>|
                v.deep_view() == old(self).tenant_list(tenant) && #[trigger] call_ensures(
                    f,
                    (v,),
                    r,
                ) && final(self).tenant_list(tenant) == r.deep_view(),
            forall|u: u64|
                u != tenant ==> final(self).tenant_list(u) == old(self).tenant_list(u),
    {
        let cur = self.get(tenant);
        let next = f(cur);
        self.replace(tenant, next);
    }
}

} // verus!
