//! Handles and the registry that owns the values they name.

use std::collections::hash_map::Entry;
use std::collections::HashMap;
use vstd::prelude::*;
use vstd::std_specs::hash::spec_keys_iter;
use vstd::std_specs::iter::IteratorSpec;

verus! {

/// An opaque handle to a value held by a [`RidOwner`].
#[derive(Eq, PartialEq, Hash, Clone, Copy, Debug, Structural)]
pub struct Rid {
    id: u64,
}

impl Rid {
    /// The place of this handle in the order in which its registry issued
    /// handles, counted from zero.
    pub closed spec fn index(self) -> u64 {
        self.id
    }

    /// Two handles with the same index are the same handle.
    pub proof fn lemma_index_injective(a: Rid, b: Rid)
        ensures
            a.index() == b.index() <==> a == b,
    {
    }

    fn create(id: u64) -> (rid: Self)
        ensures
            rid.id == id,
    {
        Self { id: id }
    }

    /// The handle as a key for maps from handles.
    pub(crate) fn key(self) -> (k: u64)
        ensures
            k == self.index(),
    {
        self.id
    }
}

/// Whether `order` names every live handle of `entries` once, and no other.
pub open spec fn lists_handles<T>(entries: Map<Rid, T>, order: Seq<Rid>) -> bool {
    order.no_duplicates() && order.to_set() == entries.dom()
}

/// What `get` finds in `entries` under `rid`.
pub open spec fn lookup<T>(entries: Map<Rid, T>, rid: Rid) -> Option<T> {
    if entries.contains_key(rid) {
        Some(entries[rid])
    } else {
        None
    }
}

/// A value that is added is found under its handle, and what is removed is no
/// longer found. Removing what is not there changes nothing, so removing
/// twice is removing once.
pub proof fn lemma_round_trip<T>(entries: Map<Rid, T>, rid: Rid, value: T)
    ensures
        lookup(entries.insert(rid, value), rid) == Some(value),
        lookup(entries.remove(rid), rid) == None::<T>,
        !entries.contains_key(rid) ==> entries.remove(rid) == entries,
        entries.remove(rid).remove(rid) == entries.remove(rid),
        entries.insert(rid, value).remove(rid) == entries.remove(rid),
{
    assert(!entries.contains_key(rid) ==> entries.remove(rid) =~= entries);
    assert(entries.remove(rid).remove(rid) =~= entries.remove(rid));
    assert(entries.insert(rid, value).remove(rid) =~= entries.remove(rid));
}

/// Adding or removing under one handle leaves what the other handles name.
pub proof fn lemma_other_handles<T>(entries: Map<Rid, T>, rid: Rid, other: Rid, value: T)
    requires
        rid != other,
    ensures
        lookup(entries.insert(rid, value), other) == lookup(entries, other),
        lookup(entries.remove(rid), other) == lookup(entries, other),
{
}

/// Handles issued at different times differ: a handle is never issued twice.
pub proof fn lemma_never_reissued(earlier: Rid, later: Rid)
    requires
        earlier.index() < later.index(),
    ensures
        earlier != later,
{
}

/// A registry that owns values of type `T` and names each by a handle of its
/// own. A handle, once issued, is never issued again.
pub struct RidOwner<T> {
    data: HashMap<u64, T>,
    current_id: u64,
}

impl<T> View for RidOwner<T> {
    type V = Map<Rid, T>;

    /// The live entries: each live handle with the value it names.
    closed spec fn view(&self) -> Map<Rid, T> {
        Map::new(|r: Rid| self.data@.contains_key(r.id), |r: Rid| self.data@[r.id])
    }
}

impl<T> RidOwner<T> {
    /// How many handles this registry has issued so far, those of removed
    /// values included.
    pub closed spec fn issued(&self) -> nat {
        self.current_id as nat
    }

    /// Every live handle is one of those issued so far.
    pub open spec fn wf(&self) -> bool {
        forall|r: Rid| #[trigger] self@.contains_key(r) ==> r.index() < self.issued()
    }

    /// How many handles this registry has issued so far.
    pub fn handles_issued(&self) -> (count: u64)
        ensures
            count == self.issued(),
    {
        self.current_id
    }

    /// An empty registry.
    pub fn new() -> (owner: Self)
        ensures
            owner.wf(),
            owner@ == Map::<Rid, T>::empty(),
            owner.issued() == 0,
    {
        let owner = Self { data: HashMap::new(), current_id: 0 };
        assert(owner@ =~= Map::<Rid, T>::empty());
        owner
    }

    /// Takes `obj` into the registry and returns the handle that names it
    /// from now on: one that was never issued before.
    pub fn add(&mut self, obj: T) -> (rid: Rid)
        requires
            old(self).issued() < u64::MAX,
        ensures
            rid.index() == old(self).issued(),
            final(self)@ == old(self)@.insert(rid, obj),
            final(self).issued() == old(self).issued() + 1,
            old(self).wf() ==> final(self).wf() && !old(self)@.contains_key(rid),
    {
        broadcast use vstd::std_specs::hash::group_hash_axioms;

        let rid = self.next_rid();
        self.data.insert(rid.id, obj);
        assert(self@ =~= old(self)@.insert(rid, obj));
        assert(old(self).wf() ==> self.wf()) by {
            assert forall|r: Rid| old(self).wf() && #[trigger] self@.contains_key(r) implies r.index()
                < self.issued() by {
                if r != rid {
                    assert(old(self)@.contains_key(r));
                }
            }
        }
        rid
    }

    /// The value that `rid` names, if it is live.
    pub fn get<'a>(&'a self, rid: Rid) -> (value: Option<&'a T>)
        ensures
            match value {
                Some(found) => lookup(self@, rid) == Some(*found),
                None => lookup(self@, rid).is_none(),
            },
    {
        broadcast use vstd::std_specs::hash::group_hash_axioms;

        self.data.get(&rid.id)
    }

    /// Lets `f` change the value that `rid` names. Does nothing, and does not
    /// call `f`, if `rid` is not live.
    pub fn modify<F>(&mut self, rid: Rid, f: F) where F: FnOnce(&mut T)
        requires
            old(self)@.contains_key(rid) ==> forall|value: &mut T|
                *value == old(self)@[rid] ==> call_requires(f, (value,)),
        ensures
            final(self).issued() == old(self).issued(),
            old(self).wf() ==> final(self).wf(),
            !old(self)@.contains_key(rid) ==> final(self)@ == old(self)@,
            old(self)@.contains_key(rid) ==> final(self)@ == old(self)@.insert(
                rid,
                final(self)@[rid],
            ),
            old(self)@.contains_key(rid) ==> exists|value: &mut T|
                *value == old(self)@[rid] && *final(value) == final(self)@[rid] && call_ensures(
                    f,
                    (value,),
                    (),
                ),
    {
        broadcast use vstd::std_specs::hash::group_hash_axioms;

        match self.data.entry(rid.id) {
            Entry::Occupied(mut e) => {
                f(e.get_mut());
                assert(self@ =~= old(self)@.insert(rid, self@[rid]));
            },
            Entry::Vacant(_) => {
                assert(self@ =~= old(self)@);
            },
        }
        assert(old(self).wf() ==> self.wf()) by {
            assert forall|r: Rid| old(self).wf() && #[trigger] self@.contains_key(r) implies r.index()
                < self.issued() by {
                assert(old(self)@.contains_key(r));
            }
        }
    }

    /// Drops the value that `rid` names. Does nothing if `rid` is not live.
    pub fn remove(&mut self, rid: Rid)
        ensures
            final(self)@ == old(self)@.remove(rid),
            final(self).issued() == old(self).issued(),
            old(self).wf() ==> final(self).wf(),
    {
        broadcast use vstd::std_specs::hash::group_hash_axioms;

        self.data.remove(&rid.id);
        assert(self@ =~= old(self)@.remove(rid));
        assert(old(self).wf() ==> self.wf()) by {
            assert forall|r: Rid| old(self).wf() && #[trigger] self@.contains_key(r) implies r.index()
                < self.issued() by {
                assert(old(self)@.contains_key(r));
            }
        }
    }

    /// Walks the live values, in no particular order.
    pub fn value_iter<'a>(&'a self) -> (iter: ValueIterator<'a, T>)
        ensures
            iter.entries() == self@,
            lists_handles(self@, iter.handles()),
            iter@ == iter.handles().map_values(|r: Rid| self@[r]),
    {
        let order = self.handles();
        assert forall|i: int| 0 <= i < order@.len() implies self@.contains_key(#[trigger] order@[i]) by {
            assert(order@.to_set().contains(order@[i]));
        }
        assert(order@.skip(0) =~= order@);
        ValueIterator { owner: self, order: order, position: 0 }
    }

    /// Walks the live handles, in no particular order.
    pub fn rid_iter<'a>(&'a self) -> (iter: RidIterator<'a, T>)
        ensures
            iter.entries() == self@,
            lists_handles(self@, iter@),
    {
        let order = self.handles();
        assert(order@.skip(0) =~= order@);
        RidIterator { owner: self, order: order, position: 0 }
    }

    /// Walks the live handles, each with its value, in no particular order.
    pub fn rid_value_iter<'a>(&'a self) -> (iter: RidValueIterator<'a, T>)
        ensures
            iter.entries() == self@,
            lists_handles(self@, iter.handles()),
            iter@ == iter.handles().map_values(|r: Rid| (r, self@[r])),
    {
        let order = self.handles();
        assert forall|i: int| 0 <= i < order@.len() implies self@.contains_key(#[trigger] order@[i]) by {
            assert(order@.to_set().contains(order@[i]));
        }
        assert(order@.skip(0) =~= order@);
        RidValueIterator { owner: self, order: order, position: 0 }
    }

    /// The live handles, each once, in the order in which the map holds them.
    fn handles(&self) -> (order: Vec<Rid>)
        ensures
            lists_handles(self@, order@),
    {
        broadcast use vstd::std_specs::hash::group_hash_axioms;

        let mut order: Vec<Rid> = Vec::new();
        let ghost keys = spec_keys_iter(&self.data).remaining();
        for k in it: self.data.keys()
            invariant
                it.seq() == keys,
                order@.len() == it.index(),
                forall|i: int| 0 <= i < order@.len() ==> (#[trigger] order@[i]).id == *keys[i],
        {
            order.push(Rid::create(*k));
        }
        proof {
            assert(order@.len() == keys.len());
            assert(keys.no_duplicates());
            assert(keys.unref().to_set() == self.data@.dom());
            assert forall|i: int, j: int| 0 <= i < order@.len() && 0 <= j < order@.len() && i != j implies order@[i] != order@[j] by {
                assert(keys[i] != keys[j]);
            }
            assert forall|r: Rid| order@.to_set().contains(r) <==> self@.dom().contains(r) by {
                if order@.to_set().contains(r) {
                    let i = choose|i: int| 0 <= i < order@.len() && order@[i] == r;
                    assert(keys.unref()[i] == r.id);
                    assert(keys.unref().to_set().contains(r.id));
                }
                if self@.dom().contains(r) {
                    assert(keys.unref().to_set().contains(r.id));
                    let i = choose|i: int| 0 <= i < keys.unref().len() && keys.unref()[i] == r.id;
                    assert(order@[i] == r);
                }
            }
            assert(order@.to_set() =~= self@.dom());
        }
        order
    }

    fn next_rid(&mut self) -> (rid: Rid)
        requires
            old(self).current_id < u64::MAX,
        ensures
            rid.id == old(self).current_id,
            final(self).current_id == old(self).current_id + 1,
            final(self).data == old(self).data,
    {
        let rid = Rid::create(self.current_id);
        self.current_id += 1;
        rid
    }
}

/// A walk over the live values of a registry. Its view is the values still
/// to come, in the order in which they come.
pub struct ValueIterator<'a, T> {
    owner: &'a RidOwner<T>,
    order: Vec<Rid>,
    position: usize,
}

impl<'a, T> View for ValueIterator<'a, T> {
    type V = Seq<T>;

    closed spec fn view(&self) -> Seq<T> {
        self.handles().map_values(|r: Rid| self.owner@[r])
    }
}

impl<'a, T> ValueIterator<'a, T> {
    #[verifier::type_invariant]
    spec fn inv(self) -> bool {
        &&& self.position <= self.order@.len()
        &&& forall|i: int| 0 <= i < self.order@.len() ==> self.owner@.contains_key(#[trigger] self.order@[i])
    }

    /// The entries of the registry that is walked.
    pub closed spec fn entries(&self) -> Map<Rid, T> {
        self.owner@
    }

    /// The handles of the values still to come, in the order in which they come.
    pub closed spec fn handles(&self) -> Seq<Rid> {
        self.order@.skip(self.position as int)
    }

    /// The values still to come are those that the handles still to come name.
    pub proof fn lemma_view(&self)
        ensures
            self@ == self.handles().map_values(|r: Rid| self.entries()[r]),
    {
    }

    /// The next value, or `None` when every live value has been given.
    pub fn next(&mut self) -> (item: Option<&'a T>)
        ensures
            final(self).entries() == old(self).entries(),
            match item {
                Some(value) => {
                    &&& old(self).handles().len() > 0
                    &&& *value == old(self).entries()[old(self).handles()[0]]
                    &&& *value == old(self)@[0]
                    &&& final(self).handles() == old(self).handles().drop_first()
                    &&& final(self)@ == old(self)@.drop_first()
                },
                None => {
                    &&& old(self).handles().len() == 0
                    &&& final(self).handles() == old(self).handles()
                    &&& final(self)@ == old(self)@
                },
            },
    {
        proof {
            use_type_invariant(&*self);
        }
        if self.position < self.order.len() {
            let rid = self.order[self.position];
            self.position = self.position + 1;
            assert(self.handles() =~= old(self).handles().drop_first());
            assert(self@ =~= old(self)@.drop_first());
            self.owner.get(rid)
        } else {
            None
        }
    }
}

/// A walk over the live handles of a registry. Its view is the handles still
/// to come, in the order in which they come.
pub struct RidIterator<'a, T> {
    owner: &'a RidOwner<T>,
    order: Vec<Rid>,
    position: usize,
}

impl<'a, T> View for RidIterator<'a, T> {
    type V = Seq<Rid>;

    closed spec fn view(&self) -> Seq<Rid> {
        self.order@.skip(self.position as int)
    }
}

impl<'a, T> RidIterator<'a, T> {
    #[verifier::type_invariant]
    spec fn inv(self) -> bool {
        self.position <= self.order@.len()
    }

    /// The entries of the registry that is walked.
    pub closed spec fn entries(&self) -> Map<Rid, T> {
        self.owner@
    }

    /// The next handle, or `None` when every live handle has been given.
    pub fn next(&mut self) -> (item: Option<Rid>)
        ensures
            final(self).entries() == old(self).entries(),
            match item {
                Some(rid) => {
                    &&& old(self)@.len() > 0
                    &&& rid == old(self)@[0]
                    &&& final(self)@ == old(self)@.drop_first()
                },
                None => old(self)@.len() == 0 && final(self)@ == old(self)@,
            },
    {
        proof {
            use_type_invariant(&*self);
        }
        if self.position < self.order.len() {
            let rid = self.order[self.position];
            self.position = self.position + 1;
            assert(self@ =~= old(self)@.drop_first());
            Some(rid)
        } else {
            None
        }
    }
}

/// A walk over the live entries of a registry. Its view is the entries still
/// to come, in the order in which they come.
pub struct RidValueIterator<'a, T> {
    owner: &'a RidOwner<T>,
    order: Vec<Rid>,
    position: usize,
}

impl<'a, T> View for RidValueIterator<'a, T> {
    type V = Seq<(Rid, T)>;

    closed spec fn view(&self) -> Seq<(Rid, T)> {
        self.handles().map_values(|r: Rid| (r, self.owner@[r]))
    }
}

impl<'a, T> RidValueIterator<'a, T> {
    #[verifier::type_invariant]
    spec fn inv(self) -> bool {
        &&& self.position <= self.order@.len()
        &&& forall|i: int| 0 <= i < self.order@.len() ==> self.owner@.contains_key(#[trigger] self.order@[i])
    }

    /// The entries of the registry that is walked.
    pub closed spec fn entries(&self) -> Map<Rid, T> {
        self.owner@
    }

    /// The handles of the entries still to come, in the order in which they come.
    pub closed spec fn handles(&self) -> Seq<Rid> {
        self.order@.skip(self.position as int)
    }

    /// The entries still to come are the handles still to come, each with
    /// the value it names.
    pub proof fn lemma_view(&self)
        ensures
            self@ == self.handles().map_values(|r: Rid| (r, self.entries()[r])),
    {
    }

    /// The next entry, or `None` when every live entry has been given.
    pub fn next(&mut self) -> (item: Option<(Rid, &'a T)>)
        ensures
            final(self).entries() == old(self).entries(),
            match item {
                Some((rid, value)) => {
                    &&& old(self).handles().len() > 0
                    &&& rid == old(self).handles()[0]
                    &&& old(self).entries().contains_key(rid)
                    &&& *value == old(self).entries()[rid]
                    &&& (rid, *value) == old(self)@[0]
                    &&& final(self).handles() == old(self).handles().drop_first()
                    &&& final(self)@ == old(self)@.drop_first()
                },
                None => {
                    &&& old(self).handles().len() == 0
                    &&& final(self).handles() == old(self).handles()
                    &&& final(self)@ == old(self)@
                },
            },
    {
        proof {
            use_type_invariant(&*self);
        }
        if self.position < self.order.len() {
            let rid = self.order[self.position];
            self.position = self.position + 1;
            assert(self.handles() =~= old(self).handles().drop_first());
            assert(self@ =~= old(self)@.drop_first());
            match self.owner.get(rid) {
                Some(value) => Some((rid, value)),
                None => None,
            }
        } else {
            None
        }
    }
}

} // verus!
