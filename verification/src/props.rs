//! The local/remote shape pairing and the list projection handed to the
//! rendering collaborator.
//!
//! Each entity type pairs a remote shape — exactly the fields the server
//! round-trips — with local-only fields that never travel. The pairing is an
//! explicit mapping, implemented per entity and held to the round-trip law:
//! extracting the remote shape of a freshly constructed value reproduces the
//! remote record it was constructed from, exactly.
//!
//! Projection turns a ready entry's rows, in the server's order, into keyed
//! items: each carries the constructed shape, a key made of the record's
//! stable identity — so the renderer can diff across re-projections — and a
//! self-reference bound to the row's position and identity. Filtering is a
//! view concern: an excluded item disappears from the output, never from
//! the cache.

use vstd::prelude::*;

use crate::id::{HasID, ID, IdView};
use crate::query_state::QueryState;
use crate::self_ref::SurrealSelfRef;

verus! {

/// An entity's pairing of its server-facing and UI-facing shapes.
pub trait SurrealProps: Sized {
    /// The server-facing shape: exactly what is persisted and
    /// round-tripped.
    type Remote;

    /// The local-only fields: presentation state that never travels.
    type Local;

    /// What constructing from a remote record and local fields yields.
    spec fn spec_construct(remote: Self::Remote, local: Self::Local) -> Self;

    /// The remote shape this value would persist as.
    spec fn remote_part(&self) -> Self::Remote;

    /// The round-trip law every implementation owes: construction loses
    /// nothing of the remote record.
    proof fn remote_round_trip(remote: Self::Remote, local: Self::Local)
        ensures
            Self::spec_construct(remote, local).remote_part() == remote,
    ;

    /// Merge a remote record with local-only fields into the full shape.
    fn construct(remote: &Self::Remote, local: &Self::Local) -> (r: Self)
        ensures
            r == Self::spec_construct(*remote, *local),
    ;

    /// Extract the remote shape to send to the server.
    fn get_remote(&self) -> (r: Self::Remote)
        ensures
            r == self.remote_part(),
    ;
}

/// Constructing a full shape from a remote record and then extracting its
/// remote shape again reproduces the original record exactly, whatever the
/// local fields were.
pub proof fn lemma_local_remote_round_trip<T: SurrealProps>(remote: T::Remote, local: T::Local)
    ensures
        T::spec_construct(remote, local).remote_part() == remote,
{
    T::remote_round_trip(remote, local);
}

/// A child record attached statically to a local shape: the fetched value
/// together with the foreign key it answers to.
#[derive(Debug)]
pub struct StaticChild<T> {
    key: ID,
    value: T,
}

impl<T: HasID> StaticChild<T> {
    /// Attach a fetched child under its own identity.
    pub fn new(value: T) -> (r: StaticChild<T>)
        ensures
            r.spec_key() == value.spec_id(),
            r.spec_value() == value,
    {
        let key = value.id();
        StaticChild { key, value }
    }
}

impl<T> StaticChild<T> {
    /// The foreign key this child answers to.
    pub closed spec fn spec_key(&self) -> IdView {
        self.key@
    }

    /// The child value itself.
    pub closed spec fn spec_value(&self) -> T {
        self.value
    }

    /// The foreign key this child answers to.
    pub fn key(&self) -> (r: &ID)
        ensures
            r@ == self.spec_key(),
    {
        &self.key
    }

    /// The child value itself.
    pub fn get(&self) -> (r: &T)
        ensures
            *r == self.spec_value(),
    {
        &self.value
    }
}

/// One projected item: the render key, the constructed shape, and the
/// item's self-reference.
pub type Projected<T> = (String, T, SurrealSelfRef);

/// Project a cache entry's rows into keyed items for the renderer: one item
/// per row, in list order, each constructed from its record and the shared
/// local fields, keyed by the record's identity text, and handed a
/// self-reference bound to its position and identity. An entry that is not
/// ready has no rows and projects to nothing.
pub fn project<T: SurrealProps + HasID>(state: &QueryState<T::Remote>, local: &T::Local) -> (out:
    Vec<Projected<T>>)
    requires
        state@.wf(),
    ensures
        out@.len() == state@.records.len(),
        forall|i: int|
            0 <= i < out@.len() ==> {
                let item = T::spec_construct(state@.records[i], *local);
                &&& (#[trigger] out@[i]).1 == item
                &&& out@[i].0@ == item.spec_id().compact()
                &&& out@[i].2.index == i
                &&& out@[i].2.id@ == item.spec_id()
            },
{
    let records = state.get_list();
    let n = records.len();
    let mut out: Vec<Projected<T>> = Vec::new();
    let mut i: usize = 0;
    while i < n
        invariant
            n == records@.len(),
            records@ == state@.records,
            0 <= i <= n,
            out@.len() == i,
            forall|j: int|
                0 <= j < i ==> {
                    let item = T::spec_construct(state@.records[j], *local);
                    &&& (#[trigger] out@[j]).1 == item
                    &&& out@[j].0@ == item.spec_id().compact()
                    &&& out@[j].2.index == j
                    &&& out@[j].2.id@ == item.spec_id()
                },
        decreases n - i,
    {
        let item = T::construct(&records[i], local);
        let id = item.id();
        let key = id.to_compact();
        let self_ref = SurrealSelfRef { index: i, id };
        out.push((key, item, self_ref));
        i = i + 1;
    }
    out
}

/// The rows that survive a filter mask, each still paired with the position
/// it holds in the unfiltered list.
pub open spec fn spec_kept<R>(records: Seq<R>, keep: Seq<bool>) -> Seq<(int, R)>
    decreases records.len(),
{
    if records.len() == 0 {
        Seq::empty()
    } else {
        let rest = spec_kept(records.drop_last(), keep.drop_last());
        if keep.len() >= records.len() && keep[records.len() - 1] {
            rest.push((records.len() - 1, records.last()))
        } else {
            rest
        }
    }
}

/// Project only the rows the caller's predicate admitted, given as a mask
/// over the unfiltered list. Excluded rows disappear from the output and
/// from nothing else: each surviving item keeps the key, shape and
/// self-reference it would have had unfiltered, its index still naming its
/// position in the entry's full list.
pub fn project_where<T: SurrealProps + HasID>(
    state: &QueryState<T::Remote>,
    local: &T::Local,
    keep: &Vec<bool>,
) -> (out: Vec<Projected<T>>)
    requires
        state@.wf(),
        keep@.len() == state@.records.len(),
    ensures
        out@.len() == spec_kept(state@.records, keep@).len(),
        forall|k: int|
            0 <= k < out@.len() ==> {
                let pair = spec_kept(state@.records, keep@)[k];
                let item = T::spec_construct(pair.1, *local);
                &&& (#[trigger] out@[k]).1 == item
                &&& out@[k].0@ == item.spec_id().compact()
                &&& out@[k].2.index == pair.0
                &&& out@[k].2.id@ == item.spec_id()
            },
{
    let records = state.get_list();
    let n = records.len();
    let mut out: Vec<Projected<T>> = Vec::new();
    let mut i: usize = 0;
    while i < n
        invariant
            n == records@.len(),
            records@ == state@.records,
            keep@.len() == n,
            0 <= i <= n,
            out@.len() == spec_kept(records@.subrange(0, i as int), keep@.subrange(0, i as int)).len(),
            forall|k: int|
                0 <= k < out@.len() ==> {
                    let pair = spec_kept(
                        records@.subrange(0, i as int),
                        keep@.subrange(0, i as int),
                    )[k];
                    let item = T::spec_construct(pair.1, *local);
                    &&& (#[trigger] out@[k]).1 == item
                    &&& out@[k].0@ == item.spec_id().compact()
                    &&& out@[k].2.index == pair.0
                    &&& out@[k].2.id@ == item.spec_id()
                },
        decreases n - i,
    {
        let ghost pre_records = records@.subrange(0, i as int);
        let ghost pre_keep = keep@.subrange(0, i as int);
        let ghost cur_records = records@.subrange(0, i + 1);
        let ghost cur_keep = keep@.subrange(0, i + 1);
        proof {
            assert(cur_records.drop_last() =~= pre_records);
            assert(cur_keep.drop_last() =~= pre_keep);
            assert(cur_records.last() == records@[i as int]);
        }
        if keep[i] {
            let item = T::construct(&records[i], local);
            let id = item.id();
            let key = id.to_compact();
            let self_ref = SurrealSelfRef { index: i, id };
            out.push((key, item, self_ref));
        }
        i = i + 1;
    }
    proof {
        assert(records@.subrange(0, n as int) =~= records@);
        assert(keep@.subrange(0, n as int) =~= keep@);
    }
    out
}

} // verus!
