//! Self-references: a rendered item's handle back to its slot in a cache
//! entry, used for targeted writes.
//!
//! A self-reference pairs the record's stable identity with the position it
//! was projected at. The captured index is advisory — the list may have
//! moved under it — so a write may either trust it (`set`, the fast path
//! whose caller re-validated) or re-locate the identity at resolution time
//! (`write_resolved`), which is what the reconciliation driver does.
//! A self-reference is always handed down by the projection that owns the
//! item; looking one up where none was provided is a programmer error that
//! fails loudly rather than returning a usable handle.

use vstd::prelude::*;

use crate::error::{ContextKind, SurrealError};
use crate::id::{HasID, ID, IdView};
use crate::query_state::{QueryState, QueryStateView};

verus! {

/// The slot of the first record carrying the given identity.
pub open spec fn spec_find_id<Remote: HasID>(records: Seq<Remote>, id: IdView) -> Option<int>
    decreases records.len(),
{
    if records.len() == 0 {
        None
    } else if records[0].spec_id() == id {
        Some(0)
    } else {
        match spec_find_id(records.drop_first(), id) {
            Some(i) => Some(i + 1),
            None => None,
        }
    }
}

proof fn lemma_find_id_witness<Remote: HasID>(records: Seq<Remote>, id: IdView, i: int)
    requires
        0 <= i < records.len(),
        records[i].spec_id() == id,
        forall|j: int| 0 <= j < i ==> (#[trigger] records[j]).spec_id() != id,
    ensures
        spec_find_id(records, id) == Some(i),
    decreases records.len(),
{
    if i > 0 {
        lemma_find_id_witness(records.drop_first(), id, i - 1);
    }
}

proof fn lemma_find_id_none<Remote: HasID>(records: Seq<Remote>, id: IdView)
    requires
        forall|j: int| 0 <= j < records.len() ==> (#[trigger] records[j]).spec_id() != id,
    ensures
        spec_find_id(records, id) is None,
    decreases records.len(),
{
    if records.len() > 0 {
        lemma_find_id_none(records.drop_first(), id);
    }
}

/// A found slot is in range and holds the identity it was found for.
pub proof fn lemma_find_id_in_range<Remote: HasID>(records: Seq<Remote>, id: IdView)
    ensures
        spec_find_id(records, id) matches Some(i) ==> 0 <= i < records.len()
            && records[i].spec_id() == id,
    decreases records.len(),
{
    if records.len() > 0 {
        lemma_find_id_in_range(records.drop_first(), id);
    }
}

/// A rendered item's capability to write its own slot.
#[derive(Debug)]
pub struct SurrealSelfRef {
    /// The position the item was projected at; advisory.
    pub index: usize,
    /// The record's stable identity.
    pub id: ID,
}

impl SurrealSelfRef {
    /// An identical copy.
    pub fn duplicate(&self) -> (r: SurrealSelfRef)
        ensures
            r.index == self.index,
            r.id@ == self.id@,
    {
        SurrealSelfRef { index: self.index, id: self.id.duplicate() }
    }

    /// Write through the captured index: replace this item's slot, or drop
    /// it. The caller owes the index's validity for the entry's current
    /// list.
    pub fn set<Remote>(&self, state: &mut QueryState<Remote>, data: Option<Remote>)
        requires
            old(state)@.wf(),
            self.index < old(state)@.records.len(),
        ensures
            data is Some ==> final(state)@ == (QueryStateView {
                records: old(state)@.records.update(self.index as int, data->0),
                error: None,
                ..old(state)@
            }),
            data is None ==> final(state)@ == (QueryStateView {
                records: old(state)@.records.remove(self.index as int),
                error: None,
                ..old(state)@
            }),
            final(state)@.wf(),
    {
        state.set_target(self.index, data);
    }

    /// Where this identity sits in the entry's current list, if anywhere.
    pub fn current_index<Remote: HasID>(&self, state: &QueryState<Remote>) -> (r: Option<usize>)
        requires
            state@.wf(),
        ensures
            r matches Some(i) ==> spec_find_id(state@.records, self.id@) == Some(i as int),
            r is None ==> spec_find_id(state@.records, self.id@) is None,
    {
        let records = state.get_list();
        let n = records.len();
        let mut i: usize = 0;
        while i < n
            invariant
                n == records@.len(),
                records@ == state@.records,
                0 <= i <= n,
                forall|j: int| 0 <= j < i ==> (#[trigger] records@[j]).spec_id() != self.id@,
            decreases n - i,
        {
            let rid = records[i].id();
            if rid.same_as(&self.id) {
                proof {
                    lemma_find_id_witness(records@, self.id@, i as int);
                }
                return Some(i);
            }
            i = i + 1;
        }
        proof {
            lemma_find_id_none(records@, self.id@);
        }
        None
    }

    /// Write by identity: re-locate this record in the entry's current list
    /// and replace or drop it there; a record that is no longer in the list
    /// leaves the list untouched. This closes the gap a stale captured
    /// index would open under concurrent appends and removals.
    pub fn write_resolved<Remote: HasID>(
        &self,
        state: &mut QueryState<Remote>,
        data: Option<Remote>,
    ) -> (hit: bool)
        requires
            old(state)@.wf(),
        ensures
            spec_find_id(old(state)@.records, self.id@) matches Some(i) ==> (hit && (data
                matches Some(d) ==> final(state)@ == (QueryStateView {
                records: old(state)@.records.update(i, d),
                error: None,
                ..old(state)@
            })) && (data is None ==> final(state)@ == (QueryStateView {
                records: old(state)@.records.remove(i),
                error: None,
                ..old(state)@
            }))),
            spec_find_id(old(state)@.records, self.id@) is None ==> (!hit && final(state)@ == old(
                state,
            )@),
            final(state)@.wf(),
    {
        match self.current_index(state) {
            Some(i) => {
                proof {
                    lemma_find_id_in_range(state@.records, self.id@);
                }
                state.set_target(i, data);
                true
            },
            None => false,
        }
    }
}

/// Take the self-reference that the owning projection provided. Where none
/// is in scope, the lookup is a programmer error and fails with a
/// missing-context error, never with a usable handle.
pub fn use_self_ref(ctx: Option<SurrealSelfRef>) -> (r: Result<SurrealSelfRef, SurrealError>)
    ensures
        ctx matches Some(given) ==> (r matches Ok(taken) && taken == given),
        ctx is None ==> (r matches Err(e) && e == SurrealError::MissingContext(
            ContextKind::SelfRef,
        )),
{
    match ctx {
        Some(given) => Ok(given),
        None => Err(SurrealError::MissingContext(ContextKind::SelfRef)),
    }
}

} // verus!
