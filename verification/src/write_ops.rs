//! Write operations: round-trip a local mutation to the server and splice
//! the authoritative response back into the owning cache entry.
//!
//! Every write follows confirm-then-apply: nothing mutates the list before
//! the server answered. An update sends a merge patch — never a whole-record
//! overwrite — and, in the same round trip, re-runs the owning selector
//! scoped to the one record; a present projection refreshes the record in
//! place, an absent one means the record stopped matching the selector and
//! is dropped from the list, the defined stale-write outcome. A failed round
//! trip is reported and leaves the list untouched; nothing retries
//! automatically.

use vstd::prelude::*;
use vstd::string::*;

use crate::id::{HasID, ID};
use crate::query_state::{QueryState, QueryStateView};
use crate::selector::{ProjectionView, SelectAstView, Selector, SelectorView, TargetView};
use crate::self_ref::{spec_find_id, SurrealSelfRef};
use crate::session::SurrealToken;

verus! {

/// The lifecycle of one write round trip; the three outcomes are terminal.
#[derive(Clone, Copy, PartialEq, Eq, Structural, Debug)]
pub enum WritePhase {
    Idle,
    Sending,
    Applied,
    Dropped,
    Failed,
}

impl WritePhase {
    /// No transition leaves a terminal phase.
    pub open spec fn is_terminal(self) -> bool {
        self is Applied || self is Dropped || self is Failed
    }
}

/// What a finished write round trip resolved to.
#[derive(Clone, Copy, PartialEq, Eq, Structural, Debug)]
pub enum WriteOutcome {
    /// The authoritative projection was applied in place.
    Applied,
    /// The record stopped matching and was dropped from the list.
    Dropped,
    /// The round trip failed; the list was left untouched.
    Failed,
}

/// The state machine of one write: idle until sent, sending until resolved,
/// then terminal. A retry is a new operation, never an automatic transition.
#[derive(Debug)]
pub struct WriteOp {
    phase: WritePhase,
}

impl WriteOp {
    /// The current lifecycle phase.
    pub closed spec fn spec_phase(&self) -> WritePhase {
        self.phase
    }

    /// A write that was not sent yet.
    pub fn new() -> (r: WriteOp)
        ensures
            r.spec_phase() is Idle,
    {
        WriteOp { phase: WritePhase::Idle }
    }

    /// The current lifecycle phase.
    pub fn phase(&self) -> (p: WritePhase)
        ensures
            p == self.spec_phase(),
    {
        self.phase
    }

    /// The round trip goes out; only an idle write can be sent.
    pub fn begin_send(&mut self)
        requires
            old(self).spec_phase() is Idle,
        ensures
            final(self).spec_phase() is Sending,
    {
        self.phase = WritePhase::Sending;
    }

    /// The round trip resolved; the write ends in the matching terminal
    /// phase and stays there.
    pub fn complete(&mut self, outcome: WriteOutcome)
        requires
            old(self).spec_phase() is Sending,
        ensures
            final(self).spec_phase() == (match outcome {
                WriteOutcome::Applied => WritePhase::Applied,
                WriteOutcome::Dropped => WritePhase::Dropped,
                WriteOutcome::Failed => WritePhase::Failed,
            }),
            final(self).spec_phase().is_terminal(),
    {
        self.phase = match outcome {
            WriteOutcome::Applied => WritePhase::Applied,
            WriteOutcome::Dropped => WritePhase::Dropped,
            WriteOutcome::Failed => WritePhase::Failed,
        };
    }
}

/// The merge-patch statement an update sends; the record and the patch are
/// bound as parameters, and nothing is returned from the patch itself.
pub open spec fn spec_merge_statement() -> Seq<char> {
    "UPDATE $thing MERGE $data RETURN NONE"@
}

/// Everything the transport needs for one update round trip.
#[derive(Debug)]
pub struct UpdatePlan {
    /// The merge-patch statement to send.
    pub merge_text: String,
    /// The record bound as `$thing`; the patch itself stays with the
    /// caller, bound as `$data`.
    pub thing: ID,
    /// The owning selector re-aimed at the one record: its result decides
    /// whether the record still matches.
    pub reselect: Selector,
}

/// What reconciling a server answer did to the owning list.
#[derive(Clone, Copy, PartialEq, Eq, Structural, Debug)]
pub enum Reconciled {
    /// The record still matches: refreshed in place, same position.
    Refreshed,
    /// The record stopped matching: dropped from the list.
    Removed,
    /// The record was no longer in the list; nothing changed.
    Absent,
}

/// One pending update of the record a self-reference names.
#[derive(Debug)]
pub struct SurrealUpdate {
    /// The slot being written.
    pub target: SurrealSelfRef,
}

impl SurrealToken {
    /// Start an update of the record a self-reference names. The round trip
    /// itself multiplexes over the shared connection; the handle only hands
    /// the operation out.
    pub fn update(&self, target: SurrealSelfRef) -> (r: SurrealUpdate)
        ensures
            r.target.index == target.index,
            r.target.id@ == target.id@,
    {
        SurrealUpdate::new(target)
    }
}

impl SurrealUpdate {
    pub fn new(target: SurrealSelfRef) -> (r: SurrealUpdate)
        ensures
            r.target.index == target.index,
            r.target.id@ == target.id@,
    {
        SurrealUpdate { target }
    }

    /// Plan the merge update for a local change: the merge statement, the
    /// record to bind, and the owning selector scoped to exactly that
    /// record. An empty owning selector has nothing to re-run: no plan, and
    /// the round trip is not started.
    pub fn with(&self, selector: &Selector) -> (r: Option<UpdatePlan>)
        ensures
            r is Some <==> selector@.base is Some,
            r matches Some(plan) ==> {
                &&& plan.merge_text@ == spec_merge_statement()
                &&& plan.thing@ == self.target.id@
                &&& plan.reselect@ == (SelectorView {
                    base: Some(
                        SelectAstView {
                            projection: selector@.base->0.projection,
                            what: seq![TargetView::Record(self.target.id@)],
                            cond: selector@.base->0.cond,
                            limit: selector@.base->0.limit,
                        },
                    ),
                })
            },
    {
        match selector.scoped_to(&self.target.id) {
            Some(reselect) => Some(
                UpdatePlan {
                    merge_text: String::from_str("UPDATE $thing MERGE $data RETURN NONE"),
                    thing: self.target.id.duplicate(),
                    reselect,
                },
            ),
            None => None,
        }
    }

    /// Apply what the update's point re-select came back with, by identity:
    /// a present projection refreshes the record at its current position;
    /// an absent one drops it from the list; a record that already left the
    /// list leaves everything untouched.
    pub fn apply_with_response<Remote: HasID>(
        &self,
        state: &mut QueryState<Remote>,
        projection: Option<Remote>,
    ) -> (r: Reconciled)
        requires
            old(state)@.wf(),
        ensures
            spec_find_id(old(state)@.records, self.target.id@) matches Some(i) ==> ((projection
                matches Some(d) ==> (r is Refreshed && final(state)@ == (QueryStateView {
                records: old(state)@.records.update(i, d),
                error: None,
                ..old(state)@
            }))) && (projection is None ==> (r is Removed && final(state)@ == (QueryStateView {
                records: old(state)@.records.remove(i),
                error: None,
                ..old(state)@
            })))),
            spec_find_id(old(state)@.records, self.target.id@) is None ==> (r is Absent
                && final(state)@ == old(state)@),
            final(state)@.wf(),
    {
        let present = projection.is_some();
        let hit = self.target.write_resolved(state, projection);
        if !hit {
            Reconciled::Absent
        } else if present {
            Reconciled::Refreshed
        } else {
            Reconciled::Removed
        }
    }

    /// The point re-select of a refresh: everything from exactly this
    /// record.
    pub fn refresh_plan(&self) -> (r: Selector)
        ensures
            r@ == (SelectorView {
                base: Some(
                    SelectAstView {
                        projection: ProjectionView::All,
                        what: seq![TargetView::Record(self.target.id@)],
                        cond: None,
                        limit: None,
                    },
                ),
            }),
    {
        Selector::from_record_id(self.target.id.duplicate())
    }

    /// Apply a refresh: a fetched record replaces this one at its current
    /// position; a vanished record leaves the entry unchanged.
    pub fn apply_refresh<Remote: HasID>(
        &self,
        state: &mut QueryState<Remote>,
        fetched: Option<Remote>,
    ) -> (refreshed: bool)
        requires
            old(state)@.wf(),
        ensures
            fetched is None ==> (!refreshed && final(state)@ == old(state)@),
            fetched matches Some(d) ==> ((spec_find_id(old(state)@.records, self.target.id@)
                matches Some(i) ==> (refreshed && final(state)@ == (QueryStateView {
                records: old(state)@.records.update(i, d),
                error: None,
                ..old(state)@
            }))) && (spec_find_id(old(state)@.records, self.target.id@) is None ==> (!refreshed
                && final(state)@ == old(state)@))),
            final(state)@.wf(),
    {
        match fetched {
            Some(d) => self.target.write_resolved(state, Some(d)),
            None => false,
        }
    }

    /// Apply a refresh that drops a vanished record from the list instead
    /// of keeping a stale row.
    pub fn apply_refresh_or_drop<Remote: HasID>(
        &self,
        state: &mut QueryState<Remote>,
        fetched: Option<Remote>,
    ) -> (r: Reconciled)
        requires
            old(state)@.wf(),
        ensures
            spec_find_id(old(state)@.records, self.target.id@) matches Some(i) ==> ((fetched
                matches Some(d) ==> (r is Refreshed && final(state)@ == (QueryStateView {
                records: old(state)@.records.update(i, d),
                error: None,
                ..old(state)@
            }))) && (fetched is None ==> (r is Removed && final(state)@ == (QueryStateView {
                records: old(state)@.records.remove(i),
                error: None,
                ..old(state)@
            })))),
            spec_find_id(old(state)@.records, self.target.id@) is None ==> (r is Absent
                && final(state)@ == old(state)@),
            final(state)@.wf(),
    {
        self.apply_with_response(state, fetched)
    }
}

} // verus!
