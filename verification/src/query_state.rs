//! Query cache entries: the fetch lifecycle and result list of one
//! selector-plus-parameters key.
//!
//! An entry is created idle, transitions to loading before any fetch is
//! issued, and becomes ready when its fetch's rows arrive. A failed fetch is
//! recorded and leaves the phase as it was: an error is distinguishable both
//! from "no rows yet" and from an intentionally empty result. Every fetch
//! carries the epoch it was started under; a result whose epoch is no longer
//! the entry's current one belongs to a superseded fetch and is discarded
//! unapplied — the staleness guard that stands in for cancellation.

use vstd::prelude::*;

use crate::error::{ErrorKind, SurrealError};
use crate::selector::{parameters_eq, selector_eq, Parameters, Selector, SelectorView};

verus! {

/// The fetch lifecycle phase of a cache entry.
#[derive(Clone, Copy, PartialEq, Eq, Structural, Debug)]
pub enum Phase {
    /// Created, no fetch started yet.
    Idle,
    /// A fetch was started and its result is still owed.
    Loading,
    /// The last fetch's rows are materialized.
    Ready,
}

/// The mathematical content of a cache entry.
#[verifier::ext_equal]
pub struct QueryStateView<Remote> {
    pub selector: SelectorView,
    pub parameters: Seq<(Seq<char>, Seq<char>)>,
    pub phase: Phase,
    pub records: Seq<Remote>,
    pub epoch: nat,
    pub error: Option<(ErrorKind, Seq<char>)>,
}

impl<Remote> QueryStateView<Remote> {
    /// Rows are materialized only in the ready phase.
    pub open spec fn wf(self) -> bool {
        !(self.phase is Ready) ==> self.records.len() == 0
    }
}

/// A ticket identifying one started fetch: results may only be applied under
/// the epoch they were fetched for.
#[derive(Clone, Copy, Debug)]
pub struct FetchTicket {
    pub epoch: u64,
}

/// What a synchronous read of an entry observes.
pub enum ReadOutcome<'a, Remote> {
    /// No rows yet: idle or waiting on a fetch.
    Loading,
    /// The materialized rows, in the server's result order.
    Ready(&'a Vec<Remote>),
    /// The last fetch failed; the recorded error.
    Failed(&'a SurrealError),
}

/// One cache slot: the live fetch-and-list state for one selector and
/// parameter pair.
#[derive(Debug)]
pub struct QueryState<Remote> {
    selector: Selector,
    parameters: Parameters,
    phase: Phase,
    records: Vec<Remote>,
    epoch: u64,
    error: Option<SurrealError>,
}

impl<Remote> View for QueryState<Remote> {
    type V = QueryStateView<Remote>;

    closed spec fn view(&self) -> QueryStateView<Remote> {
        QueryStateView {
            selector: self.selector@,
            parameters: self.parameters@,
            phase: self.phase,
            records: self.records@,
            epoch: self.epoch as nat,
            error: match &self.error {
                Some(e) => Some(e.spec_view()),
                None => None,
            },
        }
    }
}

impl<Remote> QueryState<Remote> {
    /// A fresh idle entry for the given key.
    pub fn new(selector: Selector, parameters: Parameters) -> (r: QueryState<Remote>)
        ensures
            r@ == (QueryStateView {
                selector: selector@,
                parameters: parameters@,
                phase: Phase::Idle,
                records: Seq::<Remote>::empty(),
                epoch: 0,
                error: None,
            }),
    {
        let r = QueryState {
            selector,
            parameters,
            phase: Phase::Idle,
            records: Vec::new(),
            epoch: 0,
            error: None,
        };
        proof {
            assert(r@ =~= (QueryStateView {
                selector: r.selector@,
                parameters: r.parameters@,
                phase: Phase::Idle,
                records: Seq::<Remote>::empty(),
                epoch: 0,
                error: None,
            }));
        }
        r
    }

    /// The current phase.
    pub fn phase(&self) -> (p: Phase)
        ensures
            p == self@.phase,
    {
        self.phase
    }

    /// The current fetch epoch.
    pub fn epoch(&self) -> (e: u64)
        ensures
            e == self@.epoch,
    {
        self.epoch
    }

    /// The recorded error of the last failed fetch, if any.
    pub fn error(&self) -> (r: Option<&SurrealError>)
        ensures
            r is Some <==> self@.error is Some,
            r is Some ==> r->0.spec_view() == self@.error->0,
    {
        match &self.error {
            Some(e) => Some(e),
            None => None,
        }
    }

    /// The selector this entry was keyed with.
    pub fn get_selector(&self) -> (r: Selector)
        ensures
            r@ == self@.selector,
    {
        self.selector.duplicate()
    }

    /// The bind parameters this entry was keyed with.
    pub fn get_parameters(&self) -> (r: &Parameters)
        ensures
            r@ == self@.parameters,
    {
        &self.parameters
    }

    /// Whether this entry is keyed by exactly the given selector and
    /// parameters.
    pub fn has_key(&self, selector: &Selector, parameters: &Parameters) -> (r: bool)
        ensures
            r == (self@.selector == selector@ && self@.parameters == parameters@),
    {
        selector_eq(&self.selector, selector) && parameters_eq(&self.parameters, parameters)
    }

    /// Start a fetch: the entry observes the loading phase before any
    /// asynchronous call is issued, and the returned ticket names the new
    /// epoch. Any earlier fetch's result is superseded from here on.
    pub fn start_fetch(&mut self) -> (t: FetchTicket)
        requires
            old(self)@.epoch < u64::MAX,
        ensures
            final(self)@ == (QueryStateView {
                phase: Phase::Loading,
                records: Seq::<Remote>::empty(),
                epoch: old(self)@.epoch + 1,
                error: None,
                ..old(self)@
            }),
            t.epoch == old(self)@.epoch + 1,
            final(self)@.wf(),
    {
        self.phase = Phase::Loading;
        self.records = Vec::new();
        self.epoch = self.epoch + 1;
        self.error = None;
        proof {
            assert(self@ =~= (QueryStateView {
                phase: Phase::Loading,
                records: Seq::<Remote>::empty(),
                epoch: old(self)@.epoch + 1,
                error: None,
                ..old(self)@
            }));
        }
        FetchTicket { epoch: self.epoch }
    }

    /// Apply what a fetch came back with. A result under a superseded epoch
    /// is discarded without any effect; a current success materializes the
    /// rows; a current failure records the error and leaves the phase as it
    /// was, so that failure never masquerades as an empty result.
    pub fn apply_fetch_result(
        &mut self,
        ticket: FetchTicket,
        outcome: Result<Vec<Remote>, SurrealError>,
    ) -> (applied: bool)
        ensures
            ticket.epoch != old(self)@.epoch ==> (final(self)@ == old(self)@ && !applied),
            ticket.epoch == old(self)@.epoch && outcome is Ok ==> (applied && final(self)@ == (
            QueryStateView {
                phase: Phase::Ready,
                records: outcome->Ok_0@,
                error: None,
                ..old(self)@
            })),
            ticket.epoch == old(self)@.epoch && outcome is Err ==> (!applied && final(self)@ == (
            QueryStateView { error: Some(outcome->Err_0.spec_view()), ..old(self)@ })),
            old(self)@.wf() && outcome is Ok ==> final(self)@.wf(),
    {
        if ticket.epoch != self.epoch {
            proof {
                assert(self@ =~= old(self)@);
            }
            return false;
        }
        match outcome {
            Ok(rows) => {
                self.phase = Phase::Ready;
                self.records = rows;
                self.error = None;
                proof {
                    assert(self@ =~= (QueryStateView {
                        phase: Phase::Ready,
                        records: self.records@,
                        error: None,
                        ..old(self)@
                    }));
                }
                true
            },
            Err(e) => {
                self.error = Some(e);
                proof {
                    assert(self@ =~= (QueryStateView {
                        error: Some(self.error->0.spec_view()),
                        ..old(self)@
                    }));
                }
                false
            },
        }
    }

    /// Synchronous, side-effect-free read of the entry.
    pub fn read(&self) -> (r: ReadOutcome<'_, Remote>)
        ensures
            self@.phase is Ready ==> (r matches ReadOutcome::Ready(rows) && rows@
                == self@.records),
            !(self@.phase is Ready) && self@.error is Some ==> (r matches ReadOutcome::Failed(e)
                && e.spec_view() == self@.error->0),
            !(self@.phase is Ready) && self@.error is None ==> r is Loading,
    {
        match self.phase {
            Phase::Ready => ReadOutcome::Ready(&self.records),
            _ => match &self.error {
                Some(e) => ReadOutcome::Failed(e),
                None => ReadOutcome::Loading,
            },
        }
    }

    /// The materialized rows, if the entry is ready.
    pub fn get_data(&self) -> (r: Option<&Vec<Remote>>)
        ensures
            r is Some <==> self@.phase is Ready,
            r is Some ==> r->0@ == self@.records,
    {
        match self.phase {
            Phase::Ready => Some(&self.records),
            _ => None,
        }
    }

    /// The current list: the materialized rows, or nothing before readiness.
    pub fn get_list(&self) -> (r: &Vec<Remote>)
        requires
            self@.wf(),
        ensures
            r@ == self@.records,
            !(self@.phase is Ready) ==> r@.len() == 0,
    {
        &self.records
    }

    /// Append one record after a server-confirmed write: the list grows by
    /// exactly that record at its end, prior rows and order untouched, and
    /// the entry is ready.
    pub fn append(&mut self, data: Remote)
        ensures
            final(self)@ == (QueryStateView {
                phase: Phase::Ready,
                records: old(self)@.records.push(data),
                error: None,
                ..old(self)@
            }),
            final(self)@.wf(),
    {
        self.phase = Phase::Ready;
        self.records.push(data);
        self.error = None;
        proof {
            assert(self@ =~= (QueryStateView {
                phase: Phase::Ready,
                records: old(self)@.records.push(data),
                error: None,
                ..old(self)@
            }));
        }
    }

    /// Replace the record at `index`, or remove it: an absent replacement
    /// drops the row and shifts every later row down by one, leaving earlier
    /// rows untouched.
    pub fn set_target(&mut self, index: usize, data: Option<Remote>)
        requires
            old(self)@.wf(),
            index < old(self)@.records.len(),
        ensures
            data is Some ==> final(self)@ == (QueryStateView {
                records: old(self)@.records.update(index as int, data->0),
                error: None,
                ..old(self)@
            }),
            data is None ==> final(self)@ == (QueryStateView {
                records: old(self)@.records.remove(index as int),
                error: None,
                ..old(self)@
            }),
            final(self)@.wf(),
    {
        match data {
            Some(d) => {
                self.records.remove(index);
                self.records.insert(index, d);
                self.error = None;
                proof {
                    assert(old(self)@.records.remove(index as int).insert(index as int, d)
                        =~= old(self)@.records.update(index as int, d));
                    assert(self@ =~= (QueryStateView {
                        records: old(self)@.records.update(index as int, d),
                        error: None,
                        ..old(self)@
                    }));
                }
            },
            None => {
                self.records.remove(index);
                self.error = None;
                proof {
                    assert(self@ =~= (QueryStateView {
                        records: old(self)@.records.remove(index as int),
                        error: None,
                        ..old(self)@
                    }));
                }
            },
        }
    }

    /// Change the entry's key. A matching key leaves everything untouched
    /// and owes no fetch. A differing key re-creates the entry: rows and
    /// error are dropped, the phase is loading before any call is issued,
    /// and the fresh epoch makes the superseded fetch's eventual result a
    /// discarded no-op rather than a write into the wrong key's slot.
    pub fn rekey(&mut self, selector: Selector, parameters: Parameters) -> (t: Option<FetchTicket>)
        requires
            old(self)@.epoch < u64::MAX,
        ensures
            (selector@ == old(self)@.selector && parameters@ == old(self)@.parameters)
                ==> (final(self)@ == old(self)@ && t is None),
            !(selector@ == old(self)@.selector && parameters@ == old(self)@.parameters)
                ==> (final(self)@ == (QueryStateView {
                selector: selector@,
                parameters: parameters@,
                phase: Phase::Loading,
                records: Seq::<Remote>::empty(),
                epoch: old(self)@.epoch + 1,
                error: None,
            }) && (t matches Some(ticket) && ticket.epoch == old(self)@.epoch + 1)),
            old(self)@.wf() ==> final(self)@.wf(),
    {
        if self.has_key(&selector, &parameters) {
            proof {
                assert(self@ =~= old(self)@);
            }
            return None;
        }
        self.selector = selector;
        self.parameters = parameters;
        self.phase = Phase::Loading;
        self.records = Vec::new();
        self.epoch = self.epoch + 1;
        self.error = None;
        proof {
            assert(self@ =~= (QueryStateView {
                selector: self.selector@,
                parameters: self.parameters@,
                phase: Phase::Loading,
                records: Seq::<Remote>::empty(),
                epoch: old(self)@.epoch + 1,
                error: None,
            }));
        }
        Some(FetchTicket { epoch: self.epoch })
    }
}

} // verus!

