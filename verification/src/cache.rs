//! The query cache: one live entry per selector-and-parameters key.
//!
//! `get` is the only way in: it returns the existing entry for an exact key,
//! or atomically appends a fresh entry that is already in its loading phase
//! and owes exactly one fetch. The loading transition happens before any
//! asynchronous call is issued, so a second request for the same key during
//! loading observes the existing entry and starts no second network call:
//! the transition is the lock.

use vstd::prelude::*;

use crate::query_state::{FetchTicket, Phase, QueryState, QueryStateView};
use crate::selector::{lemma_wire_injective, Parameters, Selector, SelectorView};
use crate::text::lemma_vec_dv;

verus! {

/// The slot of the first entry keyed by the given selector and parameters.
pub open spec fn spec_find_key<Remote>(
    entries: Seq<QueryStateView<Remote>>,
    selector: SelectorView,
    parameters: Seq<(Seq<char>, Seq<char>)>,
) -> Option<int>
    decreases entries.len(),
{
    if entries.len() == 0 {
        None
    } else if entries[0].selector == selector && entries[0].parameters == parameters {
        Some(0)
    } else {
        match spec_find_key(entries.drop_first(), selector, parameters) {
            Some(i) => Some(i + 1),
            None => None,
        }
    }
}

/// The entry a cache miss creates: loading from the start, owing one fetch
/// under its first epoch.
pub open spec fn fresh_loading_entry<Remote>(
    selector: SelectorView,
    parameters: Seq<(Seq<char>, Seq<char>)>,
) -> QueryStateView<Remote> {
    QueryStateView {
        selector,
        parameters,
        phase: Phase::Loading,
        records: Seq::<Remote>::empty(),
        epoch: 1,
        error: None,
    }
}

proof fn lemma_find_key_witness<Remote>(
    entries: Seq<QueryStateView<Remote>>,
    selector: SelectorView,
    parameters: Seq<(Seq<char>, Seq<char>)>,
    i: int,
)
    requires
        0 <= i < entries.len(),
        entries[i].selector == selector && entries[i].parameters == parameters,
        forall|j: int|
            0 <= j < i ==> !((#[trigger] entries[j]).selector == selector && entries[j].parameters
                == parameters),
    ensures
        spec_find_key(entries, selector, parameters) == Some(i),
    decreases entries.len(),
{
    if i > 0 {
        assert(entries[0].selector != selector || entries[0].parameters != parameters);
        lemma_find_key_witness(entries.drop_first(), selector, parameters, i - 1);
    }
}

proof fn lemma_find_key_none<Remote>(
    entries: Seq<QueryStateView<Remote>>,
    selector: SelectorView,
    parameters: Seq<(Seq<char>, Seq<char>)>,
)
    requires
        forall|j: int|
            0 <= j < entries.len() ==> !((#[trigger] entries[j]).selector == selector
                && entries[j].parameters == parameters),
    ensures
        spec_find_key(entries, selector, parameters) is None,
    decreases entries.len(),
{
    if entries.len() > 0 {
        lemma_find_key_none(entries.drop_first(), selector, parameters);
    }
}

/// Appending an entry for a key the cache did not hold makes that entry the
/// key's slot.
pub proof fn lemma_find_key_push<Remote>(
    entries: Seq<QueryStateView<Remote>>,
    selector: SelectorView,
    parameters: Seq<(Seq<char>, Seq<char>)>,
    entry: QueryStateView<Remote>,
)
    requires
        spec_find_key(entries, selector, parameters) is None,
        entry.selector == selector,
        entry.parameters == parameters,
    ensures
        spec_find_key(entries.push(entry), selector, parameters) == Some(entries.len() as int),
    decreases entries.len(),
{
    if entries.len() == 0 {
        assert(entries.push(entry)[0] == entry);
    } else {
        lemma_find_key_push(entries.drop_first(), selector, parameters, entry);
        assert(entries.push(entry).drop_first() =~= entries.drop_first().push(entry));
        assert(entries.push(entry)[0] == entries[0]);
    }
}

/// A command to run one fetch for one cache slot, under one epoch.
#[derive(Clone, Copy, Debug)]
pub struct FetchCommand {
    pub slot: usize,
    pub ticket: FetchTicket,
}

/// The keyed cache of query entries.
#[derive(Debug)]
pub struct QueryCache<Remote> {
    entries: Vec<QueryState<Remote>>,
}

impl<Remote> DeepView for QueryState<Remote> {
    type V = QueryStateView<Remote>;

    open spec fn deep_view(&self) -> QueryStateView<Remote> {
        self.view()
    }
}

impl<Remote> View for QueryCache<Remote> {
    type V = Seq<QueryStateView<Remote>>;

    closed spec fn view(&self) -> Seq<QueryStateView<Remote>> {
        self.entries.deep_view()
    }
}

impl<Remote> QueryCache<Remote> {
    /// Every entry keeps its own well-formedness.
    pub open spec fn wf(self) -> bool {
        forall|i: int| 0 <= i < self@.len() ==> (#[trigger] self@[i]).wf()
    }

    /// One cache slot per key: no two entries share a selector-and-
    /// parameters pair.
    pub open spec fn keys_unique(self) -> bool {
        forall|i: int, j: int|
            0 <= i < j < self@.len() ==> !((#[trigger] self@[i]).selector == (
            #[trigger] self@[j]).selector && self@[i].parameters == self@[j].parameters)
    }

    /// An empty cache.
    pub fn new() -> (r: QueryCache<Remote>)
        ensures
            r@ == Seq::<QueryStateView<Remote>>::empty(),
            r.wf(),
            r.keys_unique(),
    {
        let entries: Vec<QueryState<Remote>> = Vec::new();
        let r = QueryCache { entries };
        proof {
            assert(r@ =~= Seq::<QueryStateView<Remote>>::empty());
        }
        r
    }

    /// How many entries are live.
    pub fn len(&self) -> (n: usize)
        ensures
            n == self@.len(),
    {
        proof {
            lemma_vec_dv(self.entries);
        }
        self.entries.len()
    }

    /// The entry for this exact key: the existing slot if the key is
    /// present — the cache unchanged, no fetch owed — or a fresh slot that
    /// is already loading and owes exactly the returned fetch command.
    pub fn get(&mut self, selector: Selector, parameters: Parameters) -> (r: (
        usize,
        Option<FetchCommand>,
    ))
        ensures
            spec_find_key(old(self)@, selector@, parameters@) matches Some(i) ==> (final(self)@
                == old(self)@ && r.0 == i && r.1 is None),
            spec_find_key(old(self)@, selector@, parameters@) is None ==> (final(self)@ == old(
                self,
            )@.push(fresh_loading_entry(selector@, parameters@)) && r.0 == old(self)@.len() && (
            r.1 matches Some(cmd) && cmd.slot == r.0 && cmd.ticket.epoch == 1)),
            r.0 < final(self)@.len(),
            old(self).wf() ==> final(self).wf(),
            old(self).keys_unique() ==> final(self).keys_unique(),
    {
        let n = self.entries.len();
        proof {
            lemma_vec_dv(self.entries);
        }
        let mut i: usize = 0;
        while i < n
            invariant
                n == self.entries.len(),
                0 <= i <= n,
                *self == *old(self),
                self@.len() == n,
                forall|j: int|
                    0 <= j < i ==> !((#[trigger] self@[j]).selector == selector@
                        && self@[j].parameters == parameters@),
            decreases n - i,
        {
            proof {
                lemma_vec_dv(self.entries);
            }
            if self.entries[i].has_key(&selector, &parameters) {
                proof {
                    assert(self@[i as int] == self.entries@[i as int]@);
                    lemma_find_key_witness(self@, selector@, parameters@, i as int);
                }
                return (i, None);
            }
            i = i + 1;
        }
        proof {
            lemma_find_key_none(self@, selector@, parameters@);
        }
        let ghost before = self@;
        let mut entry: QueryState<Remote> = QueryState::new(selector, parameters);
        let ticket = entry.start_fetch();
        let slot = self.entries.len();
        self.entries.push(entry);
        proof {
            lemma_vec_dv(self.entries);
            assert(self@ =~= before.push(fresh_loading_entry(
                self.entries@[slot as int]@.selector,
                self.entries@[slot as int]@.parameters,
            )));
        }
        (slot, Some(FetchCommand { slot, ticket }))
    }

    /// Read one slot.
    pub fn entry(&self, slot: usize) -> (r: &QueryState<Remote>)
        requires
            slot < self@.len(),
        ensures
            r@ == self@[slot as int],
    {
        proof {
            lemma_vec_dv(self.entries);
        }
        &self.entries[slot]
    }

    /// Borrow one slot for mutation; the cache afterwards holds whatever the
    /// borrow was left as.
    pub fn entry_mut(&mut self, slot: usize) -> (r: &mut QueryState<Remote>)
        requires
            slot < old(self)@.len(),
        ensures
            r@ == old(self)@[slot as int],
            final(self)@ == old(self)@.update(slot as int, final(r)@),
    {
        proof {
            lemma_vec_dv(self.entries);
        }
        let r = &mut self.entries[slot];
        proof {
            lemma_vec_dv(after_borrow(self.entries));
            assert(after_borrow(self.entries).deep_view() =~= old(self)@.update(
                slot as int,
                final(r)@,
            ));
        }
        r
    }
}

/// Two selectors that compile to identical wire queries are one cache key:
/// under the same parameters they name the same slot.
pub proof fn lemma_same_wire_same_entry<Remote>(
    entries: Seq<QueryStateView<Remote>>,
    a: SelectorView,
    b: SelectorView,
    parameters: Seq<(Seq<char>, Seq<char>)>,
)
    requires
        a.wire() == b.wire(),
    ensures
        spec_find_key(entries, a, parameters) == spec_find_key(entries, b, parameters),
{
    lemma_wire_injective(a, b);
}

/// Starting a fetch is the lock: after a miss on a key created its loading
/// entry, a second lookup of the same key finds exactly that entry — so the
/// second concurrent `get` observes loading and owes no second fetch call.
pub proof fn lemma_second_get_finds_loading_entry<Remote>(
    entries: Seq<QueryStateView<Remote>>,
    selector: SelectorView,
    parameters: Seq<(Seq<char>, Seq<char>)>,
)
    requires
        spec_find_key(entries, selector, parameters) is None,
    ensures
        spec_find_key(
            entries.push(fresh_loading_entry(selector, parameters)),
            selector,
            parameters,
        ) == Some(entries.len() as int),
        fresh_loading_entry::<Remote>(selector, parameters).phase is Loading,
{
    lemma_find_key_push(
        entries,
        selector,
        parameters,
        fresh_loading_entry(selector, parameters),
    );
}

} // verus!
