use syewreal::cache::QueryCache;
use syewreal::id::{HasID, ID, IdView};
use syewreal::props::{project, project_where, StaticChild, SurrealProps};
use syewreal::query_state::QueryState;
use syewreal::selector::{Parameters, Selector};
use syewreal::write_ops::{Reconciled, SurrealUpdate, WriteOp, WriteOutcome, WritePhase};

/// The server-facing shape of a to-do item.
#[derive(Clone, PartialEq, Debug)]
struct ItemRemote {
    id: String,
    title: String,
    done: bool,
}

impl HasID for ItemRemote {
    // Specification-only trait items are never called at runtime.
    fn spec_id(&self) -> IdView {
        unreachable!()
    }

    fn id(&self) -> ID {
        ID::from_compact(&self.id).unwrap()
    }
}

/// The UI-facing shape: the remote fields plus a local-only flag.
#[derive(Clone, PartialEq, Debug)]
struct Item {
    id: String,
    title: String,
    done: bool,
    highlight: bool,
}

/// The local-only fields.
#[derive(Clone, PartialEq, Debug)]
struct ItemLocal {
    highlight: bool,
}

impl HasID for Item {
    // Specification-only trait items are never called at runtime.
    fn spec_id(&self) -> IdView {
        unreachable!()
    }

    fn id(&self) -> ID {
        ID::from_compact(&self.id).unwrap()
    }
}

impl SurrealProps for Item {
    type Remote = ItemRemote;
    type Local = ItemLocal;

    // Specification-only trait items are never called at runtime.
    fn spec_construct(_: ItemRemote, _: ItemLocal) -> Item {
        unreachable!()
    }

    fn remote_part(&self) -> ItemRemote {
        unreachable!()
    }

    fn remote_round_trip(_: ItemRemote, _: ItemLocal) {
        unreachable!()
    }

    fn construct(remote: &ItemRemote, local: &ItemLocal) -> Item {
        Item {
            id: remote.id.clone(),
            title: remote.title.clone(),
            done: remote.done,
            highlight: local.highlight,
        }
    }

    fn get_remote(&self) -> ItemRemote {
        ItemRemote { id: self.id.clone(), title: self.title.clone(), done: self.done }
    }
}

fn remote(id: &str, title: &str, done: bool) -> ItemRemote {
    ItemRemote { id: id.to_string(), title: title.to_string(), done }
}

#[test]
fn local_remote_round_trip_loses_nothing() {
    // Constructing a local shape from a remote record and extracting the
    // remote shape again reproduces the original record exactly.
    let original = remote("item:1", "Test", false);
    let local = ItemLocal { highlight: true };
    let constructed = Item::construct(&original, &local);
    assert_eq!(constructed.get_remote(), original);
    assert!(constructed.highlight);
}

#[test]
fn update_that_still_matches_refreshes_in_place() {
    // Selector `SELECT * FROM item`; the fetch resolves with one record;
    // projection yields one item keyed by its identity; updating it through
    // its self-reference with a still-matching re-select keeps the list at
    // length one with the refreshed record.
    let mut cache: QueryCache<ItemRemote> = QueryCache::new();
    let (slot, cmd) = cache.get(
        Selector::from_text("SELECT * FROM item").unwrap(),
        Parameters::empty(),
    );
    let ticket = cmd.unwrap().ticket;
    cache
        .entry_mut(slot)
        .apply_fetch_result(ticket, Ok(vec![remote("item:1", "Test", false)]));

    let projected = project::<Item>(cache.entry(slot), &ItemLocal { highlight: false });
    assert_eq!(projected.len(), 1);
    let (key, item, self_ref) = projected.into_iter().next().unwrap();
    assert_eq!(key, "item:1");
    assert!(!item.done);
    assert_eq!(self_ref.index, 0);

    let update = SurrealUpdate::new(self_ref);
    let plan = update.with(&cache.entry(slot).get_selector()).unwrap();
    assert_eq!(plan.merge_text, "UPDATE $thing MERGE $data RETURN NONE");
    assert_eq!(plan.thing.to_compact(), "item:1");
    assert_eq!(plan.reselect.to_wire_text(), "SELECT * FROM item:1");

    // The server confirms; the point re-select still matches.
    let outcome = update.apply_with_response(
        cache.entry_mut(slot),
        Some(remote("item:1", "Test", true)),
    );
    assert_eq!(outcome, Reconciled::Refreshed);
    let rows = cache.entry(slot).get_list();
    assert_eq!(rows.len(), 1);
    assert!(rows[0].done);
}

#[test]
fn update_that_stops_matching_drops_the_record() {
    // Selector `SELECT * FROM item WHERE done = false`; the update sets the
    // filtered field, the point re-select comes back empty, and the record
    // leaves the list.
    let mut cache: QueryCache<ItemRemote> = QueryCache::new();
    let (slot, cmd) = cache.get(
        Selector::from_text("SELECT * FROM item WHERE done = false").unwrap(),
        Parameters::empty(),
    );
    let ticket = cmd.unwrap().ticket;
    cache
        .entry_mut(slot)
        .apply_fetch_result(ticket, Ok(vec![remote("item:1", "Test", false)]));

    let projected = project::<Item>(cache.entry(slot), &ItemLocal { highlight: false });
    let (_, _, self_ref) = projected.into_iter().next().unwrap();
    let update = SurrealUpdate::new(self_ref);
    let plan = update.with(&cache.entry(slot).get_selector()).unwrap();
    assert_eq!(plan.reselect.to_wire_text(), "SELECT * FROM item:1 WHERE done = false");

    let outcome = update.apply_with_response(cache.entry_mut(slot), None);
    assert_eq!(outcome, Reconciled::Removed);
    assert_eq!(cache.entry(slot).get_list().len(), 0);
}

#[test]
fn create_appends_the_server_record_to_the_target_entry() {
    // A creation on an empty cache entry: the server-returned canonical
    // record, with its server-assigned identity, is appended.
    let mut cache: QueryCache<ItemRemote> = QueryCache::new();
    let (slot, cmd) = cache.get(
        Selector::from_text("SELECT * FROM item").unwrap(),
        Parameters::empty(),
    );
    cache.entry_mut(slot).apply_fetch_result(cmd.unwrap().ticket, Ok(vec![]));
    assert_eq!(cache.entry(slot).get_list().len(), 0);

    let created = remote("item:8jz3m", "Test", false);
    cache.entry_mut(slot).append(created.clone());

    let rows = cache.entry(slot).get_list();
    assert_eq!(rows.len(), 1);
    assert_eq!(rows[0], created);
    let projected = project::<Item>(cache.entry(slot), &ItemLocal { highlight: false });
    assert_eq!(projected[0].0, "item:8jz3m");
}

#[test]
fn refresh_keeps_a_vanished_record_but_refresh_or_drop_removes_it() {
    let mut state: QueryState<ItemRemote> =
        QueryState::new(Selector::from_text("SELECT * FROM item").unwrap(), Parameters::empty());
    let ticket = state.start_fetch();
    state.apply_fetch_result(ticket, Ok(vec![remote("item:1", "a", false)]));

    let projected = project::<Item>(&state, &ItemLocal { highlight: false });
    let (_, _, self_ref) = projected.into_iter().next().unwrap();
    let update = SurrealUpdate::new(self_ref);
    assert_eq!(update.refresh_plan().to_wire_text(), "SELECT * FROM item:1");

    // The record vanished server-side: refresh leaves the entry unchanged.
    assert!(!update.apply_refresh(&mut state, None));
    assert_eq!(state.get_list().len(), 1);

    // A present record refreshes in place.
    assert!(update.apply_refresh(&mut state, Some(remote("item:1", "b", true))));
    assert_eq!(state.get_list()[0].title, "b");

    // Refresh-or-drop removes the vanished record instead.
    assert_eq!(update.apply_refresh_or_drop(&mut state, None), Reconciled::Removed);
    assert_eq!(state.get_list().len(), 0);

    // With the record gone, further reconciliation is a no-op.
    assert_eq!(update.apply_refresh_or_drop(&mut state, None), Reconciled::Absent);
}

#[test]
fn writes_resolve_by_identity_even_after_the_list_moved() {
    let mut state: QueryState<ItemRemote> =
        QueryState::new(Selector::from_text("SELECT * FROM item").unwrap(), Parameters::empty());
    let ticket = state.start_fetch();
    state.apply_fetch_result(
        ticket,
        Ok(vec![remote("item:1", "a", false), remote("item:2", "b", false)]),
    );
    let projected = project::<Item>(&state, &ItemLocal { highlight: false });
    let self_ref_second = projected.into_iter().nth(1).unwrap().2;
    assert_eq!(self_ref_second.index, 1);

    // The first record is removed; the captured index now points astray,
    // but the identity still finds the record.
    state.set_target(0, None);
    let update = SurrealUpdate::new(self_ref_second);
    let outcome =
        update.apply_with_response(&mut state, Some(remote("item:2", "b", true)));
    assert_eq!(outcome, Reconciled::Refreshed);
    assert_eq!(state.get_list().len(), 1);
    assert!(state.get_list()[0].done);
}

#[test]
fn projection_filters_the_view_and_never_the_cache() {
    let mut state: QueryState<ItemRemote> =
        QueryState::new(Selector::from_text("SELECT * FROM item").unwrap(), Parameters::empty());
    let ticket = state.start_fetch();
    state.apply_fetch_result(
        ticket,
        Ok(vec![
            remote("item:1", "a", false),
            remote("item:2", "b", true),
            remote("item:3", "c", false),
        ]),
    );
    // The caller's predicate admitted only the not-done items.
    let keep = vec![true, false, true];
    let filtered = project_where::<Item>(&state, &ItemLocal { highlight: false }, &keep);
    assert_eq!(filtered.len(), 2);
    assert_eq!(filtered[0].0, "item:1");
    assert_eq!(filtered[1].0, "item:3");
    // Each survivor keeps its position in the unfiltered list.
    assert_eq!(filtered[0].2.index, 0);
    assert_eq!(filtered[1].2.index, 2);
    // The cache itself is untouched.
    assert_eq!(state.get_list().len(), 3);
}

#[test]
fn a_write_round_trip_walks_its_state_machine_once() {
    for (outcome, terminal) in [
        (WriteOutcome::Applied, WritePhase::Applied),
        (WriteOutcome::Dropped, WritePhase::Dropped),
        (WriteOutcome::Failed, WritePhase::Failed),
    ] {
        let mut op = WriteOp::new();
        assert_eq!(op.phase(), WritePhase::Idle);
        op.begin_send();
        assert_eq!(op.phase(), WritePhase::Sending);
        op.complete(outcome);
        assert_eq!(op.phase(), terminal);
    }
}

#[test]
fn a_static_child_answers_to_its_own_identity() {
    let child = StaticChild::new(remote("tag:5", "urgent", false));
    assert_eq!(child.key().to_compact(), "tag:5");
    assert_eq!(child.get().title, "urgent");
}

#[test]
fn a_loading_entry_projects_to_nothing() {
    let mut state: QueryState<ItemRemote> =
        QueryState::new(Selector::from_text("SELECT * FROM item").unwrap(), Parameters::empty());
    assert!(project::<Item>(&state, &ItemLocal { highlight: false }).is_empty());
    state.start_fetch();
    assert!(project::<Item>(&state, &ItemLocal { highlight: false }).is_empty());
}
