use syewreal::error::{ErrorKind, SurrealError};
use syewreal::query_state::{Phase, QueryState, ReadOutcome};
use syewreal::selector::{Parameters, Selector};

fn fresh_state() -> QueryState<i32> {
    QueryState::new(
        Selector::from_text("SELECT * FROM item").unwrap(),
        Parameters::empty(),
    )
}

#[test]
fn a_new_entry_is_idle_and_empty() {
    let state = fresh_state();
    assert_eq!(state.phase(), Phase::Idle);
    assert_eq!(state.epoch(), 0);
    assert!(state.error().is_none());
    assert!(state.get_data().is_none());
    assert!(matches!(state.read(), ReadOutcome::Loading));
}

#[test]
fn a_fetch_loads_then_materializes_rows() {
    let mut state = fresh_state();
    let ticket = state.start_fetch();
    assert_eq!(state.phase(), Phase::Loading);
    assert!(matches!(state.read(), ReadOutcome::Loading));
    let applied = state.apply_fetch_result(ticket, Ok(vec![10, 20]));
    assert!(applied);
    assert_eq!(state.phase(), Phase::Ready);
    match state.read() {
        ReadOutcome::Ready(rows) => assert_eq!(rows, &vec![10, 20]),
        _ => panic!("entry should be ready"),
    }
    // An intentionally empty result is still success, not an error.
    let ticket = state.start_fetch();
    assert!(state.apply_fetch_result(ticket, Ok(vec![])));
    assert_eq!(state.phase(), Phase::Ready);
    assert_eq!(state.get_list().len(), 0);
    assert!(state.error().is_none());
}

#[test]
fn a_failed_fetch_is_recorded_and_keeps_the_phase() {
    let mut state = fresh_state();
    let ticket = state.start_fetch();
    let applied = state.apply_fetch_result(
        ticket,
        Err(SurrealError::Transport("connection reset".to_string())),
    );
    assert!(!applied);
    assert_eq!(state.phase(), Phase::Loading);
    match state.read() {
        ReadOutcome::Failed(e) => {
            assert_eq!(e.kind(), ErrorKind::Transport);
            assert_eq!(e.describe(), "transport failure: connection reset");
        },
        _ => panic!("the failure should be observable"),
    }
}

#[test]
fn a_superseded_fetch_result_is_discarded() {
    let mut state = fresh_state();
    let stale = state.start_fetch();
    let current = state.start_fetch();
    assert!(!state.apply_fetch_result(stale, Ok(vec![1])));
    assert_eq!(state.phase(), Phase::Loading);
    assert!(state.get_data().is_none());
    assert!(state.apply_fetch_result(current, Ok(vec![2])));
    assert_eq!(state.get_list(), &vec![2]);
}

#[test]
fn append_grows_the_list_by_one_at_the_end() {
    let mut state = fresh_state();
    let ticket = state.start_fetch();
    state.apply_fetch_result(ticket, Ok(vec![1, 2, 3]));
    state.append(4);
    let rows = state.get_list();
    assert_eq!(rows.len(), 4);
    assert_eq!(rows[3], 4);
    assert_eq!(&rows[..3], &[1, 2, 3]);
}

#[test]
fn replace_at_swaps_one_row_in_place() {
    let mut state = fresh_state();
    let ticket = state.start_fetch();
    state.apply_fetch_result(ticket, Ok(vec![1, 2, 3]));
    state.set_target(1, Some(20));
    assert_eq!(state.get_list(), &vec![1, 20, 3]);
}

#[test]
fn replace_at_absent_removes_and_shifts_down() {
    let mut state = fresh_state();
    let ticket = state.start_fetch();
    state.apply_fetch_result(ticket, Ok(vec![1, 2, 3, 4]));
    state.set_target(1, None);
    let rows = state.get_list();
    assert_eq!(rows.len(), 3);
    assert_eq!(rows, &vec![1, 3, 4]);
    state.set_target(2, None);
    assert_eq!(state.get_list(), &vec![1, 3]);
    state.set_target(0, None);
    assert_eq!(state.get_list(), &vec![3]);
}

#[test]
fn rekey_with_the_same_key_changes_nothing() {
    let mut state = fresh_state();
    let ticket = state.start_fetch();
    state.apply_fetch_result(ticket, Ok(vec![1]));
    let t = state.rekey(
        Selector::from_text("SELECT * FROM item").unwrap(),
        Parameters::empty(),
    );
    assert!(t.is_none());
    assert_eq!(state.phase(), Phase::Ready);
    assert_eq!(state.get_list(), &vec![1]);
}

#[test]
fn rekey_with_a_new_key_forces_a_fresh_fetch() {
    let mut state = fresh_state();
    let stale = state.start_fetch();
    let fresh = state
        .rekey(
            Selector::from_text("SELECT * FROM other").unwrap(),
            Parameters::empty(),
        )
        .expect("a changed key owes a fetch");
    assert_eq!(state.phase(), Phase::Loading);
    // The superseded fetch's eventual result is a no-op for the new key.
    assert!(!state.apply_fetch_result(stale, Ok(vec![9])));
    assert!(state.get_data().is_none());
    assert!(state.apply_fetch_result(fresh, Ok(vec![7])));
    assert_eq!(state.get_list(), &vec![7]);
    assert_eq!(
        state.get_selector().to_wire_text(),
        "SELECT * FROM other"
    );
}
