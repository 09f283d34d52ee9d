use syewreal::cache::QueryCache;
use syewreal::query_state::Phase;
use syewreal::selector::{Parameters, Selector};

fn parse(text: &str) -> Selector {
    Selector::from_text(text).unwrap()
}

#[test]
fn a_miss_creates_a_loading_entry_owing_one_fetch() {
    let mut cache: QueryCache<i32> = QueryCache::new();
    let (slot, cmd) = cache.get(parse("SELECT * FROM item"), Parameters::empty());
    assert_eq!(cache.len(), 1);
    assert_eq!(slot, 0);
    let cmd = cmd.expect("a miss owes a fetch");
    assert_eq!(cmd.slot, 0);
    assert_eq!(cmd.ticket.epoch, 1);
    assert_eq!(cache.entry(slot).phase(), Phase::Loading);
}

#[test]
fn selectors_compiling_alike_share_one_entry_and_one_fetch() {
    // Two separately parsed texts compile to identical wire statements and
    // parameter lists: they are one cache key, one entry instance, and the
    // second `get` during loading starts no second transport call.
    let mut cache: QueryCache<i32> = QueryCache::new();
    let (first_slot, first_cmd) = cache.get(parse("SELECT * FROM item"), Parameters::empty());
    assert!(first_cmd.is_some());
    assert_eq!(cache.entry(first_slot).phase(), Phase::Loading);
    let (second_slot, second_cmd) = cache.get(parse("SELECT * FROM item"), Parameters::empty());
    assert_eq!(second_slot, first_slot);
    assert!(second_cmd.is_none(), "no second fetch for the same key");
    assert_eq!(cache.len(), 1);
}

#[test]
fn different_keys_get_different_entries() {
    let mut cache: QueryCache<i32> = QueryCache::new();
    let (a, cmd_a) = cache.get(parse("SELECT * FROM item"), Parameters::empty());
    let (b, cmd_b) = cache.get(parse("SELECT * FROM user"), Parameters::empty());
    let (c, cmd_c) = cache.get(
        parse("SELECT * FROM item"),
        Parameters::single("k".to_string(), "v".to_string()),
    );
    assert_ne!(a, b);
    assert_ne!(a, c);
    assert_ne!(b, c);
    assert!(cmd_a.is_some() && cmd_b.is_some() && cmd_c.is_some());
    assert_eq!(cache.len(), 3);
}

#[test]
fn a_ready_entry_is_returned_without_a_new_fetch() {
    let mut cache: QueryCache<i32> = QueryCache::new();
    let (slot, cmd) = cache.get(parse("SELECT * FROM item"), Parameters::empty());
    let ticket = cmd.unwrap().ticket;
    assert!(cache.entry_mut(slot).apply_fetch_result(ticket, Ok(vec![5])));
    let (again, cmd2) = cache.get(parse("SELECT * FROM item"), Parameters::empty());
    assert_eq!(again, slot);
    assert!(cmd2.is_none());
    assert_eq!(cache.entry(slot).get_list(), &vec![5]);
}

#[test]
fn the_empty_selector_is_a_key_of_its_own() {
    let mut cache: QueryCache<i32> = QueryCache::new();
    let (slot, cmd) = cache.get(Selector::empty(), Parameters::empty());
    assert!(cmd.is_some());
    let (again, cmd2) = cache.get(parse(""), Parameters::empty());
    assert_eq!(slot, again);
    assert!(cmd2.is_none());
}
