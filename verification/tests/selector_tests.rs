use syewreal::selector::{Parameters, Projection, Selector, Target, parameters_eq, selector_eq};

fn parse(text: &str) -> Selector {
    Selector::from_text(text).expect("selector text should parse")
}

#[test]
fn empty_text_is_the_empty_selector() {
    let sel = parse("");
    assert!(sel.base.is_none());
    assert_eq!(sel.to_wire_text(), "");
}

#[test]
fn select_all_from_table_round_trips() {
    let sel = parse("SELECT * FROM item");
    assert!(sel.base.is_some());
    assert_eq!(sel.to_wire_text(), "SELECT * FROM item");
}

#[test]
fn select_fields_and_targets_round_trip() {
    let texts = [
        "SELECT a,b_c FROM t,u:v",
        "SELECT * FROM item WHERE done = false",
        "SELECT * FROM item LIMIT 5",
        "SELECT title FROM item WHERE done = false LIMIT 12",
        "SELECT * FROM item:1",
    ];
    for text in texts {
        assert_eq!(parse(text).to_wire_text(), *text, "round trip of {text:?}");
    }
}

#[test]
fn parsed_structure_matches_the_text() {
    let sel = parse("SELECT a,b FROM t,u:v WHERE x = 1 LIMIT 3");
    let ast = sel.statement().unwrap();
    match &ast.projection {
        Projection::Fields(fields) => assert_eq!(fields, &vec!["a".to_string(), "b".to_string()]),
        Projection::All => panic!("expected named fields"),
    }
    assert_eq!(ast.what.len(), 2);
    match &ast.what[0] {
        Target::Table(name) => assert_eq!(name.as_str(), "t"),
        Target::Record(_) => panic!("expected a table target"),
    }
    match &ast.what[1] {
        Target::Record(id) => {
            assert_eq!(id.table().as_str(), "u");
            assert_eq!(id.key().as_str(), "v");
        },
        Target::Table(_) => panic!("expected a record target"),
    }
    assert_eq!(ast.cond.as_deref(), Some("x = 1"));
    assert_eq!(ast.limit.as_deref(), Some("3"));
}

#[test]
fn malformed_selector_text_is_a_parse_error() {
    let malformed = [
        "SELECT",
        "select * from item",
        "SELECT * FROM",
        "SELECT * FROM a:b:c",
        "SELECT  * FROM item",
        "SELECT * FROM item ",
        "SELECT * FROM item WHERE",
        "SELECT * FROM item LIMIT",
        "SELECT * FROM item LIMIT 05",
        "SELECT * FROM item LIMIT x",
        "SELECT * FROM item LIMIT 1 2",
        "SELECT ,a FROM item",
        "SELECT * FROM 'quoted'",
        "UPDATE item SET done = true",
    ];
    for text in malformed {
        let r = Selector::from_text(text);
        match r {
            Err(e) => assert_eq!(
                e.kind(),
                syewreal::error::ErrorKind::Parse,
                "error kind of {text:?}"
            ),
            Ok(_) => panic!("{text:?} should not parse"),
        }
    }
}

#[test]
fn structural_equality_is_the_cache_key() {
    let a = parse("SELECT * FROM item WHERE done = false");
    let b = parse("SELECT * FROM item WHERE done = false");
    let c = parse("SELECT * FROM item WHERE done = true");
    assert!(selector_eq(&a, &b));
    assert!(!selector_eq(&a, &c));
    assert!(selector_eq(&a, &a.duplicate()));
    assert!(!selector_eq(&a, &Selector::empty()));
}

#[test]
fn scoping_re_aims_the_statement_at_one_record() {
    let sel = parse("SELECT * FROM item WHERE done = false");
    let id = syewreal::id::ID::from_compact("item:1").unwrap();
    let scoped = sel.scoped_to(&id).unwrap();
    assert_eq!(scoped.to_wire_text(), "SELECT * FROM item:1 WHERE done = false");
    assert!(Selector::empty().scoped_to(&id).is_none());
}

#[test]
fn limiting_to_one_keeps_everything_else() {
    let sel = parse("SELECT title FROM item WHERE done = false");
    let limited = sel.limited_to_one().unwrap();
    assert_eq!(limited.to_wire_text(), "SELECT title FROM item WHERE done = false LIMIT 1");
    assert!(Selector::empty().limited_to_one().is_none());
}

#[test]
fn from_record_id_selects_exactly_that_record() {
    let id = syewreal::id::ID::from_compact("item:7").unwrap();
    let sel = Selector::from_record_id(id);
    assert_eq!(sel.to_wire_text(), "SELECT * FROM item:7");
}

#[test]
fn parameters_compare_by_pairs_in_order() {
    let mut a = Parameters::empty();
    a.push_param("k".to_string(), "v".to_string());
    let b = Parameters::single("k".to_string(), "v".to_string());
    let mut c = Parameters::single("k".to_string(), "v".to_string());
    c.push_param("k2".to_string(), "v2".to_string());
    assert!(parameters_eq(&a, &b));
    assert!(!parameters_eq(&a, &c));
    assert_eq!(c.len(), 2);
    assert!(parameters_eq(&c, &c.duplicate()));
}
