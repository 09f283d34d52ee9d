use syewreal::error::ErrorKind;
use syewreal::id::ID;

#[test]
fn compact_form_splits_into_table_and_key() {
    let id = ID::from_compact("item:1").unwrap();
    assert_eq!(id.table().as_str(), "item");
    assert_eq!(id.key().as_str(), "1");
}

#[test]
fn compact_form_round_trips() {
    let id = ID::from_compact("todo:abc_7").unwrap();
    let text = id.to_compact();
    assert_eq!(text, "todo:abc_7");
    let again = ID::from_compact(text.as_str()).unwrap();
    assert!(id.same_as(&again));
}

#[test]
fn compact_form_needs_exactly_two_parts() {
    for text in ["item", "a:b:c", "", ":::"] {
        let r = ID::from_compact(text);
        match r {
            Err(e) => assert_eq!(e.kind(), ErrorKind::Deserialization, "for {text:?}"),
            Ok(_) => panic!("{text:?} should not be a compact identity"),
        }
    }
    // Empty parts are tolerated, as long as there are exactly two of them.
    assert!(ID::from_compact("a:").is_ok());
    assert!(ID::from_compact(":b").is_ok());
}

#[test]
fn structured_form_needs_both_fields() {
    let ok = ID::from_fields(Some("item".to_string()), Some("1".to_string())).unwrap();
    assert_eq!(ok.to_compact(), "item:1");
    assert_eq!(
        ID::from_fields(None, Some("1".to_string())).unwrap_err().kind(),
        ErrorKind::Deserialization
    );
    assert_eq!(
        ID::from_fields(Some("item".to_string()), None).unwrap_err().kind(),
        ErrorKind::Deserialization
    );
}

#[test]
fn parts_may_not_contain_the_separator() {
    assert_eq!(
        ID::new("it:em".to_string(), "1".to_string()).unwrap_err().kind(),
        ErrorKind::Deserialization
    );
    assert_eq!(
        ID::new("item".to_string(), "1:2".to_string()).unwrap_err().kind(),
        ErrorKind::Deserialization
    );
    assert!(ID::new("item".to_string(), "12".to_string()).is_ok());
}

#[test]
fn identity_comparison_is_by_both_parts() {
    let a = ID::from_compact("item:1").unwrap();
    let b = ID::from_compact("item:1").unwrap();
    let c = ID::from_compact("item:2").unwrap();
    let d = ID::from_compact("user:1").unwrap();
    assert!(a.same_as(&b));
    assert!(!a.same_as(&c));
    assert!(!a.same_as(&d));
    assert!(a.same_as(&a.duplicate()));
}
