use syewreal::error::{ContextKind, ErrorKind, SurrealError};
use syewreal::id::ID;
use syewreal::logging::{handle_error, panic_error, ErrorAction, ReportPolicy};
use syewreal::self_ref::{use_self_ref, SurrealSelfRef};
use syewreal::session::{use_surreal, SurrealToken};

#[test]
fn sign_in_success_flips_readiness_on() {
    let mut token = SurrealToken::new();
    assert!(!token.is_ready());
    token.begin_sign_in();
    assert!(!token.is_ready());
    token.complete_sign_in(Ok(()));
    assert!(token.is_ready());
    assert!(token.error.is_none());
}

#[test]
fn sign_in_failure_reports_and_stays_unready() {
    let mut token = SurrealToken::new();
    token.begin_sign_in();
    token.complete_sign_in(Err(SurrealError::Transport("refused".to_string())));
    assert!(!token.is_ready());
    let stored = token.error.as_ref().expect("the failure is recorded");
    assert_eq!(stored.kind(), ErrorKind::Transport);
    // A later sign-in starts clean.
    token.begin_sign_in();
    assert!(token.error.is_none());
    token.complete_sign_in(Ok(()));
    assert!(token.is_ready());
}

#[test]
fn session_lookup_outside_scope_fails_loudly() {
    let err = use_surreal(None).unwrap_err();
    assert_eq!(err.kind(), ErrorKind::MissingContext);
    match err {
        SurrealError::MissingContext(kind) => assert_eq!(kind, ContextKind::Session),
        _ => panic!("wrong variant"),
    }
    let token = use_surreal(Some(SurrealToken::new())).unwrap();
    assert!(!token.is_ready());
}

#[test]
fn self_ref_lookup_outside_scope_fails_loudly() {
    // A self-reference looked up where no owning context was provided
    // fails with a missing-context error, never a usable handle.
    let err = use_self_ref(None).unwrap_err();
    match &err {
        SurrealError::MissingContext(kind) => assert_eq!(*kind, ContextKind::SelfRef),
        _ => panic!("wrong variant"),
    }
    assert_eq!(
        err.describe(),
        "no self-reference in scope: the item is not managed by a query"
    );

    let given = SurrealSelfRef { index: 3, id: ID::from_compact("item:1").unwrap() };
    let taken = use_self_ref(Some(given)).unwrap();
    assert_eq!(taken.index, 3);
    assert_eq!(taken.id.to_compact(), "item:1");
}

#[test]
fn missing_context_is_fatal_under_either_policy() {
    let error = SurrealError::MissingContext(ContextKind::Session);
    assert!(matches!(
        handle_error(ReportPolicy::PrintOnError, &error),
        ErrorAction::Fatal(_)
    ));
    assert!(matches!(
        handle_error(ReportPolicy::PanicOnError, &error),
        ErrorAction::Fatal(_)
    ));
}

#[test]
fn ordinary_errors_follow_the_policy_switch() {
    let error = SurrealError::Transport("timeout".to_string());
    match handle_error(ReportPolicy::PrintOnError, &error) {
        ErrorAction::Print(message) => assert_eq!(message, "transport failure: timeout"),
        ErrorAction::Fatal(_) => panic!("print policy must not be fatal here"),
    }
    assert!(matches!(
        handle_error(ReportPolicy::PanicOnError, &error),
        ErrorAction::Fatal(_)
    ));
    match panic_error(&error) {
        ErrorAction::Fatal(message) => assert_eq!(message, "transport failure: timeout"),
        ErrorAction::Print(_) => panic!("panic_error is always fatal"),
    }
}

#[test]
fn every_error_variant_describes_itself() {
    let cases = [
        (SurrealError::Parse("boom".to_string()), "malformed selector: boom"),
        (SurrealError::Transport("x".to_string()), "transport failure: x"),
        (
            SurrealError::Deserialization("y".to_string()),
            "unexpected server payload: y",
        ),
        (
            SurrealError::MissingContext(ContextKind::Session),
            "no session in scope: wrap the consumer in a session context",
        ),
    ];
    for (error, expected) in cases {
        assert_eq!(error.describe(), *expected);
    }
}
