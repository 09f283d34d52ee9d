//! The error and trace sink policy.
//!
//! The engine never prints or panics itself: every reported error is turned
//! into an [`ErrorAction`] that the embedding executes. Whether ordinary
//! errors are fatal or merely logged is a per-deployment policy, fixed once
//! and passed in; a missing-context error is fatal under either policy,
//! because continuing would operate on undefined state.

use vstd::prelude::*;

use crate::error::SurrealError;

verus! {

/// The direction of a traffic trace entry.
#[derive(Clone, Copy, PartialEq, Eq, Structural, Debug)]
pub enum Operation {
    Update,
    Receive,
}

/// The deployment-wide report policy: hard-fail or log-and-continue.
#[derive(Clone, Copy, PartialEq, Eq, Structural, Debug)]
pub enum ReportPolicy {
    PanicOnError,
    PrintOnError,
}

/// What the embedding must do with a reported error.
pub enum ErrorAction {
    /// Abort loudly with this message.
    Fatal(String),
    /// Print this message and continue.
    Print(String),
}

impl ErrorAction {
    pub open spec fn spec_message(&self) -> Seq<char> {
        match self {
            ErrorAction::Fatal(m) => m@,
            ErrorAction::Print(m) => m@,
        }
    }
}

/// Decide what to do with an error under the deployment's policy.
///
/// A missing-context error is always fatal; any other error follows the
/// policy switch.
pub fn handle_error(policy: ReportPolicy, error: &SurrealError) -> (action: ErrorAction)
    ensures
        (action is Fatal) <==> (policy is PanicOnError || error is MissingContext),
        action.spec_message() == error.spec_message(),
{
    match (policy, error) {
        (ReportPolicy::PanicOnError, _) => ErrorAction::Fatal(error.describe()),
        (ReportPolicy::PrintOnError, SurrealError::MissingContext(_)) => ErrorAction::Fatal(
            error.describe(),
        ),
        (ReportPolicy::PrintOnError, _) => ErrorAction::Print(error.describe()),
    }
}

/// The unconditional hard-fail decision, for errors that no deployment may
/// survive.
pub fn panic_error(error: &SurrealError) -> (action: ErrorAction)
    ensures
        action is Fatal,
        action.spec_message() == error.spec_message(),
{
    ErrorAction::Fatal(error.describe())
}

} // verus!
