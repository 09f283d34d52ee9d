//! The session handle: the process-wide connection state that all querying
//! UI gates on.
//!
//! Readiness is the only externally observable state. Signing in first
//! drops readiness, then the transport's connect-and-sign-in round trip
//! reports back: success flips readiness on; failure records the error and
//! leaves readiness off, and is never retried automatically. Consumers look
//! the handle up where one was provided; looking it up outside any session
//! scope is a programmer error that fails loudly.

use vstd::prelude::*;

use crate::error::{ContextKind, SurrealError};

verus! {

/// The process-wide handle to the connection.
#[derive(Debug)]
pub struct SurrealToken {
    /// Whether the connection is signed in and usable.
    pub ready: bool,
    /// The error the last sign-in attempt failed with, if it failed.
    pub error: Option<SurrealError>,
}

impl SurrealToken {
    /// A handle that is not yet signed in.
    pub fn new() -> (r: SurrealToken)
        ensures
            !r.ready,
            r.error is None,
    {
        SurrealToken { ready: false, error: None }
    }

    /// Whether querying may proceed.
    pub fn is_ready(&self) -> (r: bool)
        ensures
            r == self.ready,
    {
        self.ready
    }

    /// Begin a sign-in: readiness is dropped before the transport is asked,
    /// so no consumer queries over a connection that is being replaced.
    pub fn begin_sign_in(&mut self)
        ensures
            !final(self).ready,
            final(self).error is None,
    {
        self.ready = false;
        self.error = None;
    }

    /// Record what the transport's connect-and-sign-in round trip came back
    /// with: success makes the handle ready; failure records the error and
    /// leaves the handle unready. Nothing retries automatically.
    pub fn complete_sign_in(&mut self, outcome: Result<(), SurrealError>)
        ensures
            outcome is Ok ==> (final(self).ready && final(self).error is None),
            outcome matches Err(e) ==> (!final(self).ready && (final(self).error matches Some(
                stored,
            ) && stored.spec_view() == e.spec_view())),
    {
        match outcome {
            Ok(()) => {
                self.ready = true;
                self.error = None;
            },
            Err(e) => {
                self.ready = false;
                self.error = Some(e);
            },
        }
    }
}

/// Take the session handle that the surrounding scope provided. Where none
/// is in scope, the lookup is a programmer error and fails with a
/// missing-context error rather than degrading silently.
pub fn use_surreal(ctx: Option<SurrealToken>) -> (r: Result<SurrealToken, SurrealError>)
    ensures
        ctx matches Some(given) ==> (r matches Ok(taken) && taken == given),
        ctx is None ==> (r matches Err(e) && e == SurrealError::MissingContext(
            ContextKind::Session,
        )),
{
    match ctx {
        Some(given) => Ok(given),
        None => Err(SurrealError::MissingContext(ContextKind::Session)),
    }
}

} // verus!
