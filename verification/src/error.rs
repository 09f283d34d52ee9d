//! The error taxonomy of the engine.
//!
//! Parse and context errors are fatal to the call that raised them; transport
//! and deserialization errors are reported through the single error sink and
//! leave the affected cache entry in its prior phase. A write whose record no
//! longer matches its selector is not an error at all: it is the defined
//! drop-from-list outcome of reconciliation.

use vstd::prelude::*;

verus! {

/// Which context-scoped object was looked up but never provided.
#[derive(Clone, Copy, PartialEq, Eq, Structural, Debug)]
pub enum ContextKind {
    /// The process-wide session handle.
    Session,
    /// The self-reference handed to a rendered item.
    SelfRef,
}

/// The variant of a [`SurrealError`], without its payload.
#[derive(Clone, Copy, PartialEq, Eq, Structural, Debug)]
pub enum ErrorKind {
    Parse,
    Transport,
    Deserialization,
    MissingContext,
}

/// An error of the engine.
#[derive(Debug)]
pub enum SurrealError {
    /// Malformed selector text; fatal to that construction call.
    Parse(String),
    /// Network or connection failure; never retried automatically.
    Transport(String),
    /// A server payload did not match the expected shape.
    Deserialization(String),
    /// A context-scoped lookup outside any providing scope: a programmer
    /// error, always fatal regardless of the deployment's report policy.
    MissingContext(ContextKind),
}

impl SurrealError {
    /// The variant of this error, as a plain comparable value.
    pub open spec fn spec_kind(&self) -> ErrorKind {
        match self {
            SurrealError::Parse(_) => ErrorKind::Parse,
            SurrealError::Transport(_) => ErrorKind::Transport,
            SurrealError::Deserialization(_) => ErrorKind::Deserialization,
            SurrealError::MissingContext(_) => ErrorKind::MissingContext,
        }
    }

    /// The message this error renders to.
    pub open spec fn spec_message(&self) -> Seq<char> {
        match self {
            SurrealError::Parse(m) => "malformed selector: "@ + m@,
            SurrealError::Transport(m) => "transport failure: "@ + m@,
            SurrealError::Deserialization(m) => "unexpected server payload: "@ + m@,
            SurrealError::MissingContext(ContextKind::Session) => {
                "no session in scope: wrap the consumer in a session context"@
            },
            SurrealError::MissingContext(ContextKind::SelfRef) => {
                "no self-reference in scope: the item is not managed by a query"@
            },
        }
    }

    /// Variant and message together: what an error means to an observer.
    pub open spec fn spec_view(&self) -> (ErrorKind, Seq<char>) {
        (self.spec_kind(), self.spec_message())
    }

    /// An identical copy.
    pub fn duplicate(&self) -> (r: SurrealError)
        ensures
            r.spec_view() == self.spec_view(),
    {
        match self {
            SurrealError::Parse(m) => SurrealError::Parse(m.clone()),
            SurrealError::Transport(m) => SurrealError::Transport(m.clone()),
            SurrealError::Deserialization(m) => SurrealError::Deserialization(m.clone()),
            SurrealError::MissingContext(k) => SurrealError::MissingContext(*k),
        }
    }

    pub fn kind(&self) -> (k: ErrorKind)
        ensures
            k == self.spec_kind(),
    {
        match self {
            SurrealError::Parse(_) => ErrorKind::Parse,
            SurrealError::Transport(_) => ErrorKind::Transport,
            SurrealError::Deserialization(_) => ErrorKind::Deserialization,
            SurrealError::MissingContext(_) => ErrorKind::MissingContext,
        }
    }

    /// Render the error as text for the error sink; the engine itself never
    /// formats user-facing UI.
    pub fn describe(&self) -> (m: String)
        ensures
            m@ == self.spec_message(),
    {
        match self {
            SurrealError::Parse(m) => String::from_str("malformed selector: ").concat(m.as_str()),
            SurrealError::Transport(m) => String::from_str("transport failure: ").concat(
                m.as_str(),
            ),
            SurrealError::Deserialization(m) => String::from_str(
                "unexpected server payload: ",
            ).concat(m.as_str()),
            SurrealError::MissingContext(ContextKind::Session) => String::from_str(
                "no session in scope: wrap the consumer in a session context",
            ),
            SurrealError::MissingContext(ContextKind::SelfRef) => String::from_str(
                "no self-reference in scope: the item is not managed by a query",
            ),
        }
    }
}

} // verus!
