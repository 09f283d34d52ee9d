//! The shape of a transport answer: one result set per statement sent.
//!
//! The transport hands back, for each statement, either its deserialized
//! rows or the error that set failed with. Consumers address sets by
//! position — the fetch algorithm takes the first and only set, an update
//! takes its re-select's set — and asking for a set the answer does not
//! hold is itself a deserialization failure, never silently empty rows.

use vstd::prelude::*;
use vstd::string::*;

use crate::error::SurrealError;

verus! {

/// A transport answer: the result sets of one round trip, in statement
/// order.
#[derive(Debug)]
pub struct Response<R> {
    pub sets: Vec<Result<Vec<R>, SurrealError>>,
}

impl<R> Response<R> {
    /// Wrap the transport's sets.
    pub fn new(sets: Vec<Result<Vec<R>, SurrealError>>) -> (r: Response<R>)
        ensures
            r.sets@ == sets@,
    {
        Response { sets }
    }

    /// How many result sets came back.
    pub fn len(&self) -> (n: usize)
        ensures
            n == self.sets@.len(),
    {
        self.sets.len()
    }

    /// Take the result set at `index`: exactly that statement's rows or
    /// failure. An index the answer does not hold fails rather than
    /// presenting empty rows as success.
    pub fn into_set(self, index: usize) -> (r: Result<Vec<R>, SurrealError>)
        ensures
            index < self.sets@.len() ==> r == self.sets@[index as int],
            index >= self.sets@.len() ==> (r matches Err(e) && e is Deserialization),
    {
        let mut sets = self.sets;
        if index < sets.len() {
            sets.remove(index)
        } else {
            Err(
                SurrealError::Deserialization(
                    String::from_str("the answer holds no result set at this position"),
                ),
            )
        }
    }

    /// Take the first and only result set, as the fetch algorithm reads a
    /// single-statement answer.
    pub fn into_first(self) -> (r: Result<Vec<R>, SurrealError>)
        ensures
            self.sets@.len() > 0 ==> r == self.sets@[0],
            self.sets@.len() == 0 ==> (r matches Err(e) && e is Deserialization),
    {
        self.into_set(0)
    }
}

} // verus!
