//! Stable record identities.
//!
//! A record identity names one server-side record for its whole lifetime. It
//! carries a table name and a record key, and travels in a compact
//! `table:key` text form; because the colon is the form's separator, neither
//! part may contain one. The structured `{table, key}` form arrives as two
//! optional fields, either of which a malformed payload may omit.

use vstd::prelude::*;
use vstd::string::*;

use crate::error::SurrealError;
use crate::text::{
    contains_char, lemma_join_of_split_pair, lemma_split_free_of_sep, lemma_split_no_sep,
    spec_split, split_on,
};

verus! {

/// The mathematical content of a record identity.
#[verifier::ext_equal]
pub struct IdView {
    pub table: Seq<char>,
    pub key: Seq<char>,
}

impl IdView {
    /// Neither part may contain the compact form's separator.
    pub open spec fn wf(self) -> bool {
        !self.table.contains(':') && !self.key.contains(':')
    }

    /// The compact `table:key` text form.
    pub open spec fn compact(self) -> Seq<char> {
        self.table + seq![':'] + self.key
    }
}

/// A stable, comparable identity of one server-side record.
#[derive(Debug)]
pub struct ID {
    table: String,
    key: String,
}

impl View for ID {
    type V = IdView;

    closed spec fn view(&self) -> IdView {
        IdView { table: self.table@, key: self.key@ }
    }
}

/// Anything that can name the server-side record it stands for.
pub trait HasID {
    /// The identity this value claims, as a specification-level fact.
    spec fn spec_id(&self) -> IdView;

    /// The identity this value claims.
    fn id(&self) -> (r: ID)
        ensures
            r@ == self.spec_id(),
    ;
}

impl ID {
    /// Build an identity from its two parts, rejecting parts that could not
    /// survive the compact text form.
    pub fn new(table: String, key: String) -> (r: Result<ID, SurrealError>)
        ensures
            r is Ok <==> (!table@.contains(':') && !key@.contains(':')),
            r is Ok ==> r->Ok_0@ == (IdView { table: table@, key: key@ }),
            r is Err ==> r->Err_0 is Deserialization,
    {
        if contains_char(table.as_str(), ':') || contains_char(key.as_str(), ':') {
            Err(
                SurrealError::Deserialization(
                    String::from_str("record identity parts may not contain ':'"),
                ),
            )
        } else {
            Ok(ID { table, key })
        }
    }

    /// The table part.
    pub fn table(&self) -> (r: &String)
        ensures
            r@ == self@.table,
    {
        &self.table
    }

    /// The record key part.
    pub fn key(&self) -> (r: &String)
        ensures
            r@ == self@.key,
    {
        &self.key
    }

    /// An identical copy.
    pub fn duplicate(&self) -> (r: ID)
        ensures
            r@ == self@,
    {
        ID { table: self.table.clone(), key: self.key.clone() }
    }

    /// Whether two identities name the same record.
    pub fn same_as(&self, other: &ID) -> (r: bool)
        ensures
            r == (self@ == other@),
    {
        let eq = self.table.eq(&other.table) && self.key.eq(&other.key);
        proof {
            if self@.table == other@.table && self@.key == other@.key {
                assert(self@ =~= other@);
            }
        }
        eq
    }

    /// Render the compact `table:key` form.
    pub fn to_compact(&self) -> (r: String)
        ensures
            r@ == self@.compact(),
    {
        let mut r = self.table.clone();
        r.append(":");
        r.append(self.key.as_str());
        proof {
            reveal_strlit(":");
            assert(":"@ =~= seq![':']);
        }
        r
    }

    /// Parse the compact `table:key` form: the text must split on `':'` into
    /// exactly two parts.
    pub fn from_compact(s: &str) -> (r: Result<ID, SurrealError>)
        ensures
            r is Ok <==> spec_split(s@, ':').len() == 2,
            r is Ok ==> r->Ok_0@ == (IdView {
                table: spec_split(s@, ':')[0],
                key: spec_split(s@, ':')[1],
            }),
            r is Ok ==> r->Ok_0@.wf(),
            r is Err ==> r->Err_0 is Deserialization,
    {
        let mut parts = split_on(s, ':');
        if parts.len() == 2 {
            proof {
                lemma_split_free_of_sep(s@, ':');
            }
            let key = parts.pop().unwrap();
            let table = parts.pop().unwrap();
            Ok(ID { table, key })
        } else {
            Err(
                SurrealError::Deserialization(
                    String::from_str("a compact record identity must be \"table:key\""),
                ),
            )
        }
    }

    /// Assemble an identity from the structured form's two optional fields,
    /// failing on whichever is missing.
    pub fn from_fields(table: Option<String>, key: Option<String>) -> (r: Result<
        ID,
        SurrealError,
    >)
        ensures
            r is Ok <==> (table is Some && key is Some && !table->0@.contains(':')
                && !key->0@.contains(':')),
            r is Ok ==> r->Ok_0@ == (IdView { table: table->0@, key: key->0@ }),
            r is Err ==> r->Err_0 is Deserialization,
    {
        match (table, key) {
            (Some(table), Some(key)) => ID::new(table, key),
            (None, _) => Err(
                SurrealError::Deserialization(
                    String::from_str("structured record identity misses its table field"),
                ),
            ),
            (Some(_), None) => Err(
                SurrealError::Deserialization(
                    String::from_str("structured record identity misses its key field"),
                ),
            ),
        }
    }
}

/// Parsing the compact form of a well-formed identity restores the identity:
/// the compact form splits back into exactly its two parts.
pub proof fn lemma_compact_round_trip(v: IdView)
    requires
        v.wf(),
    ensures
        spec_split(v.compact(), ':') =~~= seq![v.table, v.key],
{
    lemma_join_of_split_pair(v.table, v.key, ':');
    lemma_split_no_sep(v.key, ':');
}

} // verus!
