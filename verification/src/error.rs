//! Failure values surfaced by the library.
//!
//! Every fallible public operation returns one of these; the library never
//! retries internally.

use vstd::prelude::*;

verus! {

/// Mathematical picture of a database error.
#[verifier::ext_equal]
pub ghost enum DbErrModel {
    /// A backend connection could not be acquired or established.
    Conn(Seq<char>),
    /// A statement was malformed or rejected by the backend.
    Query(Seq<char>),
    /// A write statement failed.
    Exec(Seq<char>),
    /// An update addressed to a specific record affected zero rows while the
    /// "must affect a row" mode was requested.
    RecordNotFound(Seq<char>),
    /// A fetched row could not be materialized into a typed model; the text
    /// names the offending column.
    Decode(Seq<char>),
}

/// A database error, carrying a human-readable description.
#[derive(Debug)]
pub enum DbErr {
    Conn(String),
    Query(String),
    Exec(String),
    RecordNotFound(String),
    Decode(String),
}

impl View for DbErr {
    type V = DbErrModel;

    open spec fn view(&self) -> DbErrModel {
        match self {
            DbErr::Conn(s) => DbErrModel::Conn(s@),
            DbErr::Query(s) => DbErrModel::Query(s@),
            DbErr::Exec(s) => DbErrModel::Exec(s@),
            DbErr::RecordNotFound(s) => DbErrModel::RecordNotFound(s@),
            DbErr::Decode(s) => DbErrModel::Decode(s@),
        }
    }
}

impl Clone for DbErr {
    fn clone(&self) -> (r: Self)
        ensures
            r@ == self@,
    {
        match self {
            DbErr::Conn(s) => DbErr::Conn(s.clone()),
            DbErr::Query(s) => DbErr::Query(s.clone()),
            DbErr::Exec(s) => DbErr::Exec(s.clone()),
            DbErr::RecordNotFound(s) => DbErr::RecordNotFound(s.clone()),
            DbErr::Decode(s) => DbErr::Decode(s.clone()),
        }
    }
}

impl PartialEq for DbErr {
    fn eq(&self, other: &Self) -> (r: bool)
    {
        match (self, other) {
            (DbErr::Conn(a), DbErr::Conn(b)) => *a == *b,
            (DbErr::Query(a), DbErr::Query(b)) => *a == *b,
            (DbErr::Exec(a), DbErr::Exec(b)) => *a == *b,
            (DbErr::RecordNotFound(a), DbErr::RecordNotFound(b)) => *a == *b,
            (DbErr::Decode(a), DbErr::Decode(b)) => *a == *b,
            _ => false,
        }
    }
}

impl vstd::std_specs::cmp::PartialEqSpecImpl for DbErr {
    open spec fn obeys_eq_spec() -> bool {
        true
    }

    open spec fn eq_spec(&self, other: &Self) -> bool {
        self@ == other@
    }
}

impl Eq for DbErr {}

impl DbErr {
    /// The error's description.
    pub fn message(&self) -> (r: &String)
        ensures
            self@ == DbErrModel::Conn(r@) || self@ == DbErrModel::Query(r@) || self@
                == DbErrModel::Exec(r@) || self@ == DbErrModel::RecordNotFound(r@) || self@
                == DbErrModel::Decode(r@),
    {
        match self {
            DbErr::Conn(s) => s,
            DbErr::Query(s) => s,
            DbErr::Exec(s) => s,
            DbErr::RecordNotFound(s) => s,
            DbErr::Decode(s) => s,
        }
    }
}

} // verus!
