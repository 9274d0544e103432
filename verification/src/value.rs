//! Backend-agnostic scalar values bound to statement parameters.

use vstd::prelude::*;

verus! {

/// Mathematical picture of a bound SQL value.
#[verifier::ext_equal]
pub ghost enum ValueModel {
    Null,
    Bool(bool),
    BigInt(int),
    Unsigned(int),
    Text(Seq<char>),
}

/// A scalar that can be bound to a statement parameter, independent of any
/// concrete database backend.
#[derive(Debug)]
pub enum DbValue {
    Null,
    Bool(bool),
    BigInt(i64),
    Unsigned(u64),
    Text(String),
}

impl View for DbValue {
    type V = ValueModel;

    open spec fn view(&self) -> ValueModel {
        match self {
            DbValue::Null => ValueModel::Null,
            DbValue::Bool(b) => ValueModel::Bool(*b),
            DbValue::BigInt(i) => ValueModel::BigInt(*i as int),
            DbValue::Unsigned(u) => ValueModel::Unsigned(*u as int),
            DbValue::Text(s) => ValueModel::Text(s@),
        }
    }
}


impl Clone for DbValue {
    fn clone(&self) -> (r: Self)
        ensures
            r@ == self@,
    {
        match self {
            DbValue::Null => DbValue::Null,
            DbValue::Bool(b) => DbValue::Bool(*b),
            DbValue::BigInt(i) => DbValue::BigInt(*i),
            DbValue::Unsigned(u) => DbValue::Unsigned(*u),
            DbValue::Text(s) => DbValue::Text(s.clone()),
        }
    }
}

impl Default for DbValue {
    /// The value used where a column has no caller-supplied value.
    fn default() -> (r: Self)
        ensures
            r == DbValue::Null,
    {
        DbValue::Null
    }
}

impl PartialEq for DbValue {
    fn eq(&self, other: &Self) -> (r: bool)
    {
        match (self, other) {
            (DbValue::Null, DbValue::Null) => true,
            (DbValue::Bool(a), DbValue::Bool(b)) => *a == *b,
            (DbValue::BigInt(a), DbValue::BigInt(b)) => *a == *b,
            (DbValue::Unsigned(a), DbValue::Unsigned(b)) => *a == *b,
            (DbValue::Text(a), DbValue::Text(b)) => *a == *b,
            _ => false,
        }
    }
}

impl vstd::std_specs::cmp::PartialEqSpecImpl for DbValue {
    open spec fn obeys_eq_spec() -> bool {
        true
    }

    open spec fn eq_spec(&self, other: &Self) -> bool {
        self@ == other@
    }
}

impl Eq for DbValue {}

impl From<i64> for DbValue {
    fn from(v: i64) -> (r: Self)
    {
        DbValue::BigInt(v)
    }
}

impl vstd::std_specs::convert::FromSpecImpl<i64> for DbValue {
    open spec fn obeys_from_spec() -> bool {
        true
    }

    open spec fn from_spec(v: i64) -> Self {
        DbValue::BigInt(v)
    }
}

impl From<u64> for DbValue {
    fn from(v: u64) -> (r: Self)
    {
        DbValue::Unsigned(v)
    }
}

impl vstd::std_specs::convert::FromSpecImpl<u64> for DbValue {
    open spec fn obeys_from_spec() -> bool {
        true
    }

    open spec fn from_spec(v: u64) -> Self {
        DbValue::Unsigned(v)
    }
}

impl From<bool> for DbValue {
    fn from(v: bool) -> (r: Self)
    {
        DbValue::Bool(v)
    }
}

impl vstd::std_specs::convert::FromSpecImpl<bool> for DbValue {
    open spec fn obeys_from_spec() -> bool {
        true
    }

    open spec fn from_spec(v: bool) -> Self {
        DbValue::Bool(v)
    }
}

impl From<String> for DbValue {
    fn from(v: String) -> (r: Self)
    {
        DbValue::Text(v)
    }
}

impl vstd::std_specs::convert::FromSpecImpl<String> for DbValue {
    open spec fn obeys_from_spec() -> bool {
        true
    }

    open spec fn from_spec(v: String) -> Self {
        DbValue::Text(v)
    }
}

} // verus!
