//! Portable SQL expression nodes.
//!
//! Every comparison qualifies the column with its owning table, so an
//! expression stays unambiguous after joins introduce column-name collisions.
//! Construction is pure: no backend is involved until a statement is built.

use vstd::prelude::*;
use crate::value::{DbValue, ValueModel};

verus! {

/// Binary comparison operators available on columns.
#[derive(Clone, Copy, Debug, PartialEq, Eq, Structural)]
pub enum CompareOp {
    Eq,
    Ne,
    Gt,
    Gte,
    Lt,
    Lte,
}

/// A column qualified by its owning table's identifier.
#[derive(Debug)]
pub struct ColumnRef {
    pub table: String,
    pub name: String,
}

impl Clone for ColumnRef {
    fn clone(&self) -> (r: Self)
        ensures
            r@ == self@,
    {
        ColumnRef { table: self.table.clone(), name: self.name.clone() }
    }
}

/// Mathematical picture of a qualified column.
#[verifier::ext_equal]
pub ghost struct ColumnRefModel {
    pub table: Seq<char>,
    pub name: Seq<char>,
}

impl View for ColumnRef {
    type V = ColumnRefModel;

    open spec fn view(&self) -> ColumnRefModel {
        ColumnRefModel { table: self.table@, name: self.name@ }
    }
}

/// A portable boolean or select expression node.
#[derive(Debug)]
pub enum SimpleExpr {
    /// A bare qualified column.
    Column(ColumnRef),
    /// `column <op> value`
    Binary { col: ColumnRef, op: CompareOp, value: DbValue },
    /// `column [NOT] BETWEEN low AND high`
    Between { col: ColumnRef, negated: bool, low: DbValue, high: DbValue },
    /// `column [NOT] LIKE pattern`
    Like { col: ColumnRef, negated: bool, pattern: String },
    /// `left = right` over two qualified columns (join predicates)
    ColumnEquals { left: ColumnRef, right: ColumnRef },
}

/// Mathematical picture of an expression node.
#[verifier::ext_equal]
pub ghost enum ExprModel {
    Column(ColumnRefModel),
    Binary { col: ColumnRefModel, op: CompareOp, value: ValueModel },
    Between { col: ColumnRefModel, negated: bool, low: ValueModel, high: ValueModel },
    Like { col: ColumnRefModel, negated: bool, pattern: Seq<char> },
    ColumnEquals { left: ColumnRefModel, right: ColumnRefModel },
}

impl View for SimpleExpr {
    type V = ExprModel;

    open spec fn view(&self) -> ExprModel {
        match self {
            SimpleExpr::Column(c) => ExprModel::Column(c@),
            SimpleExpr::Binary { col, op, value } => ExprModel::Binary {
                col: col@,
                op: *op,
                value: value@,
            },
            SimpleExpr::Between { col, negated, low, high } => ExprModel::Between {
                col: col@,
                negated: *negated,
                low: low@,
                high: high@,
            },
            SimpleExpr::Like { col, negated, pattern } => ExprModel::Like {
                col: col@,
                negated: *negated,
                pattern: pattern@,
            },
            SimpleExpr::ColumnEquals { left, right } => ExprModel::ColumnEquals {
                left: left@,
                right: right@,
            },
        }
    }
}

impl Clone for SimpleExpr {
    fn clone(&self) -> (r: Self)
        ensures
            r@ == self@,
    {
        match self {
            SimpleExpr::Column(c) => SimpleExpr::Column(c.clone()),
            SimpleExpr::Binary { col, op, value } => SimpleExpr::Binary {
                col: col.clone(),
                op: *op,
                value: value.clone(),
            },
            SimpleExpr::Between { col, negated, low, high } => SimpleExpr::Between {
                col: col.clone(),
                negated: *negated,
                low: low.clone(),
                high: high.clone(),
            },
            SimpleExpr::Like { col, negated, pattern } => SimpleExpr::Like {
                col: col.clone(),
                negated: *negated,
                pattern: pattern.clone(),
            },
            SimpleExpr::ColumnEquals { left, right } => SimpleExpr::ColumnEquals {
                left: left.clone(),
                right: right.clone(),
            },
        }
    }
}

/// The pattern matched by `starts_with`: the needle, then anything.
pub open spec fn starts_with_pattern(s: Seq<char>) -> Seq<char> {
    s.push('%')
}

/// The pattern matched by `ends_with`: anything, then the needle.
pub open spec fn ends_with_pattern(s: Seq<char>) -> Seq<char> {
    seq!['%'] + s
}

/// The pattern matched by `contains`: the needle anywhere.
pub open spec fn contains_pattern(s: Seq<char>) -> Seq<char> {
    seq!['%'] + s + seq!['%']
}

impl ColumnRef {
    /// What a binary comparison on this column looks like.
    pub open spec fn spec_binary(&self, op: CompareOp, v: ValueModel) -> ExprModel {
        ExprModel::Binary { col: self@, op, value: v }
    }

    /// `self = v`
    pub fn eq(&self, v: DbValue) -> (r: SimpleExpr)
        ensures
            r@ == self.spec_binary(CompareOp::Eq, v@),
    {
        SimpleExpr::Binary { col: self.clone(), op: CompareOp::Eq, value: v }
    }

    /// `self <> v`
    pub fn ne(&self, v: DbValue) -> (r: SimpleExpr)
        ensures
            r@ == self.spec_binary(CompareOp::Ne, v@),
    {
        SimpleExpr::Binary { col: self.clone(), op: CompareOp::Ne, value: v }
    }

    /// `self > v`
    pub fn gt(&self, v: DbValue) -> (r: SimpleExpr)
        ensures
            r@ == self.spec_binary(CompareOp::Gt, v@),
    {
        SimpleExpr::Binary { col: self.clone(), op: CompareOp::Gt, value: v }
    }

    /// `self >= v`
    pub fn gte(&self, v: DbValue) -> (r: SimpleExpr)
        ensures
            r@ == self.spec_binary(CompareOp::Gte, v@),
    {
        SimpleExpr::Binary { col: self.clone(), op: CompareOp::Gte, value: v }
    }

    /// `self < v`
    pub fn lt(&self, v: DbValue) -> (r: SimpleExpr)
        ensures
            r@ == self.spec_binary(CompareOp::Lt, v@),
    {
        SimpleExpr::Binary { col: self.clone(), op: CompareOp::Lt, value: v }
    }

    /// `self <= v`
    pub fn lte(&self, v: DbValue) -> (r: SimpleExpr)
        ensures
            r@ == self.spec_binary(CompareOp::Lte, v@),
    {
        SimpleExpr::Binary { col: self.clone(), op: CompareOp::Lte, value: v }
    }

    /// `self BETWEEN a AND b`
    pub fn between(&self, a: DbValue, b: DbValue) -> (r: SimpleExpr)
        ensures
            r@ == (ExprModel::Between { col: self@, negated: false, low: a@, high: b@ }),
    {
        SimpleExpr::Between { col: self.clone(), negated: false, low: a, high: b }
    }

    /// `self NOT BETWEEN a AND b`
    pub fn not_between(&self, a: DbValue, b: DbValue) -> (r: SimpleExpr)
        ensures
            r@ == (ExprModel::Between { col: self@, negated: true, low: a@, high: b@ }),
    {
        SimpleExpr::Between { col: self.clone(), negated: true, low: a, high: b }
    }

    /// `self LIKE s`; the caller escapes literal `%` and `_` in `s`.
    pub fn like(&self, s: &str) -> (r: SimpleExpr)
        ensures
            r@ == (ExprModel::Like { col: self@, negated: false, pattern: s@ }),
    {
        SimpleExpr::Like { col: self.clone(), negated: false, pattern: s.to_owned() }
    }

    /// `self NOT LIKE s`; the caller escapes literal `%` and `_` in `s`.
    pub fn not_like(&self, s: &str) -> (r: SimpleExpr)
        ensures
            r@ == (ExprModel::Like { col: self@, negated: true, pattern: s@ }),
    {
        SimpleExpr::Like { col: self.clone(), negated: true, pattern: s.to_owned() }
    }

    /// `self LIKE 's%'`: the column starts with `s`.
    pub fn starts_with(&self, s: &str) -> (r: SimpleExpr)
        ensures
            r@ == (ExprModel::Like {
                col: self@,
                negated: false,
                pattern: starts_with_pattern(s@),
            }),
    {
        let pattern = s.to_owned().concat("%");
        proof {
            reveal_strlit("%");
            assert(pattern@ =~= starts_with_pattern(s@));
        }
        SimpleExpr::Like { col: self.clone(), negated: false, pattern }
    }

    /// `self LIKE '%s'`: the column ends with `s`.
    pub fn ends_with(&self, s: &str) -> (r: SimpleExpr)
        ensures
            r@ == (ExprModel::Like {
                col: self@,
                negated: false,
                pattern: ends_with_pattern(s@),
            }),
    {
        let mut pattern = String::new();
        pattern.append("%");
        pattern.append(s);
        proof {
            reveal_strlit("%");
            assert(pattern@ =~= ends_with_pattern(s@));
        }
        SimpleExpr::Like { col: self.clone(), negated: false, pattern }
    }

    /// `self LIKE '%s%'`: the column contains `s`.
    pub fn contains(&self, s: &str) -> (r: SimpleExpr)
        ensures
            r@ == (ExprModel::Like {
                col: self@,
                negated: false,
                pattern: contains_pattern(s@),
            }),
    {
        let mut pattern = String::new();
        pattern.append("%");
        pattern.append(s);
        pattern.append("%");
        proof {
            reveal_strlit("%");
            assert(pattern@ =~= contains_pattern(s@));
        }
        SimpleExpr::Like { col: self.clone(), negated: false, pattern }
    }
}

} // verus!
