//! Typed edges between entities, backed by foreign keys.

use vstd::prelude::*;
use crate::error::{DbErr, DbErrModel};
use crate::expr::ColumnRef;

verus! {

/// The cardinality of a relation edge.
#[derive(Clone, Copy, Debug, PartialEq, Eq, Structural)]
pub enum RelationType {
    HasOne,
    HasMany,
    BelongsTo,
}

/// The key columns on one side of a relation.  Only unary (single-column)
/// identities are supported: a join over a composite key cannot be built.
#[derive(Debug)]
pub enum Identity {
    Unary(String),
}

/// Mathematical picture of an [`Identity`].
#[verifier::ext_equal]
pub ghost enum IdentityModel {
    Unary(Seq<char>),
}

impl View for Identity {
    type V = IdentityModel;

    open spec fn view(&self) -> IdentityModel {
        match self {
            Identity::Unary(s) => IdentityModel::Unary(s@),
        }
    }
}

impl Clone for Identity {
    fn clone(&self) -> (r: Self)
        ensures
            r@ == self@,
    {
        match self {
            Identity::Unary(s) => Identity::Unary(s.clone()),
        }
    }
}

impl Identity {
    /// The single column name of a unary identity.
    pub open spec fn spec_col(&self) -> Seq<char> {
        match self@ {
            IdentityModel::Unary(s) => s,
        }
    }

    /// The single column name of a unary identity.
    pub fn col(&self) -> (r: &String)
        ensures
            r@ == self.spec_col(),
    {
        match self {
            Identity::Unary(s) => s,
        }
    }
}

/// A completed relation edge between two entities.
#[derive(Debug)]
pub struct RelationDef {
    pub rel_type: RelationType,
    pub from_tbl: String,
    pub to_tbl: String,
    pub from_col: Identity,
    pub to_col: Identity,
}

/// Mathematical picture of a [`RelationDef`].
#[verifier::ext_equal]
pub ghost struct RelationDefModel {
    pub rel_type: RelationType,
    pub from_tbl: Seq<char>,
    pub to_tbl: Seq<char>,
    pub from_col: IdentityModel,
    pub to_col: IdentityModel,
}

impl View for RelationDef {
    type V = RelationDefModel;

    open spec fn view(&self) -> RelationDefModel {
        RelationDefModel {
            rel_type: self.rel_type,
            from_tbl: self.from_tbl@,
            to_tbl: self.to_tbl@,
            from_col: self.from_col@,
            to_col: self.to_col@,
        }
    }
}

impl Clone for RelationDef {
    fn clone(&self) -> (r: Self)
        ensures
            r@ == self@,
    {
        RelationDef {
            rel_type: self.rel_type,
            from_tbl: self.from_tbl.clone(),
            to_tbl: self.to_tbl.clone(),
            from_col: self.from_col.clone(),
            to_col: self.to_col.clone(),
        }
    }
}

/// A relation under construction: kind and endpoints are fixed, the key
/// columns are supplied by `from` and `to` before `build` completes it.
#[derive(Debug)]
pub struct RelationBuilder {
    rel_type: RelationType,
    from_tbl: String,
    to_tbl: String,
    from_col: Option<String>,
    to_col: Option<String>,
}

impl RelationBuilder {
    pub closed spec fn spec_rel_type(&self) -> RelationType {
        self.rel_type
    }

    pub closed spec fn spec_from_tbl(&self) -> Seq<char> {
        self.from_tbl@
    }

    pub closed spec fn spec_to_tbl(&self) -> Seq<char> {
        self.to_tbl@
    }

    pub closed spec fn spec_from_col(&self) -> Option<Seq<char>> {
        match self.from_col {
            Some(ref s) => Some(s@),
            None => None,
        }
    }

    pub closed spec fn spec_to_col(&self) -> Option<Seq<char>> {
        match self.to_col {
            Some(ref s) => Some(s@),
            None => None,
        }
    }

    /// Start a relation of the given kind between the two tables.
    pub fn new(rel_type: RelationType, from_tbl: String, to_tbl: String) -> (r: Self)
        ensures
            r.spec_rel_type() == rel_type,
            r.spec_from_tbl() == from_tbl@,
            r.spec_to_tbl() == to_tbl@,
            r.spec_from_col() is None,
            r.spec_to_col() is None,
    {
        RelationBuilder { rel_type, from_tbl, to_tbl, from_col: None, to_col: None }
    }

    /// Name the owning side's key column.
    pub fn from(self, col: &ColumnRef) -> (r: Self)
        ensures
            r.spec_rel_type() == self.spec_rel_type(),
            r.spec_from_tbl() == self.spec_from_tbl(),
            r.spec_to_tbl() == self.spec_to_tbl(),
            r.spec_from_col() == Some(col@.name),
            r.spec_to_col() == self.spec_to_col(),
    {
        RelationBuilder { from_col: Some(col.name.clone()), ..self }
    }

    /// Name the referenced side's key column.
    pub fn to(self, col: &ColumnRef) -> (r: Self)
        ensures
            r.spec_rel_type() == self.spec_rel_type(),
            r.spec_from_tbl() == self.spec_from_tbl(),
            r.spec_to_tbl() == self.spec_to_tbl(),
            r.spec_from_col() == self.spec_from_col(),
            r.spec_to_col() == Some(col@.name),
    {
        RelationBuilder { to_col: Some(col.name.clone()), ..self }
    }

    /// Complete the relation.  Construction fails fast when either key column
    /// is missing: a half-built relation is a contract violation, never a
    /// silently defaulted edge.
    pub fn build(self) -> (r: Result<RelationDef, DbErr>)
        ensures
            r is Ok <==> (self.spec_from_col() is Some && self.spec_to_col() is Some),
            r matches Ok(rel) ==> rel@ == (RelationDefModel {
                rel_type: self.spec_rel_type(),
                from_tbl: self.spec_from_tbl(),
                to_tbl: self.spec_to_tbl(),
                from_col: IdentityModel::Unary(self.spec_from_col().unwrap()),
                to_col: IdentityModel::Unary(self.spec_to_col().unwrap()),
            }),
            r matches Err(e) ==> e@ == DbErrModel::Query(
                "relation is missing a key column on one side"@,
            ),
    {
        match (self.from_col, self.to_col) {
            (Some(f), Some(t)) => Ok(
                RelationDef {
                    rel_type: self.rel_type,
                    from_tbl: self.from_tbl,
                    to_tbl: self.to_tbl,
                    from_col: Identity::Unary(f),
                    to_col: Identity::Unary(t),
                },
            ),
            _ => Err(
                DbErr::Query("relation is missing a key column on one side".to_owned()),
            ),
        }
    }
}

} // verus!
