//! The SELECT statement builder.
//!
//! A `Select` accumulates a projection list, a source table, joins, a
//! conjunction of filters, group-by and order-by clauses onto a typed
//! statement model.  Accumulation is pure; rendering happens only in `build`.

use vstd::prelude::*;
use crate::expr::{ColumnRef, ColumnRefModel, ExprModel, SimpleExpr};
use crate::relation::{IdentityModel, RelationDef, RelationDefModel};
use crate::views::{expr_models, join_models, order_models, proj_models};

verus! {

/// The join kinds the builder can emit.
#[derive(Clone, Copy, Debug, PartialEq, Eq, Structural)]
pub enum JoinKind {
    Inner,
    Left,
    Right,
}

/// One projected output: an expression with an optional alias.
#[derive(Debug)]
pub struct Projection {
    pub expr: SimpleExpr,
    pub alias: Option<String>,
}

/// Mathematical picture of a projection.
#[verifier::ext_equal]
pub ghost struct ProjectionModel {
    pub expr: ExprModel,
    pub alias: Option<Seq<char>>,
}

impl View for Projection {
    type V = ProjectionModel;

    open spec fn view(&self) -> ProjectionModel {
        ProjectionModel {
            expr: self.expr@,
            alias: match self.alias {
                Some(ref a) => Some(a@),
                None => None,
            },
        }
    }
}

/// One join clause: kind, joined table, and its condition.
#[derive(Debug)]
pub struct JoinExpr {
    pub kind: JoinKind,
    pub table: String,
    pub cond: SimpleExpr,
}

/// Mathematical picture of a join clause.
#[verifier::ext_equal]
pub ghost struct JoinModel {
    pub kind: JoinKind,
    pub table: Seq<char>,
    pub cond: ExprModel,
}

impl View for JoinExpr {
    type V = JoinModel;

    open spec fn view(&self) -> JoinModel {
        JoinModel { kind: self.kind, table: self.table@, cond: self.cond@ }
    }
}

/// One order-by clause: an expression and its direction.
#[derive(Debug)]
pub struct OrderExpr {
    pub expr: SimpleExpr,
    pub asc: bool,
}

/// Mathematical picture of an order-by clause.
#[verifier::ext_equal]
pub ghost struct OrderModel {
    pub expr: ExprModel,
    pub asc: bool,
}

impl View for OrderExpr {
    type V = OrderModel;

    open spec fn view(&self) -> OrderModel {
        OrderModel { expr: self.expr@, asc: self.asc }
    }
}


/// Mathematical picture of a whole SELECT statement.
#[verifier::ext_equal]
pub ghost struct SelectModel {
    pub from: Seq<char>,
    pub projections: Seq<ProjectionModel>,
    pub joins: Seq<JoinModel>,
    pub conds: Seq<ExprModel>,
    pub group_bys: Seq<ExprModel>,
    pub orders: Seq<OrderModel>,
}

/// A SELECT statement under construction.
#[derive(Debug)]
pub struct Select {
    pub from_table: String,
    pub projections: Vec<Projection>,
    pub joins: Vec<JoinExpr>,
    pub conds: Vec<SimpleExpr>,
    pub group_bys: Vec<SimpleExpr>,
    pub orders: Vec<OrderExpr>,
}

impl View for Select {
    type V = SelectModel;

    open spec fn view(&self) -> SelectModel {
        SelectModel {
            from: self.from_table@,
            projections: proj_models(self.projections@),
            joins: join_models(self.joins@),
            conds: expr_models(self.conds@),
            group_bys: expr_models(self.group_bys@),
            orders: order_models(self.orders@),
        }
    }
}

/// A statement with no clauses at all.
pub open spec fn empty_select_model() -> SelectModel {
    SelectModel {
        from: seq![],
        projections: seq![],
        joins: seq![],
        conds: seq![],
        group_bys: seq![],
        orders: seq![],
    }
}

/// What `select_only` does to the model: the projection list is cleared.
pub open spec fn spec_select_only(m: SelectModel) -> SelectModel {
    SelectModel { projections: seq![], ..m }
}

/// What `column` does to the model: a table-qualified column projection is
/// appended.
pub open spec fn spec_column(m: SelectModel, c: ColumnRefModel) -> SelectModel {
    SelectModel {
        projections: m.projections.push(
            ProjectionModel { expr: ExprModel::Column(c), alias: None },
        ),
        ..m
    }
}

/// What `column_as` does to the model: an aliased expression is appended.
pub open spec fn spec_column_as(m: SelectModel, e: ExprModel, alias: Seq<char>) -> SelectModel {
    SelectModel {
        projections: m.projections.push(ProjectionModel { expr: e, alias: Some(alias) }),
        ..m
    }
}

/// What `filter` does to the model: the expression is conjoined (AND) onto
/// the accumulated predicate; earlier filters are kept.
pub open spec fn spec_filter(m: SelectModel, e: ExprModel) -> SelectModel {
    SelectModel { conds: m.conds.push(e), ..m }
}

/// What `group_by` does to the model.
pub open spec fn spec_group_by(m: SelectModel, e: ExprModel) -> SelectModel {
    SelectModel { group_bys: m.group_bys.push(e), ..m }
}

/// What `order_by` / `order_by_desc` do to the model: clauses are appended in
/// call order, each with its own direction.
pub open spec fn spec_order_by(m: SelectModel, e: ExprModel, asc: bool) -> SelectModel {
    SelectModel { orders: m.orders.push(OrderModel { expr: e, asc }), ..m }
}

/// The single equality predicate a join over a unary relation emits: the
/// relation's local column equals its foreign column, both table-qualified.
pub open spec fn join_condition(r: RelationDefModel) -> ExprModel {
    ExprModel::ColumnEquals {
        left: ColumnRefModel { table: r.from_tbl, name: r.from_col->Unary_0 },
        right: ColumnRefModel { table: r.to_tbl, name: r.to_col->Unary_0 },
    }
}

/// What `join` does to the model: exactly one join clause is appended, whose
/// condition is the relation's single equality predicate, targeting the
/// relation's `to` table.
pub open spec fn spec_join(m: SelectModel, kind: JoinKind, r: RelationDefModel) -> SelectModel {
    SelectModel {
        joins: m.joins.push(JoinModel { kind, table: r.to_tbl, cond: join_condition(r) }),
        ..m
    }
}

/// The equality predicate `left_join` / `right_join` / `inner_join` emit:
/// as `join_condition`, but the local column is qualified with the SELECT's
/// own source table (the relation is being followed from the statement's own
/// entity).
pub open spec fn own_join_condition(m: SelectModel, r: RelationDefModel) -> ExprModel {
    ExprModel::ColumnEquals {
        left: ColumnRefModel { table: m.from, name: r.from_col->Unary_0 },
        right: ColumnRefModel { table: r.to_tbl, name: r.to_col->Unary_0 },
    }
}

/// What `left_join` / `right_join` / `inner_join` do to the model: exactly
/// one join clause is appended, targeting the relation's `to` table, with the
/// single equality predicate qualified by the statement's own table.
pub open spec fn spec_prepare_join(m: SelectModel, kind: JoinKind, r: RelationDefModel) -> SelectModel {
    SelectModel {
        joins: m.joins.push(JoinModel { kind, table: r.to_tbl, cond: own_join_condition(m, r) }),
        ..m
    }
}

/// What `join_rev` does to the model: as `spec_join`, but the relation is
/// followed backwards, so the `from` table is the one joined in.
pub open spec fn spec_join_rev(m: SelectModel, kind: JoinKind, r: RelationDefModel) -> SelectModel {
    SelectModel {
        joins: m.joins.push(JoinModel { kind, table: r.from_tbl, cond: join_condition(r) }),
        ..m
    }
}

impl Select {
    /// Clear the default full-column projection.  Call before adding explicit
    /// `column` / `column_as` projections, otherwise both default and
    /// explicit columns appear.
    pub fn select_only(self) -> (r: Self)
        ensures
            r@ == spec_select_only(self@),
    {
        let mut s = self;
        s.projections = Vec::new();
        proof {
            assert(s@.projections =~= Seq::<ProjectionModel>::empty());
        }
        s
    }

    /// Append a projected column, qualified by its owning table.
    pub fn column(self, col: &ColumnRef) -> (r: Self)
        ensures
            r@ == spec_column(self@, col@),
    {
        let ghost before = self@;
        let mut s = self;
        s.projections.push(Projection { expr: SimpleExpr::Column(col.clone()), alias: None });
        proof {
            assert(s@.projections =~= spec_column(before, col@).projections);
        }
        s
    }

    /// Append any expression under an explicit output alias.
    pub fn column_as(self, expr: SimpleExpr, alias: &str) -> (r: Self)
        ensures
            r@ == spec_column_as(self@, expr@, alias@),
    {
        let ghost before = self@;
        let ghost e = expr@;
        let mut s = self;
        s.projections.push(Projection { expr, alias: Some(alias.to_owned()) });
        proof {
            assert(s@.projections =~= spec_column_as(before, e, alias@).projections);
        }
        s
    }

    /// Conjoin (AND) a boolean expression onto the accumulated predicate.
    /// Repeated calls accumulate, never replace.
    pub fn filter(self, expr: SimpleExpr) -> (r: Self)
        ensures
            r@ == spec_filter(self@, expr@),
    {
        let ghost before = self@;
        let ghost e = expr@;
        let mut s = self;
        s.conds.push(expr);
        proof {
            assert(s@.conds =~= spec_filter(before, e).conds);
        }
        s
    }

    /// Append a group-by expression, preserving call order.
    pub fn group_by(self, expr: SimpleExpr) -> (r: Self)
        ensures
            r@ == spec_group_by(self@, expr@),
    {
        let ghost before = self@;
        let ghost e = expr@;
        let mut s = self;
        s.group_bys.push(expr);
        proof {
            assert(s@.group_bys =~= spec_group_by(before, e).group_bys);
        }
        s
    }

    /// Append an ascending order-by expression, preserving call order.
    pub fn order_by(self, expr: SimpleExpr) -> (r: Self)
        ensures
            r@ == spec_order_by(self@, expr@, true),
    {
        let ghost before = self@;
        let ghost e = expr@;
        let mut s = self;
        s.orders.push(OrderExpr { expr, asc: true });
        proof {
            assert(s@.orders =~= spec_order_by(before, e, true).orders);
        }
        s
    }

    /// Append a descending order-by expression, preserving call order.
    pub fn order_by_desc(self, expr: SimpleExpr) -> (r: Self)
        ensures
            r@ == spec_order_by(self@, expr@, false),
    {
        let ghost before = self@;
        let ghost e = expr@;
        let mut s = self;
        s.orders.push(OrderExpr { expr, asc: false });
        proof {
            assert(s@.orders =~= spec_order_by(before, e, false).orders);
        }
        s
    }

    /// Join along a relation: emits exactly one equality predicate between
    /// the relation's (unary) local and foreign key columns.
    pub fn join(self, kind: JoinKind, rel: &RelationDef) -> (r: Self)
        ensures
            r@ == spec_join(self@, kind, rel@),
    {
        let cond = join_cond_of(rel);
        self.push_join(kind, rel.to_tbl.clone(), cond)
    }

    /// Join along a relation followed backwards: when a relation A -> B is in
    /// scope from B's side, this joins A in.
    pub fn join_rev(self, kind: JoinKind, rel: &RelationDef) -> (r: Self)
        ensures
            r@ == spec_join_rev(self@, kind, rel@),
    {
        let cond = join_cond_of(rel);
        self.push_join(kind, rel.from_tbl.clone(), cond)
    }

    /// Join via an optional intermediate relation, then the final one (used
    /// when traversing a link chain).
    pub fn join_join(self, kind: JoinKind, rel: &RelationDef, via: Option<&RelationDef>) -> (r:
        Self)
        ensures
            r@ == match via {
                Some(v) => spec_join(spec_join(self@, kind, v@), kind, rel@),
                None => spec_join(self@, kind, rel@),
            },
    {
        let stepped = match via {
            Some(v) => self.join(kind, v),
            None => self,
        };
        stepped.join(kind, rel)
    }

    /// Join along a relation that starts at this statement's own entity: the
    /// local column is qualified with the statement's own table.
    fn prepare_join(self, kind: JoinKind, rel: &RelationDef) -> (r: Self)
        ensures
            r@ == spec_prepare_join(self@, kind, rel@),
    {
        let cond = SimpleExpr::ColumnEquals {
            left: ColumnRef { table: self.from_table.clone(), name: rel.from_col.col().clone() },
            right: ColumnRef { table: rel.to_tbl.clone(), name: rel.to_col.col().clone() },
        };
        self.push_join(kind, rel.to_tbl.clone(), cond)
    }

    /// `prepare_join` with the `Left` kind.
    pub fn left_join(self, rel: &RelationDef) -> (r: Self)
        ensures
            r@ == spec_prepare_join(self@, JoinKind::Left, rel@),
    {
        self.prepare_join(JoinKind::Left, rel)
    }

    /// `prepare_join` with the `Right` kind.
    pub fn right_join(self, rel: &RelationDef) -> (r: Self)
        ensures
            r@ == spec_prepare_join(self@, JoinKind::Right, rel@),
    {
        self.prepare_join(JoinKind::Right, rel)
    }

    /// `prepare_join` with the `Inner` kind.
    pub fn inner_join(self, rel: &RelationDef) -> (r: Self)
        ensures
            r@ == spec_prepare_join(self@, JoinKind::Inner, rel@),
    {
        self.prepare_join(JoinKind::Inner, rel)
    }

    fn push_join(self, kind: JoinKind, table: String, cond: SimpleExpr) -> (r: Self)
        ensures
            r@ == (SelectModel {
                joins: self@.joins.push(
                    JoinModel { kind, table: table@, cond: cond@ },
                ),
                ..self@
            }),
    {
        let ghost before = self@;
        let ghost t = table@;
        let ghost c = cond@;
        let mut s = self;
        s.joins.push(JoinExpr { kind, table, cond });
        proof {
            assert(s@.joins =~= before.joins.push(JoinModel { kind, table: t, cond: c }));
        }
        s
    }
}

/// The equality predicate of a unary relation, both sides table-qualified.
fn join_cond_of(rel: &RelationDef) -> (r: SimpleExpr)
    ensures
        r@ == join_condition(rel@),
{
    let left = ColumnRef { table: rel.from_tbl.clone(), name: rel.from_col.col().clone() };
    let right = ColumnRef { table: rel.to_tbl.clone(), name: rel.to_col.col().clone() };
    SimpleExpr::ColumnEquals { left, right }
}

} // verus!
