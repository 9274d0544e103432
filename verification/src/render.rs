//! Rendering accumulated statements into backend SQL.
//!
//! The verified bridge from the library's statement models to `sea_query`:
//! each clause of a statement is handed, one call at a time, to the trusted
//! bindings, with the running `sea_query` statement proved to hold exactly
//! the library statement's clauses; the rendered text is then whatever
//! `sea_query` produces for those clauses.  The positional values bound by a
//! statement are computed here, verified, in the order the clauses are
//! rendered.

use vstd::prelude::*;
use crate::expr::{CompareOp, ExprModel, SimpleExpr};
use crate::insert::{Insert, InsertModel};
use crate::select::{JoinKind, JoinModel, OrderModel, Select, SelectModel};
use crate::sq;
use crate::statement::{DbBackend, Statement};
use crate::update::{UpdateModel, UpdateQuery};
use crate::value::{DbValue, ValueModel};
use crate::views::value_models;

verus! {

/// Convert one library value into the value `sea_query` binds.
fn to_sq_value(v: &DbValue) -> (r: sea_query::Value)
    ensures
        sq::sq_value_model(r) == v@,
{
    match v {
        DbValue::Null => sq::sq_value_null(),
        DbValue::Bool(b) => sq::sq_value_bool(*b),
        DbValue::BigInt(i) => sq::sq_value_bigint(*i),
        DbValue::Unsigned(u) => sq::sq_value_unsigned(*u),
        DbValue::Text(s) => sq::sq_value_text(s.as_str()),
    }
}

/// Convert one library expression into the expression `sea_query` renders.
fn to_sq_expr(e: &SimpleExpr) -> (r: sea_query::Expr)
    ensures
        sq::sq_expr_model(r) == e@,
{
    match e {
        SimpleExpr::Column(c) => sq::sq_expr_col(c.table.as_str(), c.name.as_str()),
        SimpleExpr::Binary { col, op, value } => {
            let v = to_sq_value(value);
            match op {
                CompareOp::Eq => sq::sq_expr_eq(col.table.as_str(), col.name.as_str(), v),
                CompareOp::Ne => sq::sq_expr_ne(col.table.as_str(), col.name.as_str(), v),
                CompareOp::Gt => sq::sq_expr_gt(col.table.as_str(), col.name.as_str(), v),
                CompareOp::Gte => sq::sq_expr_gte(col.table.as_str(), col.name.as_str(), v),
                CompareOp::Lt => sq::sq_expr_lt(col.table.as_str(), col.name.as_str(), v),
                CompareOp::Lte => sq::sq_expr_lte(col.table.as_str(), col.name.as_str(), v),
            }
        },
        SimpleExpr::Between { col, negated, low, high } => {
            let a = to_sq_value(low);
            let b = to_sq_value(high);
            if *negated {
                sq::sq_expr_not_between(col.table.as_str(), col.name.as_str(), a, b)
            } else {
                sq::sq_expr_between(col.table.as_str(), col.name.as_str(), a, b)
            }
        },
        SimpleExpr::Like { col, negated, pattern } => {
            if *negated {
                sq::sq_expr_not_like(col.table.as_str(), col.name.as_str(), pattern.as_str())
            } else {
                sq::sq_expr_like(col.table.as_str(), col.name.as_str(), pattern.as_str())
            }
        },
        SimpleExpr::ColumnEquals { left, right } => sq::sq_expr_col_equals(
            left.table.as_str(),
            left.name.as_str(),
            right.table.as_str(),
            right.name.as_str(),
        ),
    }
}

/// The values one expression binds, in the order they are rendered: a
/// comparison binds its value, BETWEEN binds low then high, LIKE binds its
/// pattern; bare columns and column-to-column equalities bind nothing.
pub open spec fn expr_bind_values(e: ExprModel) -> Seq<ValueModel> {
    match e {
        ExprModel::Column(_) => seq![],
        ExprModel::Binary { col, op, value } => seq![value],
        ExprModel::Between { col, negated, low, high } => seq![low, high],
        ExprModel::Like { col, negated, pattern } => seq![ValueModel::Text(pattern)],
        ExprModel::ColumnEquals { left, right } => seq![],
    }
}

/// The values a sequence of expressions binds, in order.
pub open spec fn exprs_bind_values(es: Seq<ExprModel>) -> Seq<ValueModel>
    decreases es.len(),
{
    if es.len() == 0 {
        seq![]
    } else {
        exprs_bind_values(es.drop_last()) + expr_bind_values(es.last())
    }
}

/// The values a sequence of join conditions binds, in order.
pub open spec fn joins_bind_values(js: Seq<JoinModel>) -> Seq<ValueModel>
    decreases js.len(),
{
    if js.len() == 0 {
        seq![]
    } else {
        joins_bind_values(js.drop_last()) + expr_bind_values(js.last().cond)
    }
}

/// The values a sequence of order-by clauses binds, in order.
pub open spec fn orders_bind_values(os: Seq<OrderModel>) -> Seq<ValueModel>
    decreases os.len(),
{
    if os.len() == 0 {
        seq![]
    } else {
        orders_bind_values(os.drop_last()) + expr_bind_values(os.last().expr)
    }
}

/// The values a SELECT binds, in the order its clauses are rendered: join
/// conditions, then filters, then group-by, then order-by expressions.
pub open spec fn select_bind_values(m: SelectModel) -> Seq<ValueModel> {
    joins_bind_values(m.joins) + exprs_bind_values(m.conds) + exprs_bind_values(m.group_bys)
        + orders_bind_values(m.orders)
}

/// Append the values `e` binds onto `out`.
fn push_expr_values(out: &mut Vec<DbValue>, e: &SimpleExpr)
    ensures
        value_models(final(out)@) == value_models(old(out)@) + expr_bind_values(e@),
{
    broadcast use crate::views::group_model_views;

    match e {
        SimpleExpr::Column(_) => {},
        SimpleExpr::Binary { col, op, value } => {
            out.push(value.clone());
        },
        SimpleExpr::Between { col, negated, low, high } => {
            out.push(low.clone());
            out.push(high.clone());
        },
        SimpleExpr::Like { col, negated, pattern } => {
            out.push(DbValue::Text(pattern.clone()));
        },
        SimpleExpr::ColumnEquals { left, right } => {},
    }
    proof {
        assert(value_models(out@) =~= value_models(old(out)@) + expr_bind_values(e@));
    }
}

impl Select {
    /// Render the accumulated statement for the chosen backend dialect.
    /// Rendering is pure: the same statement and dialect always yield the
    /// same SQL text and the same bound values, in rendering order.
    #[verifier::loop_isolation(false)]
    #[verifier::rlimit(60)]
    pub fn build(&self, db_backend: DbBackend) -> (r: Statement)
        ensures
            r@.db_backend == db_backend,
            r@.sql == sq::rendered_select(self@, db_backend),
            r@.values == Some(select_bind_values(self@)),
    {
        broadcast use crate::views::group_model_views;

        let ghost m = self@;
        let mut q = sq::sq_select_new();
        let n_projs = self.projections.len();
        for i in 0..n_projs
            invariant
                sq::sq_select_model(q) == (SelectModel {
                    projections: m.projections.take(i as int),
                    ..crate::select::empty_select_model()
                }),
        {
            let e = to_sq_expr(&self.projections[i].expr);
            match &self.projections[i].alias {
                Some(a) => {
                    sq::sq_select_expr_as(&mut q, e, a.as_str());
                },
                None => {
                    sq::sq_select_expr(&mut q, e);
                },
            }
            proof {
                assert(sq::sq_select_model(q).projections =~= m.projections.take(i + 1));
            }
        }
        proof {
            assert(m.projections.take(n_projs as int) =~= m.projections);
        }
        sq::sq_select_from(&mut q, self.from_table.as_str());
        let n_joins = self.joins.len();
        for i in 0..n_joins
            invariant
                sq::sq_select_model(q) == (SelectModel {
                    from: m.from,
                    projections: m.projections,
                    joins: m.joins.take(i as int),
                    ..crate::select::empty_select_model()
                }),
        {
            let cond = to_sq_expr(&self.joins[i].cond);
            match self.joins[i].kind {
                JoinKind::Inner => {
                    sq::sq_select_join_inner(&mut q, self.joins[i].table.as_str(), cond);
                },
                JoinKind::Left => {
                    sq::sq_select_join_left(&mut q, self.joins[i].table.as_str(), cond);
                },
                JoinKind::Right => {
                    sq::sq_select_join_right(&mut q, self.joins[i].table.as_str(), cond);
                },
            }
            proof {
                assert(sq::sq_select_model(q).joins =~= m.joins.take(i + 1));
            }
        }
        proof {
            assert(m.joins.take(n_joins as int) =~= m.joins);
        }
        let n_conds = self.conds.len();
        for i in 0..n_conds
            invariant
                sq::sq_select_model(q) == (SelectModel {
                    from: m.from,
                    projections: m.projections,
                    joins: m.joins,
                    conds: m.conds.take(i as int),
                    ..crate::select::empty_select_model()
                }),
        {
            let e = to_sq_expr(&self.conds[i]);
            sq::sq_select_and_where(&mut q, e);
            proof {
                assert(sq::sq_select_model(q).conds =~= m.conds.take(i + 1));
            }
        }
        proof {
            assert(m.conds.take(n_conds as int) =~= m.conds);
        }
        let n_groups = self.group_bys.len();
        for i in 0..n_groups
            invariant
                sq::sq_select_model(q) == (SelectModel {
                    from: m.from,
                    projections: m.projections,
                    joins: m.joins,
                    conds: m.conds,
                    group_bys: m.group_bys.take(i as int),
                    orders: seq![],
                }),
        {
            let e = to_sq_expr(&self.group_bys[i]);
            sq::sq_select_group_by(&mut q, e);
            proof {
                assert(sq::sq_select_model(q).group_bys =~= m.group_bys.take(i + 1));
            }
        }
        proof {
            assert(m.group_bys.take(n_groups as int) =~= m.group_bys);
        }
        let n_orders = self.orders.len();
        for i in 0..n_orders
            invariant
                sq::sq_select_model(q) == (SelectModel {
                    from: m.from,
                    projections: m.projections,
                    joins: m.joins,
                    conds: m.conds,
                    group_bys: m.group_bys,
                    orders: m.orders.take(i as int),
                }),
        {
            let e = to_sq_expr(&self.orders[i].expr);
            if self.orders[i].asc {
                sq::sq_select_order_by_asc(&mut q, e);
            } else {
                sq::sq_select_order_by_desc(&mut q, e);
            }
            proof {
                assert(sq::sq_select_model(q).orders =~= m.orders.take(i + 1));
            }
        }
        proof {
            assert(m.orders.take(n_orders as int) =~= m.orders);
            assert(sq::sq_select_model(q) =~= m);
        }
        let sql = match db_backend {
            DbBackend::Postgres => sq::sq_select_build_postgres(&q),
            DbBackend::MySql => sq::sq_select_build_mysql(&q),
            DbBackend::Sqlite => sq::sq_select_build_sqlite(&q),
        };
        let mut values: Vec<DbValue> = Vec::new();
        for i in 0..n_joins
            invariant
                value_models(values@) == joins_bind_values(m.joins.take(i as int)),
        {
            push_expr_values(&mut values, &self.joins[i].cond);
            proof {
                assert(m.joins.take(i + 1).drop_last() =~= m.joins.take(i as int));
            }
        }
        for i in 0..n_conds
            invariant
                value_models(values@) == joins_bind_values(m.joins) + exprs_bind_values(
                    m.conds.take(i as int),
                ),
        {
            push_expr_values(&mut values, &self.conds[i]);
            proof {
                assert(m.conds.take(i + 1).drop_last() =~= m.conds.take(i as int));
                assert(value_models(values@) =~= joins_bind_values(m.joins) + exprs_bind_values(
                    m.conds.take(i + 1),
                ));
            }
        }
        for i in 0..n_groups
            invariant
                value_models(values@) == joins_bind_values(m.joins) + exprs_bind_values(m.conds)
                    + exprs_bind_values(m.group_bys.take(i as int)),
        {
            push_expr_values(&mut values, &self.group_bys[i]);
            proof {
                assert(m.group_bys.take(i + 1).drop_last() =~= m.group_bys.take(i as int));
                assert(value_models(values@) =~= joins_bind_values(m.joins) + exprs_bind_values(
                    m.conds,
                ) + exprs_bind_values(m.group_bys.take(i + 1)));
            }
        }
        for i in 0..n_orders
            invariant
                value_models(values@) == joins_bind_values(m.joins) + exprs_bind_values(m.conds)
                    + exprs_bind_values(m.group_bys) + orders_bind_values(m.orders.take(i as int)),
        {
            push_expr_values(&mut values, &self.orders[i].expr);
            proof {
                assert(m.orders.take(i + 1).drop_last() =~= m.orders.take(i as int));
                assert(value_models(values@) =~= joins_bind_values(m.joins) + exprs_bind_values(
                    m.conds,
                ) + exprs_bind_values(m.group_bys) + orders_bind_values(m.orders.take(i + 1)));
            }
        }
        proof {
            assert(value_models(values@) == select_bind_values(m));
        }
        Statement { db_backend, sql, values: Some(values) }
    }
}

/// Whether an INSERT is fit to render: it names at least one column and
/// every row is as wide as the column list.  (`sea_query` silently skips
/// rows of the wrong width; a well-formed insert loses nothing.)
pub open spec fn insert_renderable(m: InsertModel) -> bool {
    &&& m.columns.len() > 0
    &&& forall|k: int| 0 <= k < m.rows.len() ==> (#[trigger] m.rows[k]).len() == m.columns.len()
}

/// The values an INSERT binds: its rows' values, row-major, in input order.
pub open spec fn insert_bind_values(rows: Seq<Seq<ValueModel>>) -> Seq<ValueModel>
    decreases rows.len(),
{
    if rows.len() == 0 {
        seq![]
    } else {
        insert_bind_values(rows.drop_last()) + rows.last()
    }
}

impl Insert {
    /// Render the accumulated statement for the chosen backend dialect.
    /// For a well-formed insert the rendered text covers exactly this
    /// statement's table, columns and rows.
    #[verifier::loop_isolation(false)]
    pub fn build(&self, db_backend: DbBackend) -> (r: Statement)
        ensures
            r@.db_backend == db_backend,
            insert_renderable(self@) ==> r@.sql == sq::rendered_insert(self@, db_backend),
            insert_renderable(self@) ==> r@.values == Some(insert_bind_values(self@.rows)),
    {
        broadcast use crate::views::group_model_views;
        broadcast use crate::sq::lemma_sq_value_models_len;
        broadcast use crate::sq::lemma_sq_value_models_index;

        let ghost m = self@;
        let mut q = sq::sq_insert_new();
        sq::sq_insert_into(&mut q, self.table.as_str());
        sq::sq_insert_columns(&mut q, &self.columns);
        let mut values: Vec<DbValue> = Vec::new();
        let n_rows = self.rows.len();
        for k in 0..n_rows
            invariant
                insert_renderable(m) ==> sq::sq_insert_model(q) == (InsertModel {
                    table: m.table,
                    columns: m.columns,
                    rows: m.rows.take(k as int),
                }),
                !insert_renderable(m) ==> sq::sq_insert_model(q).table == m.table
                    && sq::sq_insert_model(q).columns == m.columns,
                insert_renderable(m) ==> value_models(values@) == insert_bind_values(
                    m.rows.take(k as int),
                ),
        {
            let row = &self.rows[k];
            let mut sq_row: Vec<sea_query::Value> = Vec::new();
            let n_vals = row.len();
            for i in 0..n_vals
                invariant
                    n_vals == row@.len(),
                    sq_row@.len() == i,
                    forall|j: int|
                        0 <= j < i ==> sq::sq_value_model(#[trigger] sq_row@[j]) == row@[j]@,
            {
                sq_row.push(to_sq_value(&row[i]));
            }
            proof {
                assert(sq::sq_value_models(sq_row@) =~= value_models(row@));
            }
            proof {
                if insert_renderable(m) {
                    assert(value_models(row@) == m.rows[k as int]);
                    assert(row@.len() == m.columns.len());
                }
            }
            let ok = sq::sq_insert_row(&mut q, &sq_row);
            if ok {
                let ghost vs_before = value_models(values@);
                proof {
                    assert(vs_before + value_models(row@).take(0) =~= vs_before);
                }
                let n_vals2 = row.len();
                proof {
                    assert(value_models(row@).len() == row@.len());
                }
                for i in 0..n_vals2
                    invariant
                        n_vals2 == row@.len(),
                        value_models(row@).len() == row@.len(),
                        value_models(values@) == vs_before + value_models(row@).take(i as int),
                {
                    let ghost pre = values@;
                    values.push(row[i].clone());
                    proof {
                        assert forall|j: int| 0 <= j < pre.len() implies #[trigger] value_models(
                            values@,
                        )[j] == value_models(pre)[j] by {
                            assert(values@[j] == pre[j]);
                        }
                        assert(value_models(values@)[vs_before.len() + i] == row@[i as int]@);
                        assert(value_models(row@).take(i + 1)[i as int] == row@[i as int]@);
                        assert(value_models(values@) =~= vs_before + value_models(row@).take(
                            i + 1,
                        ));
                    }
                }
                proof {
                    assert(value_models(row@).take(n_vals2 as int) =~= value_models(row@));
                }
            }
            proof {
                if insert_renderable(m) {
                    assert(ok);
                    assert(m.rows.take(k + 1).drop_last() =~= m.rows.take(k as int));
                    assert(sq::sq_insert_model(q).rows =~= m.rows.take(k + 1));
                    assert(value_models(values@) =~= insert_bind_values(m.rows.take(k + 1)));
                }
            }
        }
        proof {
            if insert_renderable(m) {
                assert(m.rows.take(n_rows as int) =~= m.rows);
                assert(sq::sq_insert_model(q) =~= m);
            }
        }
        let sql = match db_backend {
            DbBackend::Postgres => sq::sq_insert_build_postgres(&q),
            DbBackend::MySql => sq::sq_insert_build_mysql(&q),
            DbBackend::Sqlite => sq::sq_insert_build_sqlite(&q),
        };
        Statement { db_backend, sql, values: Some(values) }
    }
}

/// The values a sequence of SET clauses binds, in order.
pub open spec fn sets_bind_values(ss: Seq<crate::update::SetClauseModel>) -> Seq<ValueModel>
    decreases ss.len(),
{
    if ss.len() == 0 {
        seq![]
    } else {
        sets_bind_values(ss.drop_last()) + seq![ss.last().value]
    }
}

/// The values an UPDATE binds: its SET values, then its filters' values, in
/// rendering order.
pub open spec fn update_bind_values(m: UpdateModel) -> Seq<ValueModel> {
    sets_bind_values(m.sets) + exprs_bind_values(m.conds)
}

impl UpdateQuery {
    /// Render the accumulated statement for the chosen backend dialect.
    #[verifier::loop_isolation(false)]
    pub fn build(&self, db_backend: DbBackend) -> (r: Statement)
        ensures
            r@.db_backend == db_backend,
            r@.sql == sq::rendered_update(self@, db_backend),
            r@.values == Some(update_bind_values(self@)),
    {
        broadcast use crate::views::group_model_views;

        let ghost m = self@;
        let mut q = sq::sq_update_new();
        sq::sq_update_table(&mut q, self.table.as_str());
        let n_sets = self.sets.len();
        for i in 0..n_sets
            invariant
                sq::sq_update_model(q) == (UpdateModel {
                    table: m.table,
                    sets: m.sets.take(i as int),
                    conds: seq![],
                }),
        {
            let v = to_sq_value(&self.sets[i].value);
            sq::sq_update_value(&mut q, self.sets[i].col.as_str(), v);
            proof {
                assert(sq::sq_update_model(q).sets =~= m.sets.take(i + 1));
            }
        }
        proof {
            assert(m.sets.take(n_sets as int) =~= m.sets);
        }
        let n_conds = self.conds.len();
        for i in 0..n_conds
            invariant
                sq::sq_update_model(q) == (UpdateModel {
                    table: m.table,
                    sets: m.sets,
                    conds: m.conds.take(i as int),
                }),
        {
            let e = to_sq_expr(&self.conds[i]);
            sq::sq_update_and_where(&mut q, e);
            proof {
                assert(sq::sq_update_model(q).conds =~= m.conds.take(i + 1));
            }
        }
        proof {
            assert(m.conds.take(n_conds as int) =~= m.conds);
            assert(sq::sq_update_model(q) =~= m);
        }
        let sql = match db_backend {
            DbBackend::Postgres => sq::sq_update_build_postgres(&q),
            DbBackend::MySql => sq::sq_update_build_mysql(&q),
            DbBackend::Sqlite => sq::sq_update_build_sqlite(&q),
        };
        let mut values: Vec<DbValue> = Vec::new();
        for i in 0..n_sets
            invariant
                value_models(values@) == sets_bind_values(m.sets.take(i as int)),
        {
            values.push(self.sets[i].value.clone());
            proof {
                assert(m.sets.take(i + 1).drop_last() =~= m.sets.take(i as int));
                assert(value_models(values@) =~= sets_bind_values(m.sets.take(i + 1)));
            }
        }
        for i in 0..n_conds
            invariant
                value_models(values@) == sets_bind_values(m.sets) + exprs_bind_values(
                    m.conds.take(i as int),
                ),
        {
            push_expr_values(&mut values, &self.conds[i]);
            proof {
                assert(m.conds.take(i + 1).drop_last() =~= m.conds.take(i as int));
                assert(value_models(values@) =~= sets_bind_values(m.sets) + exprs_bind_values(
                    m.conds.take(i + 1),
                ));
            }
        }
        proof {
            assert(value_models(values@) == update_bind_values(m));
        }
        Statement { db_backend, sql, values: Some(values) }
    }
}

} // verus!
