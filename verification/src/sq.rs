//! Trusted bindings to the `sea_query` renderer.
//!
//! The library builds and reasons about its own statement models; this module
//! is the one place where those models meet `sea_query`.  Each binding is a
//! small function whose body makes exactly one kind of `sea_query` call and
//! whose contract states, over the uninterpreted content maps below, what the
//! call does according to `sea_query`'s source.  The content maps
//! (`sq_select_model` and friends) are meaningful because every statement
//! value reaching them was produced by the bindings in this module alone, so
//! the parts of a statement they do not model keep their defaults.

use vstd::prelude::*;
use sea_query::ExprTrait;
use crate::expr::{ColumnRefModel, CompareOp, ExprModel};
use crate::insert::InsertModel;
use crate::select::{JoinKind, JoinModel, OrderModel, ProjectionModel, SelectModel};
use crate::statement::DbBackend;
use crate::update::{SetClauseModel, UpdateModel};
use crate::value::ValueModel;

verus! {

#[verifier::external_type_specification]
#[verifier::external_body]
pub struct ExSqValue(sea_query::Value);

#[verifier::external_type_specification]
#[verifier::external_body]
pub struct ExSqExpr(sea_query::Expr);

#[verifier::external_type_specification]
#[verifier::external_body]
pub struct ExSelectStatement(sea_query::SelectStatement);

#[verifier::external_type_specification]
#[verifier::external_body]
pub struct ExInsertStatement(sea_query::InsertStatement);

#[verifier::external_type_specification]
#[verifier::external_body]
pub struct ExUpdateStatement(sea_query::UpdateStatement);

/// The scalar a `sea_query::Value` carries.
pub uninterp spec fn sq_value_model(v: sea_query::Value) -> ValueModel;

/// The scalars a sequence of `sea_query::Value`s carries.
pub open spec fn sq_value_models(vs: Seq<sea_query::Value>) -> Seq<ValueModel> {
    vs.map_values(|v: sea_query::Value| sq_value_model(v))
}

pub broadcast proof fn lemma_sq_value_models_len(vs: Seq<sea_query::Value>)
    ensures
        #[trigger] sq_value_models(vs).len() == vs.len(),
{
}

pub broadcast proof fn lemma_sq_value_models_index(vs: Seq<sea_query::Value>, i: int)
    requires
        0 <= i < vs.len(),
    ensures
        #[trigger] sq_value_models(vs)[i] == sq_value_model(vs[i]),
{
}

/// The expression a `sea_query::Expr` stands for.
pub uninterp spec fn sq_expr_model(e: sea_query::Expr) -> ExprModel;

/// The clauses a `sea_query::SelectStatement` holds.
pub uninterp spec fn sq_select_model(q: sea_query::SelectStatement) -> SelectModel;

/// The table, column list and value rows a `sea_query::InsertStatement`
/// holds.
pub uninterp spec fn sq_insert_model(q: sea_query::InsertStatement) -> InsertModel;

/// The table, SET clauses and filters a `sea_query::UpdateStatement` holds.
pub uninterp spec fn sq_update_model(q: sea_query::UpdateStatement) -> UpdateModel;

/// The SQL text (with positional placeholders) that `sea_query` renders for
/// a SELECT with these clauses, in the given dialect.  Rendering is pure:
/// the same clauses and dialect always yield the same text.
pub uninterp spec fn rendered_select(m: SelectModel, b: DbBackend) -> Seq<char>;

/// As `rendered_select`, for INSERT statements.
pub uninterp spec fn rendered_insert(m: InsertModel, b: DbBackend) -> Seq<char>;

/// As `rendered_select`, for UPDATE statements.
pub uninterp spec fn rendered_update(m: UpdateModel, b: DbBackend) -> Seq<char>;

/// Relies on `sea_query::Value::BigInt`: the variant carries the integer.
#[verifier::external_body]
pub(crate) fn sq_value_bigint(v: i64) -> (r: sea_query::Value)
    ensures
        sq_value_model(r) == ValueModel::BigInt(v as int),
{
    sea_query::Value::BigInt(Some(v))
}

/// Relies on `sea_query::Value::BigUnsigned`: the variant carries the
/// integer.
#[verifier::external_body]
pub(crate) fn sq_value_unsigned(v: u64) -> (r: sea_query::Value)
    ensures
        sq_value_model(r) == ValueModel::Unsigned(v as int),
{
    sea_query::Value::BigUnsigned(Some(v))
}

/// Relies on `sea_query::Value::Bool`: the variant carries the boolean.
#[verifier::external_body]
pub(crate) fn sq_value_bool(v: bool) -> (r: sea_query::Value)
    ensures
        sq_value_model(r) == ValueModel::Bool(v),
{
    sea_query::Value::Bool(Some(v))
}

/// Relies on `sea_query::Value::String`: the variant carries the text.
#[verifier::external_body]
pub(crate) fn sq_value_text(v: &str) -> (r: sea_query::Value)
    ensures
        sq_value_model(r) == ValueModel::Text(v@),
{
    sea_query::Value::String(Some(v.to_owned()))
}

/// Relies on `sea_query::Value::Int`: with no payload it renders as NULL.
#[verifier::external_body]
pub(crate) fn sq_value_null() -> (r: sea_query::Value)
    ensures
        sq_value_model(r) == ValueModel::Null,
{
    sea_query::Value::Int(None)
}

/// Relies on `sea_query::Expr::col`: a column reference qualified with its
/// table.
#[verifier::external_body]
pub(crate) fn sq_expr_col(tbl: &str, col: &str) -> (r: sea_query::Expr)
    ensures
        sq_expr_model(r) == ExprModel::Column(ColumnRefModel { table: tbl@, name: col@ }),
{
    sea_query::Expr::col((sea_query::Alias::new(tbl), sea_query::Alias::new(col)))
}

/// Relies on `sea_query::ExprTrait::eq` over `Expr::col`: the qualified
/// column compared `=` to the bound value.
#[verifier::external_body]
pub(crate) fn sq_expr_eq(tbl: &str, col: &str, v: sea_query::Value) -> (r: sea_query::Expr)
    ensures
        sq_expr_model(r) == (ExprModel::Binary {
            col: ColumnRefModel { table: tbl@, name: col@ },
            op: CompareOp::Eq,
            value: sq_value_model(v),
        }),
{
    sea_query::Expr::col((sea_query::Alias::new(tbl), sea_query::Alias::new(col))).eq(v)
}

/// Relies on `sea_query::ExprTrait::ne`: as `sq_expr_eq`, with `<>`.
#[verifier::external_body]
pub(crate) fn sq_expr_ne(tbl: &str, col: &str, v: sea_query::Value) -> (r: sea_query::Expr)
    ensures
        sq_expr_model(r) == (ExprModel::Binary {
            col: ColumnRefModel { table: tbl@, name: col@ },
            op: CompareOp::Ne,
            value: sq_value_model(v),
        }),
{
    sea_query::Expr::col((sea_query::Alias::new(tbl), sea_query::Alias::new(col))).ne(v)
}

/// Relies on `sea_query::ExprTrait::gt`: as `sq_expr_eq`, with `>`.
#[verifier::external_body]
pub(crate) fn sq_expr_gt(tbl: &str, col: &str, v: sea_query::Value) -> (r: sea_query::Expr)
    ensures
        sq_expr_model(r) == (ExprModel::Binary {
            col: ColumnRefModel { table: tbl@, name: col@ },
            op: CompareOp::Gt,
            value: sq_value_model(v),
        }),
{
    sea_query::Expr::col((sea_query::Alias::new(tbl), sea_query::Alias::new(col))).gt(v)
}

/// Relies on `sea_query::ExprTrait::gte`: as `sq_expr_eq`, with `>=`.
#[verifier::external_body]
pub(crate) fn sq_expr_gte(tbl: &str, col: &str, v: sea_query::Value) -> (r: sea_query::Expr)
    ensures
        sq_expr_model(r) == (ExprModel::Binary {
            col: ColumnRefModel { table: tbl@, name: col@ },
            op: CompareOp::Gte,
            value: sq_value_model(v),
        }),
{
    sea_query::Expr::col((sea_query::Alias::new(tbl), sea_query::Alias::new(col))).gte(v)
}

/// Relies on `sea_query::ExprTrait::lt`: as `sq_expr_eq`, with `<`.
#[verifier::external_body]
pub(crate) fn sq_expr_lt(tbl: &str, col: &str, v: sea_query::Value) -> (r: sea_query::Expr)
    ensures
        sq_expr_model(r) == (ExprModel::Binary {
            col: ColumnRefModel { table: tbl@, name: col@ },
            op: CompareOp::Lt,
            value: sq_value_model(v),
        }),
{
    sea_query::Expr::col((sea_query::Alias::new(tbl), sea_query::Alias::new(col))).lt(v)
}

/// Relies on `sea_query::ExprTrait::lte`: as `sq_expr_eq`, with `<=`.
#[verifier::external_body]
pub(crate) fn sq_expr_lte(tbl: &str, col: &str, v: sea_query::Value) -> (r: sea_query::Expr)
    ensures
        sq_expr_model(r) == (ExprModel::Binary {
            col: ColumnRefModel { table: tbl@, name: col@ },
            op: CompareOp::Lte,
            value: sq_value_model(v),
        }),
{
    sea_query::Expr::col((sea_query::Alias::new(tbl), sea_query::Alias::new(col))).lte(v)
}

/// Relies on `sea_query::ExprTrait::between`: the qualified column between
/// the two bound values, low first.
#[verifier::external_body]
pub(crate) fn sq_expr_between(
    tbl: &str,
    col: &str,
    a: sea_query::Value,
    b: sea_query::Value,
) -> (r: sea_query::Expr)
    ensures
        sq_expr_model(r) == (ExprModel::Between {
            col: ColumnRefModel { table: tbl@, name: col@ },
            negated: false,
            low: sq_value_model(a),
            high: sq_value_model(b),
        }),
{
    sea_query::Expr::col((sea_query::Alias::new(tbl), sea_query::Alias::new(col))).between(a, b)
}

/// Relies on `sea_query::ExprTrait::not_between`: as `sq_expr_between`,
/// negated.
#[verifier::external_body]
pub(crate) fn sq_expr_not_between(
    tbl: &str,
    col: &str,
    a: sea_query::Value,
    b: sea_query::Value,
) -> (r: sea_query::Expr)
    ensures
        sq_expr_model(r) == (ExprModel::Between {
            col: ColumnRefModel { table: tbl@, name: col@ },
            negated: true,
            low: sq_value_model(a),
            high: sq_value_model(b),
        }),
{
    sea_query::Expr::col((sea_query::Alias::new(tbl), sea_query::Alias::new(col))).not_between(a, b)
}

/// Relies on `sea_query::ExprTrait::like`: the qualified column matched
/// against the pattern, which is bound as a value.
#[verifier::external_body]
pub(crate) fn sq_expr_like(tbl: &str, col: &str, pattern: &str) -> (r: sea_query::Expr)
    ensures
        sq_expr_model(r) == (ExprModel::Like {
            col: ColumnRefModel { table: tbl@, name: col@ },
            negated: false,
            pattern: pattern@,
        }),
{
    sea_query::Expr::col((sea_query::Alias::new(tbl), sea_query::Alias::new(col))).like(pattern)
}

/// Relies on `sea_query::ExprTrait::not_like`: as `sq_expr_like`, negated.
#[verifier::external_body]
pub(crate) fn sq_expr_not_like(tbl: &str, col: &str, pattern: &str) -> (r: sea_query::Expr)
    ensures
        sq_expr_model(r) == (ExprModel::Like {
            col: ColumnRefModel { table: tbl@, name: col@ },
            negated: true,
            pattern: pattern@,
        }),
{
    sea_query::Expr::col((sea_query::Alias::new(tbl), sea_query::Alias::new(col))).not_like(pattern)
}

/// Relies on `sea_query::ExprTrait::equals`: equality between two qualified
/// columns, no value bound.
#[verifier::external_body]
pub(crate) fn sq_expr_col_equals(t1: &str, c1: &str, t2: &str, c2: &str) -> (r: sea_query::Expr)
    ensures
        sq_expr_model(r) == (ExprModel::ColumnEquals {
            left: ColumnRefModel { table: t1@, name: c1@ },
            right: ColumnRefModel { table: t2@, name: c2@ },
        }),
{
    sea_query::Expr::col((sea_query::Alias::new(t1), sea_query::Alias::new(c1))).equals(
        (sea_query::Alias::new(t2), sea_query::Alias::new(c2)),
    )
}

/// Relies on `sea_query::SelectStatement::new`: a statement with no clauses.
#[verifier::external_body]
pub(crate) fn sq_select_new() -> (r: sea_query::SelectStatement)
    ensures
        sq_select_model(r) == crate::select::empty_select_model(),
{
    sea_query::SelectStatement::new()
}

/// Relies on `sea_query::SelectStatement::from`: adds the source table.  On
/// a statement whose source list is still empty it becomes the single
/// source.
#[verifier::external_body]
pub(crate) fn sq_select_from(q: &mut sea_query::SelectStatement, tbl: &str)
    requires
        sq_select_model(*old(q)).from == Seq::<char>::empty(),
    ensures
        sq_select_model(*final(q)) == (SelectModel {
            from: tbl@,
            ..sq_select_model(*old(q))
        }),
{
    q.from(sea_query::Alias::new(tbl));
}

/// Relies on `sea_query::SelectStatement::expr`: appends one projection
/// without an alias.
#[verifier::external_body]
pub(crate) fn sq_select_expr(q: &mut sea_query::SelectStatement, e: sea_query::Expr)
    ensures
        sq_select_model(*final(q)) == (SelectModel {
            projections: sq_select_model(*old(q)).projections.push(
                ProjectionModel { expr: sq_expr_model(e), alias: None },
            ),
            ..sq_select_model(*old(q))
        }),
{
    q.expr(e);
}

/// Relies on `sea_query::SelectStatement::expr_as`: appends one projection
/// under the given output alias.
#[verifier::external_body]
pub(crate) fn sq_select_expr_as(q: &mut sea_query::SelectStatement, e: sea_query::Expr, alias: &str)
    ensures
        sq_select_model(*final(q)) == (SelectModel {
            projections: sq_select_model(*old(q)).projections.push(
                ProjectionModel { expr: sq_expr_model(e), alias: Some(alias@) },
            ),
            ..sq_select_model(*old(q))
        }),
{
    q.expr_as(e, sea_query::Alias::new(alias));
}

/// Relies on `sea_query::SelectStatement::and_where`: conjoins (AND) one
/// more filter.
#[verifier::external_body]
pub(crate) fn sq_select_and_where(q: &mut sea_query::SelectStatement, e: sea_query::Expr)
    ensures
        sq_select_model(*final(q)) == (SelectModel {
            conds: sq_select_model(*old(q)).conds.push(sq_expr_model(e)),
            ..sq_select_model(*old(q))
        }),
{
    q.and_where(e);
}

/// Relies on `sea_query::SelectStatement::add_group_by`: appends one
/// group-by expression.
#[verifier::external_body]
pub(crate) fn sq_select_group_by(q: &mut sea_query::SelectStatement, e: sea_query::Expr)
    ensures
        sq_select_model(*final(q)) == (SelectModel {
            group_bys: sq_select_model(*old(q)).group_bys.push(sq_expr_model(e)),
            ..sq_select_model(*old(q))
        }),
{
    q.add_group_by([e]);
}

/// Relies on `sea_query::SelectStatement::order_by_expr` with `Order::Asc`:
/// appends one ascending order-by clause.
#[verifier::external_body]
pub(crate) fn sq_select_order_by_asc(q: &mut sea_query::SelectStatement, e: sea_query::Expr)
    ensures
        sq_select_model(*final(q)) == (SelectModel {
            orders: sq_select_model(*old(q)).orders.push(
                OrderModel { expr: sq_expr_model(e), asc: true },
            ),
            ..sq_select_model(*old(q))
        }),
{
    q.order_by_expr(e, sea_query::Order::Asc);
}

/// Relies on `sea_query::SelectStatement::order_by_expr` with `Order::Desc`:
/// appends one descending order-by clause.
#[verifier::external_body]
pub(crate) fn sq_select_order_by_desc(q: &mut sea_query::SelectStatement, e: sea_query::Expr)
    ensures
        sq_select_model(*final(q)) == (SelectModel {
            orders: sq_select_model(*old(q)).orders.push(
                OrderModel { expr: sq_expr_model(e), asc: false },
            ),
            ..sq_select_model(*old(q))
        }),
{
    q.order_by_expr(e, sea_query::Order::Desc);
}

/// Relies on `sea_query::SelectStatement::join` with `JoinType::InnerJoin`:
/// appends one inner join on the given table and condition.
#[verifier::external_body]
pub(crate) fn sq_select_join_inner(
    q: &mut sea_query::SelectStatement,
    tbl: &str,
    cond: sea_query::Expr,
)
    ensures
        sq_select_model(*final(q)) == (SelectModel {
            joins: sq_select_model(*old(q)).joins.push(
                JoinModel { kind: JoinKind::Inner, table: tbl@, cond: sq_expr_model(cond) },
            ),
            ..sq_select_model(*old(q))
        }),
{
    q.join(sea_query::JoinType::InnerJoin, sea_query::Alias::new(tbl), cond);
}

/// Relies on `sea_query::SelectStatement::join` with `JoinType::LeftJoin`.
#[verifier::external_body]
pub(crate) fn sq_select_join_left(
    q: &mut sea_query::SelectStatement,
    tbl: &str,
    cond: sea_query::Expr,
)
    ensures
        sq_select_model(*final(q)) == (SelectModel {
            joins: sq_select_model(*old(q)).joins.push(
                JoinModel { kind: JoinKind::Left, table: tbl@, cond: sq_expr_model(cond) },
            ),
            ..sq_select_model(*old(q))
        }),
{
    q.join(sea_query::JoinType::LeftJoin, sea_query::Alias::new(tbl), cond);
}

/// Relies on `sea_query::SelectStatement::join` with `JoinType::RightJoin`.
#[verifier::external_body]
pub(crate) fn sq_select_join_right(
    q: &mut sea_query::SelectStatement,
    tbl: &str,
    cond: sea_query::Expr,
)
    ensures
        sq_select_model(*final(q)) == (SelectModel {
            joins: sq_select_model(*old(q)).joins.push(
                JoinModel { kind: JoinKind::Right, table: tbl@, cond: sq_expr_model(cond) },
            ),
            ..sq_select_model(*old(q))
        }),
{
    q.join(sea_query::JoinType::RightJoin, sea_query::Alias::new(tbl), cond);
}

/// Relies on `sea_query::SelectStatement::build` with
/// `PostgresQueryBuilder`: renders the statement's clauses to SQL with `$N`
/// placeholders.
#[verifier::external_body]
pub(crate) fn sq_select_build_postgres(q: &sea_query::SelectStatement) -> (r: String)
    ensures
        r@ == rendered_select(sq_select_model(*q), DbBackend::Postgres),
{
    q.build(sea_query::PostgresQueryBuilder).0
}

/// Relies on `sea_query::SelectStatement::build` with `MysqlQueryBuilder`:
/// renders the statement's clauses to SQL with `?` placeholders.
#[verifier::external_body]
pub(crate) fn sq_select_build_mysql(q: &sea_query::SelectStatement) -> (r: String)
    ensures
        r@ == rendered_select(sq_select_model(*q), DbBackend::MySql),
{
    q.build(sea_query::MysqlQueryBuilder).0
}

/// Relies on `sea_query::SelectStatement::build` with `SqliteQueryBuilder`:
/// renders the statement's clauses to SQL with `?` placeholders.
#[verifier::external_body]
pub(crate) fn sq_select_build_sqlite(q: &sea_query::SelectStatement) -> (r: String)
    ensures
        r@ == rendered_select(sq_select_model(*q), DbBackend::Sqlite),
{
    q.build(sea_query::SqliteQueryBuilder).0
}

/// Relies on `sea_query::InsertStatement::new`: a statement with no table,
/// columns or rows.
#[verifier::external_body]
pub(crate) fn sq_insert_new() -> (r: sea_query::InsertStatement)
    ensures
        sq_insert_model(r) == crate::insert::empty_insert_model(),
{
    sea_query::InsertStatement::new()
}

/// Relies on `sea_query::InsertStatement::into_table`: sets (replaces) the
/// target table.
#[verifier::external_body]
pub(crate) fn sq_insert_into(q: &mut sea_query::InsertStatement, tbl: &str)
    ensures
        sq_insert_model(*final(q)) == (InsertModel {
            table: tbl@,
            ..sq_insert_model(*old(q))
        }),
{
    q.into_table(sea_query::Alias::new(tbl));
}

/// Relies on `sea_query::InsertStatement::columns`: sets (replaces) the
/// column list.
#[verifier::external_body]
pub(crate) fn sq_insert_columns(q: &mut sea_query::InsertStatement, cols: &Vec<String>)
    ensures
        sq_insert_model(*final(q)) == (InsertModel {
            columns: crate::views::string_views(cols@),
            ..sq_insert_model(*old(q))
        }),
{
    q.columns(cols.iter().map(|c| sea_query::Alias::new(c.clone())));
}

/// Relies on `sea_query::InsertStatement::values`: appends one non-empty row
/// whose width matches the column list, and reports a width mismatch as an
/// error; an accepted empty row adds nothing.
#[verifier::external_body]
pub(crate) fn sq_insert_row(q: &mut sea_query::InsertStatement, row: &Vec<sea_query::Value>) -> (ok:
    bool)
    ensures
        ok <==> row@.len() == sq_insert_model(*old(q)).columns.len(),
        ok && row@.len() > 0 ==> sq_insert_model(*final(q)) == (InsertModel {
            rows: sq_insert_model(*old(q)).rows.push(sq_value_models(row@)),
            ..sq_insert_model(*old(q))
        }),
        ok && row@.len() == 0 ==> sq_insert_model(*final(q)) == sq_insert_model(*old(q)),
        !ok ==> sq_insert_model(*final(q)) == sq_insert_model(*old(q)),
{
    q.values(row.iter().map(|v| sea_query::Expr::Value(v.clone()))).is_ok()
}

/// Relies on `sea_query::InsertStatement::build` with
/// `PostgresQueryBuilder`.
#[verifier::external_body]
pub(crate) fn sq_insert_build_postgres(q: &sea_query::InsertStatement) -> (r: String)
    ensures
        r@ == rendered_insert(sq_insert_model(*q), DbBackend::Postgres),
{
    q.build(sea_query::PostgresQueryBuilder).0
}

/// Relies on `sea_query::InsertStatement::build` with `MysqlQueryBuilder`.
#[verifier::external_body]
pub(crate) fn sq_insert_build_mysql(q: &sea_query::InsertStatement) -> (r: String)
    ensures
        r@ == rendered_insert(sq_insert_model(*q), DbBackend::MySql),
{
    q.build(sea_query::MysqlQueryBuilder).0
}

/// Relies on `sea_query::InsertStatement::build` with `SqliteQueryBuilder`.
#[verifier::external_body]
pub(crate) fn sq_insert_build_sqlite(q: &sea_query::InsertStatement) -> (r: String)
    ensures
        r@ == rendered_insert(sq_insert_model(*q), DbBackend::Sqlite),
{
    q.build(sea_query::SqliteQueryBuilder).0
}

/// Relies on `sea_query::UpdateStatement::new`: a statement with no table,
/// SET clauses or filters.
#[verifier::external_body]
pub(crate) fn sq_update_new() -> (r: sea_query::UpdateStatement)
    ensures
        sq_update_model(r) == crate::update::empty_update_model(),
{
    sea_query::UpdateStatement::new()
}

/// Relies on `sea_query::UpdateStatement::table`: sets (replaces) the target
/// table.
#[verifier::external_body]
pub(crate) fn sq_update_table(q: &mut sea_query::UpdateStatement, tbl: &str)
    ensures
        sq_update_model(*final(q)) == (UpdateModel {
            table: tbl@,
            ..sq_update_model(*old(q))
        }),
{
    q.table(sea_query::Alias::new(tbl));
}

/// Relies on `sea_query::UpdateStatement::value`: appends one SET clause
/// writing the bound value to the column.
#[verifier::external_body]
pub(crate) fn sq_update_value(q: &mut sea_query::UpdateStatement, col: &str, v: sea_query::Value)
    ensures
        sq_update_model(*final(q)) == (UpdateModel {
            sets: sq_update_model(*old(q)).sets.push(
                SetClauseModel { col: col@, value: sq_value_model(v) },
            ),
            ..sq_update_model(*old(q))
        }),
{
    q.value(sea_query::Alias::new(col), v);
}

/// Relies on `sea_query::UpdateStatement::and_where`: conjoins (AND) one
/// more filter.
#[verifier::external_body]
pub(crate) fn sq_update_and_where(q: &mut sea_query::UpdateStatement, e: sea_query::Expr)
    ensures
        sq_update_model(*final(q)) == (UpdateModel {
            conds: sq_update_model(*old(q)).conds.push(sq_expr_model(e)),
            ..sq_update_model(*old(q))
        }),
{
    q.and_where(e);
}

/// Relies on `sea_query::UpdateStatement::build` with
/// `PostgresQueryBuilder`.
#[verifier::external_body]
pub(crate) fn sq_update_build_postgres(q: &sea_query::UpdateStatement) -> (r: String)
    ensures
        r@ == rendered_update(sq_update_model(*q), DbBackend::Postgres),
{
    q.build(sea_query::PostgresQueryBuilder).0
}

/// Relies on `sea_query::UpdateStatement::build` with `MysqlQueryBuilder`.
#[verifier::external_body]
pub(crate) fn sq_update_build_mysql(q: &sea_query::UpdateStatement) -> (r: String)
    ensures
        r@ == rendered_update(sq_update_model(*q), DbBackend::MySql),
{
    q.build(sea_query::MysqlQueryBuilder).0
}

/// Relies on `sea_query::UpdateStatement::build` with `SqliteQueryBuilder`.
#[verifier::external_body]
pub(crate) fn sq_update_build_sqlite(q: &sea_query::UpdateStatement) -> (r: String)
    ensures
        r@ == rendered_update(sq_update_model(*q), DbBackend::Sqlite),
{
    q.build(sea_query::SqliteQueryBuilder).0
}

} // verus!
