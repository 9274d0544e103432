//! Model views of the library's sequences, with length and index facts that
//! are available as ambient lemmas throughout the crate.

use vstd::prelude::*;
use crate::active_model::{ActiveModel, ActiveValue, ActiveValueModel};
use crate::entity::{ColumnDef, ColumnDefModel};
use crate::expr::{ExprModel, SimpleExpr};
use crate::select::{JoinExpr, JoinModel, OrderExpr, OrderModel, Projection, ProjectionModel};
use crate::statement::{ColumnValue, ColumnValueModel};
use crate::transformer::{ColumnDesc, ColumnDescModel, ConjBucket, ConjBucketModel, ConjunctModel,
    ConjunctRelation, Entity, EntityOutModel, ForeignKeyDesc, ForeignKeyModel, IndexDesc,
    IndexDescModel, RelBucket, RelBucketModel, Relation, RelationModel, TableStmt, TableStmtModel};
use crate::update::{SetClause, SetClauseModel};
use crate::value::{DbValue, ValueModel};

verus! {

/// The views of a sequence of values.
pub open spec fn value_models(vs: Seq<DbValue>) -> Seq<ValueModel> {
    vs.map_values(|v: DbValue| v@)
}

pub broadcast proof fn lemma_value_models_len(vs: Seq<DbValue>)
    ensures
        #[trigger] value_models(vs).len() == vs.len(),
{
}

pub broadcast proof fn lemma_value_models_index(vs: Seq<DbValue>, i: int)
    requires
        0 <= i < vs.len(),
    ensures
        #[trigger] value_models(vs)[i] == vs[i]@,
{
}

/// The views of a sequence of value intents.
pub open spec fn av_models(vs: Seq<ActiveValue<DbValue>>) -> Seq<ActiveValueModel> {
    vs.map_values(|a: ActiveValue<DbValue>| a@)
}

pub broadcast proof fn lemma_av_models_len(vs: Seq<ActiveValue<DbValue>>)
    ensures
        #[trigger] av_models(vs).len() == vs.len(),
{
}

pub broadcast proof fn lemma_av_models_index(vs: Seq<ActiveValue<DbValue>>, i: int)
    requires
        0 <= i < vs.len(),
    ensures
        #[trigger] av_models(vs)[i] == vs[i]@,
{
}

/// The views of a sequence of projections.
pub open spec fn proj_models(ps: Seq<Projection>) -> Seq<ProjectionModel> {
    ps.map_values(|p: Projection| p@)
}

pub broadcast proof fn lemma_proj_models_len(vs: Seq<Projection>)
    ensures
        #[trigger] proj_models(vs).len() == vs.len(),
{
}

pub broadcast proof fn lemma_proj_models_index(vs: Seq<Projection>, i: int)
    requires
        0 <= i < vs.len(),
    ensures
        #[trigger] proj_models(vs)[i] == vs[i]@,
{
}

/// The views of a sequence of join clauses.
pub open spec fn join_models(js: Seq<JoinExpr>) -> Seq<JoinModel> {
    js.map_values(|j: JoinExpr| j@)
}

pub broadcast proof fn lemma_join_models_len(vs: Seq<JoinExpr>)
    ensures
        #[trigger] join_models(vs).len() == vs.len(),
{
}

pub broadcast proof fn lemma_join_models_index(vs: Seq<JoinExpr>, i: int)
    requires
        0 <= i < vs.len(),
    ensures
        #[trigger] join_models(vs)[i] == vs[i]@,
{
}

/// The views of a sequence of expressions.
pub open spec fn expr_models(es: Seq<SimpleExpr>) -> Seq<ExprModel> {
    es.map_values(|e: SimpleExpr| e@)
}

pub broadcast proof fn lemma_expr_models_len(vs: Seq<SimpleExpr>)
    ensures
        #[trigger] expr_models(vs).len() == vs.len(),
{
}

pub broadcast proof fn lemma_expr_models_index(vs: Seq<SimpleExpr>, i: int)
    requires
        0 <= i < vs.len(),
    ensures
        #[trigger] expr_models(vs)[i] == vs[i]@,
{
}

/// The views of a sequence of order-by clauses.
pub open spec fn order_models(os: Seq<OrderExpr>) -> Seq<OrderModel> {
    os.map_values(|o: OrderExpr| o@)
}

pub broadcast proof fn lemma_order_models_len(vs: Seq<OrderExpr>)
    ensures
        #[trigger] order_models(vs).len() == vs.len(),
{
}

pub broadcast proof fn lemma_order_models_index(vs: Seq<OrderExpr>, i: int)
    requires
        0 <= i < vs.len(),
    ensures
        #[trigger] order_models(vs)[i] == vs[i]@,
{
}

/// The views of a sequence of column definitions.
pub open spec fn column_models(cs: Seq<ColumnDef>) -> Seq<ColumnDefModel> {
    cs.map_values(|c: ColumnDef| c@)
}

pub broadcast proof fn lemma_column_models_len(vs: Seq<ColumnDef>)
    ensures
        #[trigger] column_models(vs).len() == vs.len(),
{
}

pub broadcast proof fn lemma_column_models_index(vs: Seq<ColumnDef>, i: int)
    requires
        0 <= i < vs.len(),
    ensures
        #[trigger] column_models(vs)[i] == vs[i]@,
{
}

/// The views of a sequence of strings.
pub open spec fn string_views(ss: Seq<String>) -> Seq<Seq<char>> {
    ss.map_values(|s: String| s@)
}

pub broadcast proof fn lemma_string_views_len(vs: Seq<String>)
    ensures
        #[trigger] string_views(vs).len() == vs.len(),
{
}

pub broadcast proof fn lemma_string_views_index(vs: Seq<String>, i: int)
    requires
        0 <= i < vs.len(),
    ensures
        #[trigger] string_views(vs)[i] == vs[i]@,
{
}

/// The views of a sequence of records' write intents.
pub open spec fn am_models(ms: Seq<ActiveModel>) -> Seq<Seq<ActiveValueModel>> {
    ms.map_values(|m: ActiveModel| m@)
}

pub broadcast proof fn lemma_am_models_len(vs: Seq<ActiveModel>)
    ensures
        #[trigger] am_models(vs).len() == vs.len(),
{
}

pub broadcast proof fn lemma_am_models_index(vs: Seq<ActiveModel>, i: int)
    requires
        0 <= i < vs.len(),
    ensures
        #[trigger] am_models(vs)[i] == vs[i]@,
{
}

/// The views of a sequence of value rows.
pub open spec fn row_models(rs: Seq<Vec<DbValue>>) -> Seq<Seq<ValueModel>> {
    rs.map_values(|r: Vec<DbValue>| value_models(r@))
}

pub broadcast proof fn lemma_row_models_len(vs: Seq<Vec<DbValue>>)
    ensures
        #[trigger] row_models(vs).len() == vs.len(),
{
}

pub broadcast proof fn lemma_row_models_index(vs: Seq<Vec<DbValue>>, i: int)
    requires
        0 <= i < vs.len(),
    ensures
        #[trigger] row_models(vs)[i] == value_models(vs[i]@),
{
}

/// The views of a fetched row's columns.
pub open spec fn column_value_models(cs: Seq<ColumnValue>) -> Seq<ColumnValueModel> {
    cs.map_values(|c: ColumnValue| c@)
}

pub broadcast proof fn lemma_column_value_models_len(vs: Seq<ColumnValue>)
    ensures
        #[trigger] column_value_models(vs).len() == vs.len(),
{
}

pub broadcast proof fn lemma_column_value_models_index(vs: Seq<ColumnValue>, i: int)
    requires
        0 <= i < vs.len(),
    ensures
        #[trigger] column_value_models(vs)[i] == vs[i]@,
{
}

/// The views of a sequence of SET clauses.
pub open spec fn set_clause_models(cs: Seq<SetClause>) -> Seq<SetClauseModel> {
    cs.map_values(|c: SetClause| c@)
}

pub broadcast proof fn lemma_set_clause_models_len(vs: Seq<SetClause>)
    ensures
        #[trigger] set_clause_models(vs).len() == vs.len(),
{
}

pub broadcast proof fn lemma_set_clause_models_index(vs: Seq<SetClause>, i: int)
    requires
        0 <= i < vs.len(),
    ensures
        #[trigger] set_clause_models(vs)[i] == vs[i]@,
{
}

/// The views of a sequence of `ColumnDesc`s.
pub open spec fn column_desc_models(vs: Seq<ColumnDesc>) -> Seq<ColumnDescModel> {
    vs.map_values(|x: ColumnDesc| x@)
}

pub broadcast proof fn lemma_column_desc_models_len(vs: Seq<ColumnDesc>)
    ensures
        #[trigger] column_desc_models(vs).len() == vs.len(),
{
}

pub broadcast proof fn lemma_column_desc_models_index(vs: Seq<ColumnDesc>, i: int)
    requires
        0 <= i < vs.len(),
    ensures
        #[trigger] column_desc_models(vs)[i] == vs[i]@,
{
}

/// The views of a sequence of `IndexDesc`s.
pub open spec fn index_desc_models(vs: Seq<IndexDesc>) -> Seq<IndexDescModel> {
    vs.map_values(|x: IndexDesc| x@)
}

pub broadcast proof fn lemma_index_desc_models_len(vs: Seq<IndexDesc>)
    ensures
        #[trigger] index_desc_models(vs).len() == vs.len(),
{
}

pub broadcast proof fn lemma_index_desc_models_index(vs: Seq<IndexDesc>, i: int)
    requires
        0 <= i < vs.len(),
    ensures
        #[trigger] index_desc_models(vs)[i] == vs[i]@,
{
}

/// The views of a sequence of `ForeignKeyDesc`s.
pub open spec fn foreign_key_models(vs: Seq<ForeignKeyDesc>) -> Seq<ForeignKeyModel> {
    vs.map_values(|x: ForeignKeyDesc| x@)
}

pub broadcast proof fn lemma_foreign_key_models_len(vs: Seq<ForeignKeyDesc>)
    ensures
        #[trigger] foreign_key_models(vs).len() == vs.len(),
{
}

pub broadcast proof fn lemma_foreign_key_models_index(vs: Seq<ForeignKeyDesc>, i: int)
    requires
        0 <= i < vs.len(),
    ensures
        #[trigger] foreign_key_models(vs)[i] == vs[i]@,
{
}

/// The views of a sequence of `Relation`s.
pub open spec fn relation_models(vs: Seq<Relation>) -> Seq<RelationModel> {
    vs.map_values(|x: Relation| x@)
}

pub broadcast proof fn lemma_relation_models_len(vs: Seq<Relation>)
    ensures
        #[trigger] relation_models(vs).len() == vs.len(),
{
}

pub broadcast proof fn lemma_relation_models_index(vs: Seq<Relation>, i: int)
    requires
        0 <= i < vs.len(),
    ensures
        #[trigger] relation_models(vs)[i] == vs[i]@,
{
}

/// The views of a sequence of `ConjunctRelation`s.
pub open spec fn conjunct_models(vs: Seq<ConjunctRelation>) -> Seq<ConjunctModel> {
    vs.map_values(|x: ConjunctRelation| x@)
}

pub broadcast proof fn lemma_conjunct_models_len(vs: Seq<ConjunctRelation>)
    ensures
        #[trigger] conjunct_models(vs).len() == vs.len(),
{
}

pub broadcast proof fn lemma_conjunct_models_index(vs: Seq<ConjunctRelation>, i: int)
    requires
        0 <= i < vs.len(),
    ensures
        #[trigger] conjunct_models(vs)[i] == vs[i]@,
{
}

/// The views of a sequence of `Entity`s.
pub open spec fn entity_out_models(vs: Seq<Entity>) -> Seq<EntityOutModel> {
    vs.map_values(|x: Entity| x@)
}

pub broadcast proof fn lemma_entity_out_models_len(vs: Seq<Entity>)
    ensures
        #[trigger] entity_out_models(vs).len() == vs.len(),
{
}

pub broadcast proof fn lemma_entity_out_models_index(vs: Seq<Entity>, i: int)
    requires
        0 <= i < vs.len(),
    ensures
        #[trigger] entity_out_models(vs)[i] == vs[i]@,
{
}

/// The views of a sequence of `RelBucket`s.
pub open spec fn rel_bucket_models(vs: Seq<RelBucket>) -> Seq<RelBucketModel> {
    vs.map_values(|x: RelBucket| x@)
}

pub broadcast proof fn lemma_rel_bucket_models_len(vs: Seq<RelBucket>)
    ensures
        #[trigger] rel_bucket_models(vs).len() == vs.len(),
{
}

pub broadcast proof fn lemma_rel_bucket_models_index(vs: Seq<RelBucket>, i: int)
    requires
        0 <= i < vs.len(),
    ensures
        #[trigger] rel_bucket_models(vs)[i] == vs[i]@,
{
}

/// The views of a sequence of `ConjBucket`s.
pub open spec fn conj_bucket_models(vs: Seq<ConjBucket>) -> Seq<ConjBucketModel> {
    vs.map_values(|x: ConjBucket| x@)
}

pub broadcast proof fn lemma_conj_bucket_models_len(vs: Seq<ConjBucket>)
    ensures
        #[trigger] conj_bucket_models(vs).len() == vs.len(),
{
}

pub broadcast proof fn lemma_conj_bucket_models_index(vs: Seq<ConjBucket>, i: int)
    requires
        0 <= i < vs.len(),
    ensures
        #[trigger] conj_bucket_models(vs)[i] == vs[i]@,
{
}

/// The views of a sequence of `TableStmt`s.
pub open spec fn table_stmt_models(vs: Seq<TableStmt>) -> Seq<TableStmtModel> {
    vs.map_values(|x: TableStmt| x@)
}

pub broadcast proof fn lemma_table_stmt_models_len(vs: Seq<TableStmt>)
    ensures
        #[trigger] table_stmt_models(vs).len() == vs.len(),
{
}

pub broadcast proof fn lemma_table_stmt_models_index(vs: Seq<TableStmt>, i: int)
    requires
        0 <= i < vs.len(),
    ensures
        #[trigger] table_stmt_models(vs)[i] == vs[i]@,
{
}

/// Length and index facts for the model views above.
pub broadcast group group_model_views {
    lemma_column_desc_models_len,
    lemma_column_desc_models_index,
    lemma_index_desc_models_len,
    lemma_index_desc_models_index,
    lemma_foreign_key_models_len,
    lemma_foreign_key_models_index,
    lemma_relation_models_len,
    lemma_relation_models_index,
    lemma_conjunct_models_len,
    lemma_conjunct_models_index,
    lemma_entity_out_models_len,
    lemma_entity_out_models_index,
    lemma_rel_bucket_models_len,
    lemma_rel_bucket_models_index,
    lemma_conj_bucket_models_len,
    lemma_conj_bucket_models_index,
    lemma_table_stmt_models_len,
    lemma_table_stmt_models_index,

    lemma_set_clause_models_len,
    lemma_set_clause_models_index,
    lemma_column_value_models_len,
    lemma_column_value_models_index,
    lemma_am_models_len,
    lemma_am_models_index,
    lemma_row_models_len,
    lemma_row_models_index,
    lemma_value_models_len,
    lemma_value_models_index,
    lemma_av_models_len,
    lemma_av_models_index,
    lemma_proj_models_len,
    lemma_proj_models_index,
    lemma_join_models_len,
    lemma_join_models_index,
    lemma_expr_models_len,
    lemma_expr_models_index,
    lemma_order_models_len,
    lemma_order_models_index,
    lemma_column_models_len,
    lemma_column_models_index,
    lemma_string_views_len,
    lemma_string_views_index,
}

} // verus!
