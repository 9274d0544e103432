//! The schema transformer: from an introspected physical schema to the
//! entity/relation model.
//!
//! A schema arrives as a sequence of table statements, each exposing a name,
//! ordered columns, indexes and foreign keys.  One pass over the tables
//! builds each table's entity (columns, primary key, forward relations) and
//! collects, keyed by target table, the edges only the *other* endpoint can
//! own: inverse relations, and conjunct (many-to-many) relations for pure
//! junction tables.  A second pass attaches the collected edges, since a
//! table's inverse relations cannot be known until every table referencing
//! it has been seen.  Any statement that is not a well-formed "create table",
//! or any table without a name, aborts the whole transformation: partial
//! models are never returned.

use vstd::prelude::*;
use crate::entity::{ColumnDefModel, ColumnDef, ColumnType};
use crate::relation::RelationType;
use crate::views::{column_models, string_views};

verus! {

/// One column as introspection reports it: name, type, nullability.
#[derive(Debug)]
pub struct ColumnDesc {
    pub name: String,
    pub col_type: ColumnType,
    pub not_null: bool,
}

/// Mathematical picture of an introspected column.
#[verifier::ext_equal]
pub ghost struct ColumnDescModel {
    pub name: Seq<char>,
    pub col_type: ColumnType,
    pub not_null: bool,
}

impl View for ColumnDesc {
    type V = ColumnDescModel;

    open spec fn view(&self) -> ColumnDescModel {
        ColumnDescModel { name: self.name@, col_type: self.col_type, not_null: self.not_null }
    }
}

/// One index as introspection reports it: whether it is the primary key,
/// whether it is unique, and its ordered column names.
#[derive(Debug)]
pub struct IndexDesc {
    pub primary: bool,
    pub unique: bool,
    pub columns: Vec<String>,
}

/// Mathematical picture of an introspected index.
#[verifier::ext_equal]
pub ghost struct IndexDescModel {
    pub primary: bool,
    pub unique: bool,
    pub columns: Seq<Seq<char>>,
}

impl View for IndexDesc {
    type V = IndexDescModel;

    open spec fn view(&self) -> IndexDescModel {
        IndexDescModel {
            primary: self.primary,
            unique: self.unique,
            columns: string_views(self.columns@),
        }
    }
}

/// One foreign key as introspection reports it.
#[derive(Debug)]
pub struct ForeignKeyDesc {
    pub columns: Vec<String>,
    pub ref_table: String,
    pub ref_columns: Vec<String>,
}

/// Mathematical picture of an introspected foreign key.
#[verifier::ext_equal]
pub ghost struct ForeignKeyModel {
    pub columns: Seq<Seq<char>>,
    pub ref_table: Seq<char>,
    pub ref_columns: Seq<Seq<char>>,
}

impl View for ForeignKeyDesc {
    type V = ForeignKeyModel;

    open spec fn view(&self) -> ForeignKeyModel {
        ForeignKeyModel {
            columns: string_views(self.columns@),
            ref_table: self.ref_table@,
            ref_columns: string_views(self.ref_columns@),
        }
    }
}

/// A "create table" description.
#[derive(Debug)]
pub struct TableDef {
    pub name: Option<String>,
    pub columns: Vec<ColumnDesc>,
    pub indexes: Vec<IndexDesc>,
    pub foreign_keys: Vec<ForeignKeyDesc>,
}

/// Mathematical picture of a table description.
#[verifier::ext_equal]
pub ghost struct TableDefModel {
    pub name: Option<Seq<char>>,
    pub columns: Seq<ColumnDescModel>,
    pub indexes: Seq<IndexDescModel>,
    pub foreign_keys: Seq<ForeignKeyModel>,
}

impl View for TableDef {
    type V = TableDefModel;

    open spec fn view(&self) -> TableDefModel {
        TableDefModel {
            name: match self.name {
                Some(ref n) => Some(n@),
                None => None,
            },
            columns: crate::views::column_desc_models(self.columns@),
            indexes: crate::views::index_desc_models(self.indexes@),
            foreign_keys: crate::views::foreign_key_models(self.foreign_keys@),
        }
    }
}

/// One statement of the introspected schema: a table creation, or something
/// else (which the transformer rejects).
#[derive(Debug)]
pub enum TableStmt {
    Create(TableDef),
    Other,
}

/// Mathematical picture of a schema statement.
#[verifier::ext_equal]
pub ghost enum TableStmtModel {
    Create(TableDefModel),
    Other,
}

impl View for TableStmt {
    type V = TableStmtModel;

    open spec fn view(&self) -> TableStmtModel {
        match self {
            TableStmt::Create(td) => TableStmtModel::Create(td@),
            TableStmt::Other => TableStmtModel::Other,
        }
    }
}

/// A relation edge in the synthesized model.
#[derive(Debug)]
pub struct Relation {
    pub rel_type: RelationType,
    pub ref_table: String,
    pub columns: Vec<String>,
    pub ref_columns: Vec<String>,
}

/// Mathematical picture of a synthesized relation.
#[verifier::ext_equal]
pub ghost struct RelationModel {
    pub rel_type: RelationType,
    pub ref_table: Seq<char>,
    pub columns: Seq<Seq<char>>,
    pub ref_columns: Seq<Seq<char>>,
}

impl View for Relation {
    type V = RelationModel;

    open spec fn view(&self) -> RelationModel {
        RelationModel {
            rel_type: self.rel_type,
            ref_table: self.ref_table@,
            columns: string_views(self.columns@),
            ref_columns: string_views(self.ref_columns@),
        }
    }
}

impl Clone for Relation {
    fn clone(&self) -> (r: Self)
        ensures
            r@ == self@,
    {
        broadcast use crate::views::group_model_views;

        Relation {
            rel_type: self.rel_type,
            ref_table: self.ref_table.clone(),
            columns: clone_strings(&self.columns),
            ref_columns: clone_strings(&self.ref_columns),
        }
    }
}

/// A many-to-many relation through a junction table: reach `to` via `via`.
#[derive(Debug)]
pub struct ConjunctRelation {
    pub via: String,
    pub to: String,
}

/// Mathematical picture of a conjunct relation.
#[verifier::ext_equal]
pub ghost struct ConjunctModel {
    pub via: Seq<char>,
    pub to: Seq<char>,
}

impl View for ConjunctRelation {
    type V = ConjunctModel;

    open spec fn view(&self) -> ConjunctModel {
        ConjunctModel { via: self.via@, to: self.to@ }
    }
}

impl Clone for ConjunctRelation {
    fn clone(&self) -> (r: Self)
        ensures
            r@ == self@,
    {
        ConjunctRelation { via: self.via.clone(), to: self.to.clone() }
    }
}

/// One synthesized entity: a table with its columns, primary key, relations
/// and conjunct relations.
#[derive(Debug)]
pub struct Entity {
    pub table_name: String,
    pub columns: Vec<ColumnDef>,
    pub relations: Vec<Relation>,
    pub conjunct_relations: Vec<ConjunctRelation>,
    pub primary_keys: Vec<String>,
}

/// Mathematical picture of a synthesized entity.
#[verifier::ext_equal]
pub ghost struct EntityOutModel {
    pub table_name: Seq<char>,
    pub columns: Seq<ColumnDefModel>,
    pub relations: Seq<RelationModel>,
    pub conjunct_relations: Seq<ConjunctModel>,
    pub primary_keys: Seq<Seq<char>>,
}

impl View for Entity {
    type V = EntityOutModel;

    open spec fn view(&self) -> EntityOutModel {
        EntityOutModel {
            table_name: self.table_name@,
            columns: column_models(self.columns@),
            relations: crate::views::relation_models(self.relations@),
            conjunct_relations: crate::views::conjunct_models(self.conjunct_relations@),
            primary_keys: string_views(self.primary_keys@),
        }
    }
}

/// Edges collected for one target table during the first pass.
#[derive(Debug)]
pub struct RelBucket {
    pub key: String,
    pub rels: Vec<Relation>,
}

/// Mathematical picture of a relation bucket.
#[verifier::ext_equal]
pub ghost struct RelBucketModel {
    pub key: Seq<char>,
    pub rels: Seq<RelationModel>,
}

impl View for RelBucket {
    type V = RelBucketModel;

    open spec fn view(&self) -> RelBucketModel {
        RelBucketModel { key: self.key@, rels: crate::views::relation_models(self.rels@) }
    }
}

/// Conjunct relations collected for one target table during the first pass.
#[derive(Debug)]
pub struct ConjBucket {
    pub key: String,
    pub items: Vec<ConjunctRelation>,
}

/// Mathematical picture of a conjunct bucket.
#[verifier::ext_equal]
pub ghost struct ConjBucketModel {
    pub key: Seq<char>,
    pub items: Seq<ConjunctModel>,
}

impl View for ConjBucket {
    type V = ConjBucketModel;

    open spec fn view(&self) -> ConjBucketModel {
        ConjBucketModel { key: self.key@, items: crate::views::conjunct_models(self.items@) }
    }
}

/// The synthesized model: the entities of the whole schema, in the order
/// their tables were first seen.
#[derive(Debug)]
pub struct EntityWriter {
    pub entities: Vec<Entity>,
}

/// Why a transformation was aborted.
#[derive(Debug)]
pub enum Error {
    TransformError(String),
}

impl View for Error {
    type V = Seq<char>;

    open spec fn view(&self) -> Seq<char> {
        match self {
            Error::TransformError(s) => s@,
        }
    }
}

impl Error {
    /// The abort's description.
    pub fn message(&self) -> (r: &String)
        ensures
            r@ == self@,
    {
        match self {
            Error::TransformError(s) => s,
        }
    }
}

/// The schema transformer: feeds on an introspected schema.
#[derive(Debug)]
pub struct EntityTransformer {
    pub tables: Vec<TableStmt>,
}

/// Clone a vector of strings.
fn clone_strings(v: &Vec<String>) -> (r: Vec<String>)
    ensures
        string_views(r@) == string_views(v@),
{
    broadcast use crate::views::group_model_views;

    let mut out: Vec<String> = Vec::new();
    let n = v.len();
    for i in 0..n
        invariant
            n == v@.len(),
            out@.len() == i,
            forall|j: int| 0 <= j < i ==> (#[trigger] out@[j])@ == v@[j]@,
    {
        out.push(v[i].clone());
    }
    proof {
        assert(string_views(out@) =~= string_views(v@));
    }
    out
}


/// Whether some unique index covers the column `name`.
pub open spec fn is_unique_col(td: TableDefModel, name: Seq<char>) -> bool {
    exists|k: int|
        0 <= k < td.indexes.len() && (#[trigger] td.indexes[k]).unique
            && td.indexes[k].columns.contains(name)
}

/// The entity's columns: the introspected columns in order, each marked
/// unique when a unique index covers it.
pub open spec fn entity_columns(td: TableDefModel) -> Seq<ColumnDefModel> {
    Seq::new(
        td.columns.len(),
        |i: int|
            ColumnDefModel {
                name: td.columns[i].name,
                col_type: td.columns[i].col_type,
                not_null: td.columns[i].not_null,
                unique: is_unique_col(td, td.columns[i].name),
            },
    )
}

/// The primary-key members: the columns of the primary indexes, in order.
pub open spec fn pk_names(idxs: Seq<IndexDescModel>) -> Seq<Seq<char>>
    decreases idxs.len(),
{
    if idxs.len() == 0 {
        seq![]
    } else {
        pk_names(idxs.drop_last()) + if idxs.last().primary {
            idxs.last().columns
        } else {
            seq![]
        }
    }
}

/// Each foreign key becomes a forward relation on the referencing table.
pub open spec fn forward_relations(td: TableDefModel) -> Seq<RelationModel> {
    Seq::new(
        td.foreign_keys.len(),
        |i: int|
            RelationModel {
                rel_type: RelationType::BelongsTo,
                ref_table: td.foreign_keys[i].ref_table,
                columns: td.foreign_keys[i].columns,
                ref_columns: td.foreign_keys[i].ref_columns,
            },
    )
}

/// The entity a named table description yields, before inverse and conjunct
/// edges are attached.
pub open spec fn entity_of(name: Seq<char>, td: TableDefModel) -> EntityOutModel {
    EntityOutModel {
        table_name: name,
        columns: entity_columns(td),
        relations: forward_relations(td),
        conjunct_relations: seq![],
        primary_keys: pk_names(td.indexes),
    }
}

/// A pure junction table: exactly two columns, and they are the primary key.
pub open spec fn is_junction(td: TableDefModel) -> bool {
    pk_names(td.indexes).len() == td.columns.len() && pk_names(td.indexes).len() == 2
}

/// Whether the `k`-th foreign key's columns form a unique constraint on the
/// referencing table.
pub open spec fn fk_unique(td: TableDefModel, k: int) -> bool {
    forall|j: int|
        0 <= j < td.foreign_keys[k].columns.len() ==> is_unique_col(
            td,
            #[trigger] td.foreign_keys[k].columns[j],
        )
}

/// The first entity named `name` at or after `i`, or `-1`.
pub open spec fn entity_index_from(es: Seq<EntityOutModel>, name: Seq<char>, i: int) -> int
    decreases es.len() - i,
{
    if i < 0 || i >= es.len() {
        -1
    } else if es[i].table_name == name {
        i
    } else {
        entity_index_from(es, name, i + 1)
    }
}

/// The first entity named `name`, or `-1`.
pub open spec fn entity_index(es: Seq<EntityOutModel>, name: Seq<char>) -> int {
    entity_index_from(es, name, 0)
}

/// The first relation bucket keyed `key` at or after `i`, or `-1`.
pub open spec fn rel_bucket_index_from(bs: Seq<RelBucketModel>, key: Seq<char>, i: int) -> int
    decreases bs.len() - i,
{
    if i < 0 || i >= bs.len() {
        -1
    } else if bs[i].key == key {
        i
    } else {
        rel_bucket_index_from(bs, key, i + 1)
    }
}

/// The first conjunct bucket keyed `key` at or after `i`, or `-1`.
pub open spec fn conj_bucket_index_from(bs: Seq<ConjBucketModel>, key: Seq<char>, i: int) -> int
    decreases bs.len() - i,
{
    if i < 0 || i >= bs.len() {
        -1
    } else if bs[i].key == key {
        i
    } else {
        conj_bucket_index_from(bs, key, i + 1)
    }
}

/// File `r` under `key`: appended to the existing bucket, or into a fresh
/// bucket at the end.
pub open spec fn attach_rel(bs: Seq<RelBucketModel>, key: Seq<char>, r: RelationModel) -> Seq<
    RelBucketModel,
> {
    let i = rel_bucket_index_from(bs, key, 0);
    if i >= 0 {
        bs.update(i, RelBucketModel { key: bs[i].key, rels: bs[i].rels.push(r) })
    } else {
        bs.push(RelBucketModel { key, rels: seq![r] })
    }
}

/// File `c` under `key`, as `attach_rel`.
pub open spec fn attach_conj(bs: Seq<ConjBucketModel>, key: Seq<char>, c: ConjunctModel) -> Seq<
    ConjBucketModel,
> {
    let i = conj_bucket_index_from(bs, key, 0);
    if i >= 0 {
        bs.update(i, ConjBucketModel { key: bs[i].key, items: bs[i].items.push(c) })
    } else {
        bs.push(ConjBucketModel { key, items: seq![c] })
    }
}

/// Record an entity: a table seen again replaces its earlier entry in place,
/// a new table goes to the end.
pub open spec fn upsert_entity(es: Seq<EntityOutModel>, e: EntityOutModel) -> Seq<EntityOutModel> {
    let i = entity_index(es, e.table_name);
    if i >= 0 {
        es.update(i, e)
    } else {
        es.push(e)
    }
}

/// The inverse relations a non-junction table's foreign keys contribute,
/// from key `i` on: each referenced table learns a has-one edge back when
/// the referencing columns are unique, a has-many edge otherwise.
pub open spec fn add_inverses(
    bs: Seq<RelBucketModel>,
    name: Seq<char>,
    td: TableDefModel,
    i: int,
) -> Seq<RelBucketModel>
    decreases td.foreign_keys.len() - i,
{
    if i < 0 || i >= td.foreign_keys.len() {
        bs
    } else {
        let rel_type = if fk_unique(td, i) {
            RelationType::HasOne
        } else {
            RelationType::HasMany
        };
        let r = RelationModel { rel_type, ref_table: name, columns: seq![], ref_columns: seq![] };
        add_inverses(attach_rel(bs, td.foreign_keys[i].ref_table, r), name, td, i + 1)
    }
}

/// The conjunct relations a junction table contributes, from key `i` on.
/// The pairing is positional: each foreign key's target learns it reaches
/// the partner key's target via the junction table — the first key pairs
/// with the second and every later key pairs with the first, so the physical
/// declaration order of the keys decides which side is "via" and which is
/// "to".  A key without a partner contributes nothing.
pub open spec fn add_conjuncts(
    bs: Seq<ConjBucketModel>,
    name: Seq<char>,
    td: TableDefModel,
    i: int,
) -> Seq<ConjBucketModel>
    decreases td.foreign_keys.len() - i,
{
    if i < 0 || i >= td.foreign_keys.len() {
        bs
    } else {
        let partner: int = if i == 0 {
            1
        } else {
            0
        };
        let bs2 = if partner < td.foreign_keys.len() {
            attach_conj(
                bs,
                td.foreign_keys[i].ref_table,
                ConjunctModel { via: name, to: td.foreign_keys[partner].ref_table },
            )
        } else {
            bs
        };
        add_conjuncts(bs2, name, td, i + 1)
    }
}

/// What the first pass carries: the entities seen so far and the edges
/// collected for each target table.
#[verifier::ext_equal]
pub ghost struct TransformState {
    pub entities: Seq<EntityOutModel>,
    pub inverse: Seq<RelBucketModel>,
    pub conjunct: Seq<ConjBucketModel>,
}

/// The state before any table was seen.
pub open spec fn empty_state() -> TransformState {
    TransformState { entities: seq![], inverse: seq![], conjunct: seq![] }
}

/// What one named table does to the state.
pub open spec fn apply_table(st: TransformState, name: Seq<char>, td: TableDefModel) -> TransformState {
    TransformState {
        entities: upsert_entity(st.entities, entity_of(name, td)),
        inverse: if is_junction(td) {
            st.inverse
        } else {
            add_inverses(st.inverse, name, td, 0)
        },
        conjunct: if is_junction(td) {
            add_conjuncts(st.conjunct, name, td, 0)
        } else {
            st.conjunct
        },
    }
}

/// What one schema statement does to the state: only a named "create table"
/// is accepted.
pub open spec fn table_step(st: TransformState, t: TableStmtModel) -> Result<
    TransformState,
    Seq<char>,
> {
    match t {
        TableStmtModel::Other => Err("TableStatement should be create"@),
        TableStmtModel::Create(td) => match td.name {
            None => Err("Table name should not be empty"@),
            Some(name) => Ok(apply_table(st, name, td)),
        },
    }
}

/// The first pass over the remaining statements.
pub open spec fn scan_from(tables: Seq<TableStmtModel>, i: int, st: TransformState) -> Result<
    TransformState,
    Seq<char>,
>
    decreases tables.len() - i,
{
    if i < 0 || i >= tables.len() {
        Ok(st)
    } else {
        match table_step(st, tables[i]) {
            Ok(st2) => scan_from(tables, i + 1, st2),
            Err(e) => Err(e),
        }
    }
}

/// The second pass, inverse edges: each bucket's relations are appended to
/// its target entity; a bucket whose target is not in the schema is dropped.
pub open spec fn merge_inverse(
    es: Seq<EntityOutModel>,
    bs: Seq<RelBucketModel>,
    i: int,
) -> Seq<EntityOutModel>
    decreases bs.len() - i,
{
    if i < 0 || i >= bs.len() {
        es
    } else {
        let ei = entity_index(es, bs[i].key);
        let es2 = if ei >= 0 {
            es.update(
                ei,
                EntityOutModel { relations: es[ei].relations + bs[i].rels, ..es[ei] },
            )
        } else {
            es
        };
        merge_inverse(es2, bs, i + 1)
    }
}

/// The second pass, conjunct edges, as `merge_inverse`.
pub open spec fn merge_conjunct(
    es: Seq<EntityOutModel>,
    bs: Seq<ConjBucketModel>,
    i: int,
) -> Seq<EntityOutModel>
    decreases bs.len() - i,
{
    if i < 0 || i >= bs.len() {
        es
    } else {
        let ei = entity_index(es, bs[i].key);
        let es2 = if ei >= 0 {
            es.update(
                ei,
                EntityOutModel {
                    conjunct_relations: es[ei].conjunct_relations + bs[i].items,
                    ..es[ei]
                },
            )
        } else {
            es
        };
        merge_conjunct(es2, bs, i + 1)
    }
}

/// The whole transformation: scan every statement, then attach the collected
/// edges.  Any ill-formed statement aborts with its message; partial models
/// are never returned.
pub open spec fn transform_spec(tables: Seq<TableStmtModel>) -> Result<
    Seq<EntityOutModel>,
    Seq<char>,
> {
    match scan_from(tables, 0, empty_state()) {
        Err(e) => Err(e),
        Ok(st) => Ok(merge_conjunct(merge_inverse(st.entities, st.inverse, 0), st.conjunct, 0)),
    }
}


/// Whether `name` stands in `v`.
#[verifier::loop_isolation(false)]
fn string_vec_contains(v: &Vec<String>, name: &String) -> (r: bool)
    ensures
        r == string_views(v@).contains(name@),
{
    broadcast use crate::views::group_model_views;

    let n = v.len();
    for i in 0..n
        invariant
            forall|j: int| 0 <= j < i ==> (#[trigger] string_views(v@)[j]) != name@,
    {
        if v[i] == *name {
            proof {
                assert(string_views(v@)[i as int] == name@);
            }
            return true;
        }
    }
    proof {
        assert(!string_views(v@).contains(name@));
    }
    false
}

/// Whether some unique index of `td` covers `name`.
#[verifier::loop_isolation(false)]
fn unique_col(td: &TableDef, name: &String) -> (r: bool)
    ensures
        r == is_unique_col(td@, name@),
{
    broadcast use crate::views::group_model_views;

    let n = td.indexes.len();
    for k in 0..n
        invariant
            n == td.indexes@.len(),
            forall|j: int|
                0 <= j < k ==> !((#[trigger] td@.indexes[j]).unique && td@.indexes[j].columns
                    .contains(name@)),
    {
        if td.indexes[k].unique && string_vec_contains(&td.indexes[k].columns, name) {
            proof {
                assert(td@.indexes[k as int].unique && td@.indexes[k as int].columns.contains(
                    name@,
                ));
            }
            return true;
        }
    }
    false
}

/// Whether the `k`-th foreign key's columns form a unique constraint.
#[verifier::loop_isolation(false)]
fn fk_unique_exec(td: &TableDef, k: usize) -> (r: bool)
    requires
        k < td@.foreign_keys.len(),
    ensures
        r == fk_unique(td@, k as int),
{
    broadcast use crate::views::group_model_views;

    let fk = &td.foreign_keys[k];
    let n = fk.columns.len();
    for j in 0..n
        invariant
            n == fk.columns@.len(),
            fk@ == td@.foreign_keys[k as int],
            forall|j2: int|
                0 <= j2 < j ==> is_unique_col(
                    td@,
                    #[trigger] td@.foreign_keys[k as int].columns[j2],
                ),
    {
        if !unique_col(td, &fk.columns[j]) {
            proof {
                assert(!is_unique_col(td@, td@.foreign_keys[k as int].columns[j as int]));
            }
            return false;
        }
    }
    true
}

/// Build the entity a named table yields, before edges are attached.
#[verifier::loop_isolation(false)]
fn build_entity(name: &String, td: &TableDef) -> (r: Entity)
    ensures
        r@ == entity_of(name@, td@),
{
    broadcast use crate::views::group_model_views;

    let n_cols = td.columns.len();
    let mut columns: Vec<ColumnDef> = Vec::new();
    for i in 0..n_cols
        invariant
            n_cols == td.columns@.len(),
            column_models(columns@) =~= entity_columns(td@).take(i as int),
    {
        let u = unique_col(td, &td.columns[i].name);
        columns.push(
            ColumnDef {
                name: td.columns[i].name.clone(),
                col_type: td.columns[i].col_type,
                not_null: td.columns[i].not_null,
                unique: u,
            },
        );
        proof {
            assert(column_models(columns@) =~= entity_columns(td@).take(i + 1));
        }
    }
    proof {
        assert(entity_columns(td@).take(n_cols as int) =~= entity_columns(td@));
    }
    let n_idx = td.indexes.len();
    let mut primary_keys: Vec<String> = Vec::new();
    for k in 0..n_idx
        invariant
            n_idx == td.indexes@.len(),
            string_views(primary_keys@) =~= pk_names(td@.indexes.take(k as int)),
    {
        if td.indexes[k].primary {
            let ghost before = string_views(primary_keys@);
            let idx_cols = &td.indexes[k].columns;
            let n_ic = idx_cols.len();
            for c in 0..n_ic
                invariant
                    n_ic == idx_cols@.len(),
                    idx_cols@ == td.indexes@[k as int].columns@,
                    string_views(primary_keys@) =~= before + string_views(idx_cols@).take(
                        c as int,
                    ),
            {
                let ghost pre = primary_keys@;
                primary_keys.push(idx_cols[c].clone());
                proof {
                    assert forall|j: int| 0 <= j < pre.len() implies #[trigger] string_views(
                        primary_keys@,
                    )[j] == string_views(pre)[j] by {
                        assert(primary_keys@[j] == pre[j]);
                    }
                    assert(string_views(idx_cols@).len() == idx_cols@.len());
                    assert(string_views(primary_keys@) =~= before + string_views(idx_cols@).take(
                        c + 1,
                    ));
                }
            }
            proof {
                assert(string_views(idx_cols@).take(n_ic as int) =~= string_views(idx_cols@));
                assert(string_views(idx_cols@) == td@.indexes[k as int].columns);
            }
        }
        proof {
            assert(td@.indexes.take(k + 1).drop_last() =~= td@.indexes.take(k as int));
            assert(string_views(primary_keys@) =~= pk_names(td@.indexes.take(k + 1)));
        }
    }
    proof {
        assert(td@.indexes.take(n_idx as int) =~= td@.indexes);
    }
    let n_fks = td.foreign_keys.len();
    let mut relations: Vec<Relation> = Vec::new();
    for i in 0..n_fks
        invariant
            n_fks == td.foreign_keys@.len(),
            crate::views::relation_models(relations@) =~= forward_relations(td@).take(i as int),
    {
        relations.push(
            Relation {
                rel_type: RelationType::BelongsTo,
                ref_table: td.foreign_keys[i].ref_table.clone(),
                columns: clone_strings(&td.foreign_keys[i].columns),
                ref_columns: clone_strings(&td.foreign_keys[i].ref_columns),
            },
        );
        proof {
            assert(crate::views::relation_models(relations@) =~= forward_relations(td@).take(
                i + 1,
            ));
        }
    }
    proof {
        assert(forward_relations(td@).take(n_fks as int) =~= forward_relations(td@));
    }
    let r = Entity {
        table_name: name.clone(),
        columns,
        relations,
        conjunct_relations: Vec::new(),
        primary_keys,
    };
    proof {
        assert(r@.conjunct_relations =~= entity_of(name@, td@).conjunct_relations);
        assert(r@ =~= entity_of(name@, td@));
    }
    r
}

/// The position of the entity named `name`, if one was recorded.
#[verifier::loop_isolation(false)]
fn entity_position(es: &Vec<Entity>, name: &String) -> (r: Option<usize>)
    ensures
        r is Some <==> entity_index(crate::views::entity_out_models(es@), name@) >= 0,
        r matches Some(i) ==> i as int == entity_index(
            crate::views::entity_out_models(es@),
            name@,
        ) && i < es@.len(),
{
    broadcast use crate::views::group_model_views;

    let ghost ems = crate::views::entity_out_models(es@);
    let n = es.len();
    for i in 0..n
        invariant
            entity_index(ems, name@) == entity_index_from(ems, name@, i as int),
    {
        if es[i].table_name == *name {
            return Some(i);
        }
    }
    None
}

/// The position of the relation bucket keyed `name`, if one exists.
#[verifier::loop_isolation(false)]
fn rel_bucket_position(bs: &Vec<RelBucket>, name: &String) -> (r: Option<usize>)
    ensures
        r is Some <==> rel_bucket_index_from(crate::views::rel_bucket_models(bs@), name@, 0) >= 0,
        r matches Some(i) ==> i as int == rel_bucket_index_from(
            crate::views::rel_bucket_models(bs@),
            name@,
            0,
        ) && i < bs@.len(),
{
    broadcast use crate::views::group_model_views;

    let ghost bms = crate::views::rel_bucket_models(bs@);
    let n = bs.len();
    for i in 0..n
        invariant
            rel_bucket_index_from(bms, name@, 0) == rel_bucket_index_from(bms, name@, i as int),
    {
        if bs[i].key == *name {
            return Some(i);
        }
    }
    None
}

/// The position of the conjunct bucket keyed `name`, if one exists.
#[verifier::loop_isolation(false)]
fn conj_bucket_position(bs: &Vec<ConjBucket>, name: &String) -> (r: Option<usize>)
    ensures
        r is Some <==> conj_bucket_index_from(crate::views::conj_bucket_models(bs@), name@, 0)
            >= 0,
        r matches Some(i) ==> i as int == conj_bucket_index_from(
            crate::views::conj_bucket_models(bs@),
            name@,
            0,
        ) && i < bs@.len(),
{
    broadcast use crate::views::group_model_views;

    let ghost bms = crate::views::conj_bucket_models(bs@);
    let n = bs.len();
    for i in 0..n
        invariant
            conj_bucket_index_from(bms, name@, 0) == conj_bucket_index_from(bms, name@, i as int),
    {
        if bs[i].key == *name {
            return Some(i);
        }
    }
    None
}

/// Record an entity, replacing an earlier entry for the same table in place.
fn upsert_entity_exec(es: &mut Vec<Entity>, e: Entity)
    ensures
        crate::views::entity_out_models(final(es)@) == upsert_entity(
            crate::views::entity_out_models(old(es)@),
            e@,
        ),
{
    broadcast use crate::views::group_model_views;

    let ghost ems = crate::views::entity_out_models(es@);
    let ghost em = e@;
    match entity_position(es, &e.table_name) {
        Some(i) => {
            es.set(i, e);
            proof {
                assert(crate::views::entity_out_models(es@) =~= ems.update(
                    entity_index(ems, em.table_name),
                    em,
                ));
            }
        },
        None => {
            es.push(e);
            proof {
                assert(crate::views::entity_out_models(es@) =~= ems.push(em));
            }
        },
    }
}

/// File an inverse relation under its target table.
fn attach_rel_exec(bs: &mut Vec<RelBucket>, key: &String, r: Relation)
    ensures
        crate::views::rel_bucket_models(final(bs)@) == attach_rel(
            crate::views::rel_bucket_models(old(bs)@),
            key@,
            r@,
        ),
{
    broadcast use crate::views::group_model_views;

    let ghost bms = crate::views::rel_bucket_models(bs@);
    let ghost rm = r@;
    match rel_bucket_position(bs, key) {
        Some(i) => {
            let ghost rels_pre = bs@[i as int].rels@;
            let bucket = &mut bs[i];
            bucket.rels.push(r);
            proof {
                let idx = rel_bucket_index_from(bms, key@, 0);
                assert(bs@[i as int].rels@ =~= rels_pre.push(r));
                assert forall|j: int| 0 <= j < rels_pre.len() implies #[trigger] crate::views::relation_models(
                    bs@[i as int].rels@,
                )[j] == crate::views::relation_models(rels_pre)[j] by {
                    assert(bs@[i as int].rels@[j] == rels_pre[j]);
                }
                assert(crate::views::relation_models(bs@[i as int].rels@) =~= bms[idx].rels.push(
                    rm,
                ));
                assert(crate::views::rel_bucket_models(bs@) =~= bms.update(
                    idx,
                    RelBucketModel { key: bms[idx].key, rels: bms[idx].rels.push(rm) },
                ));
            }
        },
        None => {
            let mut rels: Vec<Relation> = Vec::new();
            rels.push(r);
            bs.push(RelBucket { key: key.clone(), rels });
            proof {
                assert(crate::views::relation_models(seq![r]) =~= seq![rm]);
                assert(crate::views::rel_bucket_models(bs@) =~= bms.push(
                    RelBucketModel { key: key@, rels: seq![rm] },
                ));
            }
        },
    }
}

/// File a conjunct relation under its target table.
fn attach_conj_exec(bs: &mut Vec<ConjBucket>, key: &String, c: ConjunctRelation)
    ensures
        crate::views::conj_bucket_models(final(bs)@) == attach_conj(
            crate::views::conj_bucket_models(old(bs)@),
            key@,
            c@,
        ),
{
    broadcast use crate::views::group_model_views;

    let ghost bms = crate::views::conj_bucket_models(bs@);
    let ghost cm = c@;
    match conj_bucket_position(bs, key) {
        Some(i) => {
            let ghost items_pre = bs@[i as int].items@;
            let bucket = &mut bs[i];
            bucket.items.push(c);
            proof {
                let idx = conj_bucket_index_from(bms, key@, 0);
                assert(bs@[i as int].items@ =~= items_pre.push(c));
                assert forall|j: int| 0 <= j < items_pre.len() implies #[trigger] crate::views::conjunct_models(
                    bs@[i as int].items@,
                )[j] == crate::views::conjunct_models(items_pre)[j] by {
                    assert(bs@[i as int].items@[j] == items_pre[j]);
                }
                assert(crate::views::conjunct_models(bs@[i as int].items@) =~= bms[idx].items.push(
                    cm,
                ));
                assert(crate::views::conj_bucket_models(bs@) =~= bms.update(
                    idx,
                    ConjBucketModel { key: bms[idx].key, items: bms[idx].items.push(cm) },
                ));
            }
        },
        None => {
            let mut items: Vec<ConjunctRelation> = Vec::new();
            items.push(c);
            bs.push(ConjBucket { key: key.clone(), items });
            proof {
                assert(crate::views::conjunct_models(seq![c]) =~= seq![cm]);
                assert(crate::views::conj_bucket_models(bs@) =~= bms.push(
                    ConjBucketModel { key: key@, items: seq![cm] },
                ));
            }
        },
    }
}

/// Attach every collected inverse relation to its target entity; buckets
/// whose target is unknown are dropped.
#[verifier::loop_isolation(false)]
fn merge_inverse_exec(entities: &mut Vec<Entity>, inverse: &Vec<RelBucket>)
    ensures
        crate::views::entity_out_models(final(entities)@) == merge_inverse(
            crate::views::entity_out_models(old(entities)@),
            crate::views::rel_bucket_models(inverse@),
            0,
        ),
{
    broadcast use crate::views::group_model_views;

    let ghost bms = crate::views::rel_bucket_models(inverse@);
    let ghost es0 = crate::views::entity_out_models(entities@);
    let n_inv = inverse.len();
    for b in 0..n_inv
        invariant
            n_inv == inverse@.len(),
            merge_inverse(es0, bms, 0) == merge_inverse(
                crate::views::entity_out_models(entities@),
                bms,
                b as int,
            ),
    {
        let ghost es_here = crate::views::entity_out_models(entities@);
        match entity_position(entities, &inverse[b].key) {
            Some(ei) => {
                let ghost ent_before = es_here[ei as int];
                let n_rels = inverse[b].rels.len();
                for rr in 0..n_rels
                    invariant
                        n_rels == inverse@[b as int].rels@.len(),
                        b < inverse@.len(),
                        ei < entities@.len(),
                        crate::views::entity_out_models(entities@) == es_here.update(
                            ei as int,
                            EntityOutModel {
                                relations: ent_before.relations + bms[b as int].rels.take(
                                    rr as int,
                                ),
                                ..ent_before
                            },
                        ),
                {
                    let rel = inverse[b].rels[rr].clone();
                    let ghost rm = rel@;
                    let ghost es_iter = entities@;
                    let ghost rels_pre = entities@[ei as int].relations@;
                    proof {
                        assert(bms[b as int].rels.len() == n_rels);
                        assert(rm == bms[b as int].rels[rr as int]);
                        assert(crate::views::entity_out_models(es_iter)[ei as int]
                            == (EntityOutModel {
                            relations: ent_before.relations + bms[b as int].rels.take(rr as int),
                            ..ent_before
                        }));
                        assert((es_iter[ei as int])@ == (EntityOutModel {
                            relations: ent_before.relations + bms[b as int].rels.take(rr as int),
                            ..ent_before
                        }));
                        assert(crate::views::relation_models(rels_pre) == ent_before.relations
                            + bms[b as int].rels.take(rr as int));
                    }
                    let ent = &mut entities[ei];
                    ent.relations.push(rel);
                    proof {
                        assert(entities@[ei as int].relations@ =~= rels_pre.push(rel));
                        assert forall|j: int|
                            0 <= j < rels_pre.len() implies #[trigger] crate::views::relation_models(
                            entities@[ei as int].relations@,
                        )[j] == crate::views::relation_models(rels_pre)[j] by {
                            assert(entities@[ei as int].relations@[j] == rels_pre[j]);
                        }
                        let new_rels = entities@[ei as int].relations@;
                        let av = ent_before.relations;
                        let bv = bms[b as int].rels;
                        assert(crate::views::relation_models(new_rels).len() == av.len() + rr + 1);
                        assert forall|j: int|
                            0 <= j < av.len() + rr + 1 implies #[trigger] crate::views::relation_models(
                            new_rels,
                        )[j] == (av + bv.take(rr + 1))[j] by {
                            if j < rels_pre.len() {
                                assert(crate::views::relation_models(new_rels)[j]
                                    == crate::views::relation_models(rels_pre)[j]);
                                assert(crate::views::relation_models(rels_pre)[j] == (av + bv.take(
                                    rr as int,
                                ))[j]);
                                if j >= av.len() {
                                    assert((av + bv.take(rr as int))[j] == bv[j - av.len()]);
                                    assert((av + bv.take(rr + 1))[j] == bv[j - av.len()]);
                                }
                            } else {
                                assert(new_rels[j] == rels_pre.push(rel)[j]);
                                assert(crate::views::relation_models(new_rels)[j] == rm);
                                assert((av + bv.take(rr + 1))[j] == bv[rr as int]);
                            }
                        }
                        assert(crate::views::relation_models(entities@[ei as int].relations@)
                            =~= ent_before.relations + bms[b as int].rels.take(rr + 1));
                        assert forall|j: int|
                            0 <= j < es_iter.len() && j != ei implies #[trigger] crate::views::entity_out_models(
                            entities@,
                        )[j] == crate::views::entity_out_models(es_iter)[j] by {
                            assert(entities@[j] == es_iter[j]);
                        }
                        assert(crate::views::entity_out_models(entities@) =~= es_here.update(
                            ei as int,
                            EntityOutModel {
                                relations: ent_before.relations + bms[b as int].rels.take(rr + 1),
                                ..ent_before
                            },
                        ));
                    }
                }
                proof {
                    assert(bms[b as int].rels.take(n_rels as int) =~= bms[b as int].rels);
                }
            },
            None => {
            },
        }
    }
}

/// Attach every collected conjunct relation to its target entity; buckets
/// whose target is unknown are dropped.
#[verifier::loop_isolation(false)]
fn merge_conjunct_exec(entities: &mut Vec<Entity>, conjunct: &Vec<ConjBucket>)
    ensures
        crate::views::entity_out_models(final(entities)@) == merge_conjunct(
            crate::views::entity_out_models(old(entities)@),
            crate::views::conj_bucket_models(conjunct@),
            0,
        ),
{
    broadcast use crate::views::group_model_views;

    let ghost bms = crate::views::conj_bucket_models(conjunct@);
    let ghost es0 = crate::views::entity_out_models(entities@);
    let n_conj = conjunct.len();
    for b in 0..n_conj
        invariant
            n_conj == conjunct@.len(),
            merge_conjunct(es0, bms, 0) == merge_conjunct(
                crate::views::entity_out_models(entities@),
                bms,
                b as int,
            ),
    {
        let ghost es_here = crate::views::entity_out_models(entities@);
        match entity_position(entities, &conjunct[b].key) {
            Some(ei) => {
                let ghost ent_before = es_here[ei as int];
                let n_items = conjunct[b].items.len();
                for rr in 0..n_items
                    invariant
                        n_items == conjunct@[b as int].items@.len(),
                        b < conjunct@.len(),
                        ei < entities@.len(),
                        crate::views::entity_out_models(entities@) == es_here.update(
                            ei as int,
                            EntityOutModel {
                                conjunct_relations: ent_before.conjunct_relations + bms[b as int]
                                    .items.take(rr as int),
                                ..ent_before
                            },
                        ),
                {
                    let edge = conjunct[b].items[rr].clone();
                    let ghost em2 = edge@;
                    let ghost es_iter = entities@;
                    let ghost items_pre = entities@[ei as int].conjunct_relations@;
                    proof {
                        assert(bms[b as int].items.len() == n_items);
                        assert(em2 == bms[b as int].items[rr as int]);
                        assert(crate::views::entity_out_models(es_iter)[ei as int]
                            == (EntityOutModel {
                            conjunct_relations: ent_before.conjunct_relations + bms[b as int].items
                                .take(rr as int),
                            ..ent_before
                        }));
                        assert((es_iter[ei as int])@ == (EntityOutModel {
                            conjunct_relations: ent_before.conjunct_relations + bms[b as int].items
                                .take(rr as int),
                            ..ent_before
                        }));
                        assert(crate::views::conjunct_models(items_pre)
                            == ent_before.conjunct_relations + bms[b as int].items.take(rr as int));
                    }
                    let ent = &mut entities[ei];
                    ent.conjunct_relations.push(edge);
                    proof {
                        assert(entities@[ei as int].conjunct_relations@ =~= items_pre.push(edge));
                        assert forall|j: int|
                            0 <= j < items_pre.len() implies #[trigger] crate::views::conjunct_models(
                            entities@[ei as int].conjunct_relations@,
                        )[j] == crate::views::conjunct_models(items_pre)[j] by {
                            assert(entities@[ei as int].conjunct_relations@[j] == items_pre[j]);
                        }
                        let new_items = entities@[ei as int].conjunct_relations@;
                        let av = ent_before.conjunct_relations;
                        let bv = bms[b as int].items;
                        assert(crate::views::conjunct_models(new_items).len() == av.len() + rr + 1);
                        assert forall|j: int|
                            0 <= j < av.len() + rr + 1 implies #[trigger] crate::views::conjunct_models(
                            new_items,
                        )[j] == (av + bv.take(rr + 1))[j] by {
                            if j < items_pre.len() {
                                assert(crate::views::conjunct_models(new_items)[j]
                                    == crate::views::conjunct_models(items_pre)[j]);
                                assert(crate::views::conjunct_models(items_pre)[j] == (av + bv.take(
                                    rr as int,
                                ))[j]);
                                if j >= av.len() {
                                    assert((av + bv.take(rr as int))[j] == bv[j - av.len()]);
                                    assert((av + bv.take(rr + 1))[j] == bv[j - av.len()]);
                                }
                            } else {
                                assert(new_items[j] == items_pre.push(edge)[j]);
                                assert(crate::views::conjunct_models(new_items)[j] == em2);
                                assert((av + bv.take(rr + 1))[j] == bv[rr as int]);
                            }
                        }
                        assert(crate::views::conjunct_models(
                            entities@[ei as int].conjunct_relations@,
                        ) =~= ent_before.conjunct_relations + bms[b as int].items.take(rr + 1));
                        assert forall|j: int|
                            0 <= j < es_iter.len() && j != ei implies #[trigger] crate::views::entity_out_models(
                            entities@,
                        )[j] == crate::views::entity_out_models(es_iter)[j] by {
                            assert(entities@[j] == es_iter[j]);
                        }
                        assert(crate::views::entity_out_models(entities@) =~= es_here.update(
                            ei as int,
                            EntityOutModel {
                                conjunct_relations: ent_before.conjunct_relations + bms[b as int]
                                    .items.take(rr + 1),
                                ..ent_before
                            },
                        ));
                    }
                }
                proof {
                    assert(bms[b as int].items.take(n_items as int) =~= bms[b as int].items);
                }
            },
            None => {
            },
        }
    }
}

impl EntityTransformer {
    /// Synthesize the entity/relation model of the whole schema: one pass
    /// collects each table's entity and the inverse and conjunct edges it
    /// contributes to other tables; a second pass attaches those edges.  Any
    /// statement that is not a named "create table" aborts with a
    /// descriptive error; partial models are never returned.
    #[verifier::loop_isolation(false)]
    #[verifier::rlimit(60)]
    pub fn transform(self) -> (r: Result<EntityWriter, Error>)
        ensures
            r is Ok <==> transform_spec(crate::views::table_stmt_models(self.tables@)) is Ok,
            r matches Ok(w) ==> Ok::<_, Seq<char>>(crate::views::entity_out_models(w.entities@))
                == transform_spec(crate::views::table_stmt_models(self.tables@)),
            r matches Err(e) ==> Err::<Seq<EntityOutModel>, _>(e@) == transform_spec(
                crate::views::table_stmt_models(self.tables@),
            ),
    {
        broadcast use crate::views::group_model_views;

        let ghost tms = crate::views::table_stmt_models(self.tables@);
        let mut entities: Vec<Entity> = Vec::new();
        let mut inverse: Vec<RelBucket> = Vec::new();
        let mut conjunct: Vec<ConjBucket> = Vec::new();
        proof {
            assert(crate::views::entity_out_models(entities@) =~= empty_state().entities);
            assert(crate::views::rel_bucket_models(inverse@) =~= empty_state().inverse);
            assert(crate::views::conj_bucket_models(conjunct@) =~= empty_state().conjunct);
            assert(TransformState {
                entities: crate::views::entity_out_models(entities@),
                inverse: crate::views::rel_bucket_models(inverse@),
                conjunct: crate::views::conj_bucket_models(conjunct@),
            } =~= empty_state());
        }
        let n_tables = self.tables.len();
        for t in 0..n_tables
            invariant
                n_tables == self.tables@.len(),
                scan_from(tms, 0, empty_state()) == scan_from(
                    tms,
                    t as int,
                    TransformState {
                        entities: crate::views::entity_out_models(entities@),
                        inverse: crate::views::rel_bucket_models(inverse@),
                        conjunct: crate::views::conj_bucket_models(conjunct@),
                    },
                ),
        {
            let ghost st_here = TransformState {
                entities: crate::views::entity_out_models(entities@),
                inverse: crate::views::rel_bucket_models(inverse@),
                conjunct: crate::views::conj_bucket_models(conjunct@),
            };
            let td = match &self.tables[t] {
                TableStmt::Create(td) => td,
                TableStmt::Other => {
                    proof {
                        assert(scan_from(tms, t as int, st_here) == Err::<
                            TransformState,
                            Seq<char>,
                        >("TableStatement should be create"@));
                    }
                    return Err(
                        Error::TransformError("TableStatement should be create".to_owned()),
                    );
                },
            };
            let name = match &td.name {
                Some(n) => n,
                None => {
                    proof {
                        assert(scan_from(tms, t as int, st_here) == Err::<
                            TransformState,
                            Seq<char>,
                        >("Table name should not be empty"@));
                    }
                    return Err(
                        Error::TransformError("Table name should not be empty".to_owned()),
                    );
                },
            };
            let entity = build_entity(name, td);
            let pk_count = entity.primary_keys.len();
            let junction = pk_count == td.columns.len() && pk_count == 2;
            proof {
                assert(string_views(entity.primary_keys@) == pk_names(td@.indexes));
                assert(junction == is_junction(td@));
            }
            upsert_entity_exec(&mut entities, entity);
            let n_fks = td.foreign_keys.len();
            if junction {
                for i in 0..n_fks
                    invariant
                        n_fks == td.foreign_keys@.len(),
                        add_conjuncts(st_here.conjunct, name@, td@, 0) == add_conjuncts(
                            crate::views::conj_bucket_models(conjunct@),
                            name@,
                            td@,
                            i as int,
                        ),
                {
                    let partner: usize = if i == 0 {
                        1
                    } else {
                        0
                    };
                    if partner < n_fks {
                        let edge = ConjunctRelation {
                            via: name.clone(),
                            to: td.foreign_keys[partner].ref_table.clone(),
                        };
                        attach_conj_exec(&mut conjunct, &td.foreign_keys[i].ref_table, edge);
                    }
                }
            } else {
                for i in 0..n_fks
                    invariant
                        n_fks == td.foreign_keys@.len(),
                        add_inverses(st_here.inverse, name@, td@, 0) == add_inverses(
                            crate::views::rel_bucket_models(inverse@),
                            name@,
                            td@,
                            i as int,
                        ),
                {
                    let unique = fk_unique_exec(td, i);
                    let rel_type = if unique {
                        RelationType::HasOne
                    } else {
                        RelationType::HasMany
                    };
                    let rel = Relation {
                        rel_type,
                        ref_table: name.clone(),
                        columns: Vec::new(),
                        ref_columns: Vec::new(),
                    };
                    proof {
                        assert(string_views(Seq::<String>::empty()) =~= Seq::<Seq<char>>::empty());
                        assert(rel@ =~= (RelationModel {
                            rel_type,
                            ref_table: name@,
                            columns: seq![],
                            ref_columns: seq![],
                        }));
                    }
                    attach_rel_exec(&mut inverse, &td.foreign_keys[i].ref_table, rel);
                }
            }
            proof {
                let st_next = TransformState {
                    entities: crate::views::entity_out_models(entities@),
                    inverse: crate::views::rel_bucket_models(inverse@),
                    conjunct: crate::views::conj_bucket_models(conjunct@),
                };
                assert(st_next =~= apply_table(st_here, name@, td@));
                assert(scan_from(tms, t as int, st_here) == scan_from(tms, t + 1, st_next));
            }
        }
        let ghost st_scanned = TransformState {
            entities: crate::views::entity_out_models(entities@),
            inverse: crate::views::rel_bucket_models(inverse@),
            conjunct: crate::views::conj_bucket_models(conjunct@),
        };
        proof {
            assert(scan_from(tms, 0, empty_state()) == Ok::<TransformState, Seq<char>>(
                st_scanned,
            ));
        }
        merge_inverse_exec(&mut entities, &inverse);
        merge_conjunct_exec(&mut entities, &conjunct);
        Ok(EntityWriter { entities })
    }
}

} // verus!
