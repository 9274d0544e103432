//! Laws the builders obey, stated and proved once over the statement models.

use vstd::prelude::*;
use crate::active_model::{ActiveValueModel, ActiveValueState};
use crate::entity::ColumnDefModel;
use crate::expr::{ColumnRefModel, ExprModel};
use crate::insert::{set_column_names, set_values};
use crate::relation::RelationDefModel;
use crate::select::{
    join_condition, own_join_condition, spec_column, spec_join, spec_prepare_join,
    spec_select_only, JoinKind, JoinModel, ProjectionModel, SelectModel,
};
use crate::relation::RelationType;
use crate::transformer::{
    add_conjuncts, add_inverses, apply_table, attach_conj, attach_rel, conj_bucket_index_from,
    entity_index, entity_index_from, fk_unique, is_junction, merge_conjunct, merge_inverse,
    scan_from, table_step, transform_spec, upsert_entity, ConjBucketModel, ConjunctModel,
    EntityOutModel, RelBucketModel, RelationModel, TableDefModel, TableStmtModel, TransformState,
};
use crate::value::ValueModel;

verus! {

/// `column` applied once per reference, left to right.
pub open spec fn apply_columns(m: SelectModel, cs: Seq<ColumnRefModel>) -> SelectModel
    decreases cs.len(),
{
    if cs.len() == 0 {
        m
    } else {
        spec_column(apply_columns(m, cs.drop_last()), cs.last())
    }
}

/// For every statement and every sequence of column references, clearing the
/// projection with `select_only` and then projecting the references one by
/// one yields a projection list of exactly those columns, in call order —
/// however many columns the entity's default projection had — and touches no
/// other clause.
pub proof fn lemma_projection_exact(m: SelectModel, cs: Seq<ColumnRefModel>)
    ensures
        apply_columns(spec_select_only(m), cs).projections =~= Seq::new(
            cs.len(),
            |i: int| ProjectionModel { expr: ExprModel::Column(cs[i]), alias: None },
        ),
        apply_columns(spec_select_only(m), cs).from == m.from,
        apply_columns(spec_select_only(m), cs).joins == m.joins,
        apply_columns(spec_select_only(m), cs).conds == m.conds,
        apply_columns(spec_select_only(m), cs).group_bys == m.group_bys,
        apply_columns(spec_select_only(m), cs).orders == m.orders,
    decreases cs.len(),
{
    if cs.len() > 0 {
        lemma_projection_exact(m, cs.drop_last());
    }
}

/// For every statement and every relation with unary keys, one `join` call
/// appends exactly one join clause, whose condition is a single equality
/// between the relation's local column and its foreign column, both
/// table-qualified; every other clause, the filters included, is untouched.
pub proof fn lemma_join_exact(m: SelectModel, kind: JoinKind, r: RelationDefModel)
    ensures
        spec_join(m, kind, r).joins.len() == m.joins.len() + 1,
        spec_join(m, kind, r).joins.last() == (JoinModel {
            kind,
            table: r.to_tbl,
            cond: ExprModel::ColumnEquals {
                left: ColumnRefModel { table: r.from_tbl, name: r.from_col->Unary_0 },
                right: ColumnRefModel { table: r.to_tbl, name: r.to_col->Unary_0 },
            },
        }),
        forall|j: int| 0 <= j < m.joins.len() ==> spec_join(m, kind, r).joins[j] == m.joins[j],
        spec_join(m, kind, r).conds == m.conds,
        spec_join(m, kind, r).projections == m.projections,
        spec_join(m, kind, r).from == m.from,
        spec_join(m, kind, r).group_bys == m.group_bys,
        spec_join(m, kind, r).orders == m.orders,
{
    assert(join_condition(r) == (ExprModel::ColumnEquals {
        left: ColumnRefModel { table: r.from_tbl, name: r.from_col->Unary_0 },
        right: ColumnRefModel { table: r.to_tbl, name: r.to_col->Unary_0 },
    }));
}

/// As `lemma_join_exact`, for the joins that start at the statement's own
/// entity (`left_join`, `right_join`, `inner_join`): exactly one join clause
/// is appended, whose condition is a single equality between the statement's
/// own column and the relation's foreign column, both table-qualified.
pub proof fn lemma_prepare_join_exact(m: SelectModel, kind: JoinKind, r: RelationDefModel)
    ensures
        spec_prepare_join(m, kind, r).joins.len() == m.joins.len() + 1,
        spec_prepare_join(m, kind, r).joins.last() == (JoinModel {
            kind,
            table: r.to_tbl,
            cond: ExprModel::ColumnEquals {
                left: ColumnRefModel { table: m.from, name: r.from_col->Unary_0 },
                right: ColumnRefModel { table: r.to_tbl, name: r.to_col->Unary_0 },
            },
        }),
        forall|j: int|
            0 <= j < m.joins.len() ==> spec_prepare_join(m, kind, r).joins[j] == m.joins[j],
        spec_prepare_join(m, kind, r).conds == m.conds,
        spec_prepare_join(m, kind, r).projections == m.projections,
        spec_prepare_join(m, kind, r).from == m.from,
        spec_prepare_join(m, kind, r).group_bys == m.group_bys,
        spec_prepare_join(m, kind, r).orders == m.orders,
{
    assert(own_join_condition(m, r) == (ExprModel::ColumnEquals {
        left: ColumnRefModel { table: m.from, name: r.from_col->Unary_0 },
        right: ColumnRefModel { table: r.to_tbl, name: r.to_col->Unary_0 },
    }));
}

/// The positions of the supplied (`Set`) intents, ascending.
pub open spec fn set_indices(vals: Seq<ActiveValueModel>) -> Seq<int>
    decreases vals.len(),
{
    if vals.len() == 0 {
        seq![]
    } else {
        set_indices(vals.drop_last()) + if vals.last().state == ActiveValueState::Assigned {
            seq![vals.len() - 1]
        } else {
            seq![]
        }
    }
}

/// The positions `set_indices` yields are exactly the supplied columns, in
/// ascending (declared) order, and the rendered column and value lists read
/// them off.
pub proof fn lemma_set_indices(cols: Seq<ColumnDefModel>, vals: Seq<ActiveValueModel>)
    requires
        cols.len() == vals.len(),
    ensures
        forall|k: int|
            0 <= k < set_indices(vals).len() ==> 0 <= #[trigger] set_indices(vals)[k]
                < vals.len() && vals[set_indices(vals)[k]].state == ActiveValueState::Assigned,
        forall|i: int|
            0 <= i < vals.len() && vals[i].state == ActiveValueState::Assigned ==> set_indices(
                vals,
            ).contains(i),
        forall|k1: int, k2: int|
            0 <= k1 < k2 < set_indices(vals).len() ==> set_indices(vals)[k1] < set_indices(
                vals,
            )[k2],
        set_column_names(cols, vals) =~= set_indices(vals).map_values(
            |i: int| cols[i].name,
        ),
        set_values(vals) =~= set_indices(vals).map_values(|i: int| vals[i].value),
    decreases vals.len(),
{
    if vals.len() > 0 {
        lemma_set_indices(cols.drop_last(), vals.drop_last());
        assert forall|i: int|
            0 <= i < vals.len() && vals[i].state == ActiveValueState::Assigned implies set_indices(
            vals,
        ).contains(i) by {
            if i < vals.len() - 1 {
                assert(vals.drop_last()[i] == vals[i]);
                assert(set_indices(vals.drop_last()).contains(i));
                let k = choose|k: int|
                    0 <= k < set_indices(vals.drop_last()).len() && set_indices(
                        vals.drop_last(),
                    )[k] == i;
                assert(set_indices(vals)[k] == i);
            } else {
                assert(set_indices(vals).last() == i);
            }
        }
        assert(set_column_names(cols, vals) =~= set_indices(vals).map_values(
            |i: int| cols[i].name,
        ));
        assert(set_values(vals) =~= set_indices(vals).map_values(|i: int| vals[i].value));
    }
}

/// Round trip of a record through an INSERT: the rendered column list holds
/// exactly the names of the record's `Set` columns, in the entity's declared
/// column order; with column names unique within the entity, an `Unset`
/// column's name never appears; and the value tuple holds exactly the `Set`
/// values, in the same order, so the list and the tuple line up pairwise.
pub proof fn lemma_insert_round_trip(cols: Seq<ColumnDefModel>, vals: Seq<ActiveValueModel>)
    requires
        cols.len() == vals.len(),
        forall|i: int, j: int|
            0 <= i < j < cols.len() ==> (#[trigger] cols[i].name) != (#[trigger] cols[j].name),
    ensures
        set_column_names(cols, vals).len() == set_indices(vals).len(),
        set_values(vals).len() == set_indices(vals).len(),
        forall|k: int|
            0 <= k < set_indices(vals).len() ==> #[trigger] set_column_names(cols, vals)[k]
                == cols[set_indices(vals)[k]].name && set_values(vals)[k]
                == vals[set_indices(vals)[k]].value,
        forall|i: int|
            0 <= i < vals.len() && vals[i].state != ActiveValueState::Assigned
                ==> !set_column_names(cols, vals).contains(#[trigger] cols[i].name),
{
    lemma_set_indices(cols, vals);
    assert forall|i: int|
        0 <= i < vals.len() && vals[i].state != ActiveValueState::Assigned
        implies !set_column_names(cols, vals).contains(#[trigger] cols[i].name) by {
        if set_column_names(cols, vals).contains(cols[i].name) {
            let k = choose|k: int|
                0 <= k < set_column_names(cols, vals).len() && set_column_names(cols, vals)[k]
                    == cols[i].name;
            let idx = set_indices(vals)[k];
            assert(cols[idx].name == cols[i].name);
            assert(idx == i);
        }
    }
}

/// A pure junction table synthesizes no inverse relations at all; it only
/// files conjunct relations, paired positionally: the table referenced by
/// its first foreign key learns it reaches the second key's target via the
/// junction, and the table referenced by its second key learns it reaches
/// the first key's target — so the physical declaration order of the two
/// keys decides which side is "via" and which is "to".
pub proof fn lemma_junction_edges(st: TransformState, name: Seq<char>, td: TableDefModel)
    requires
        is_junction(td),
        td.foreign_keys.len() == 2,
    ensures
        apply_table(st, name, td).inverse == st.inverse,
        apply_table(st, name, td).conjunct == attach_conj(
            attach_conj(
                st.conjunct,
                td.foreign_keys[0].ref_table,
                ConjunctModel { via: name, to: td.foreign_keys[1].ref_table },
            ),
            td.foreign_keys[1].ref_table,
            ConjunctModel { via: name, to: td.foreign_keys[0].ref_table },
        ),
        apply_table(st, name, td).entities == crate::transformer::upsert_entity(
            st.entities,
            crate::transformer::entity_of(name, td),
        ),
{
    let c1 = attach_conj(
        st.conjunct,
        td.foreign_keys[0].ref_table,
        ConjunctModel { via: name, to: td.foreign_keys[1].ref_table },
    );
    let c2 = attach_conj(
        c1,
        td.foreign_keys[1].ref_table,
        ConjunctModel { via: name, to: td.foreign_keys[0].ref_table },
    );
    assert(add_conjuncts(st.conjunct, name, td, 0) == add_conjuncts(c1, name, td, 1));
    assert(add_conjuncts(c1, name, td, 1) == add_conjuncts(c2, name, td, 2));
    assert(add_conjuncts(c2, name, td, 2) == c2);
}

/// Whether some bucket keyed `key` holds the relation `r`.
pub open spec fn bucket_has(bs: Seq<RelBucketModel>, key: Seq<char>, r: RelationModel) -> bool {
    exists|i: int| 0 <= i < bs.len() && (#[trigger] bs[i]).key == key && bs[i].rels.contains(r)
}

/// Filing a relation makes its bucket hold it.
proof fn lemma_attach_rel_adds(bs: Seq<RelBucketModel>, key: Seq<char>, r: RelationModel)
    ensures
        bucket_has(attach_rel(bs, key, r), key, r),
{
    let i = crate::transformer::rel_bucket_index_from(bs, key, 0);
    lemma_rel_bucket_index_props(bs, key, 0);
    if i >= 0 {
        let after = attach_rel(bs, key, r);
        assert(after[i].key == key);
        assert(after[i].rels[bs[i].rels.len() as int] == r);
        assert(after[i].rels.contains(r));
    } else {
        let after = attach_rel(bs, key, r);
        assert(after[bs.len() as int].key == key);
        assert(after[bs.len() as int].rels[0] == r);
        assert(after[bs.len() as int].rels.contains(r));
    }
}

/// Filing a relation keeps everything already filed.
proof fn lemma_attach_rel_keeps(
    bs: Seq<RelBucketModel>,
    key: Seq<char>,
    r: RelationModel,
    key2: Seq<char>,
    r2: RelationModel,
)
    requires
        bucket_has(bs, key2, r2),
    ensures
        bucket_has(attach_rel(bs, key, r), key2, r2),
{
    let i = crate::transformer::rel_bucket_index_from(bs, key, 0);
    lemma_rel_bucket_index_props(bs, key, 0);
    let j = choose|j: int| 0 <= j < bs.len() && (#[trigger] bs[j]).key == key2 && bs[j].rels.contains(r2);
    let after = attach_rel(bs, key, r);
    if i >= 0 && i == j {
        assert(after[j].key == key2);
        let k = choose|k: int| 0 <= k < bs[j].rels.len() && bs[j].rels[k] == r2;
        assert(after[j].rels[k] == r2);
        assert(after[j].rels.contains(r2));
    } else {
        assert(after[j] == bs[j]);
    }
}

/// Where a bucket lookup lands.
proof fn lemma_rel_bucket_index_props(bs: Seq<RelBucketModel>, key: Seq<char>, i: int)
    requires
        0 <= i,
    ensures
        crate::transformer::rel_bucket_index_from(bs, key, i) == -1 || (i
            <= crate::transformer::rel_bucket_index_from(bs, key, i) < bs.len()
            && bs[crate::transformer::rel_bucket_index_from(bs, key, i)].key == key),
    decreases bs.len() - i,
{
    if i < bs.len() && bs[i].key != key {
        lemma_rel_bucket_index_props(bs, key, i + 1);
    }
}

/// The inverse relation a foreign key contributes, from key `k` on, survives
/// the rest of the fold.
proof fn lemma_add_inverses_from(
    bs: Seq<RelBucketModel>,
    name: Seq<char>,
    td: TableDefModel,
    i: int,
    key2: Seq<char>,
    r2: RelationModel,
)
    requires
        bucket_has(bs, key2, r2),
    ensures
        bucket_has(add_inverses(bs, name, td, i), key2, r2),
    decreases td.foreign_keys.len() - i,
{
    if 0 <= i < td.foreign_keys.len() {
        let rel_type = if fk_unique(td, i) {
            RelationType::HasOne
        } else {
            RelationType::HasMany
        };
        let r = RelationModel { rel_type, ref_table: name, columns: seq![], ref_columns: seq![] };
        lemma_attach_rel_keeps(bs, td.foreign_keys[i].ref_table, r, key2, r2);
        lemma_add_inverses_from(
            attach_rel(bs, td.foreign_keys[i].ref_table, r),
            name,
            td,
            i + 1,
            key2,
            r2,
        );
    }
}

/// Cardinality inference: a non-junction table files, for each of its
/// foreign keys, exactly one inverse relation under the referenced table —
/// a has-one edge when the referencing columns form a unique constraint,
/// a has-many edge otherwise, pointing back at the referencing table.
pub proof fn lemma_inverse_relation_cardinality(
    st: TransformState,
    name: Seq<char>,
    td: TableDefModel,
    k: int,
)
    requires
        !is_junction(td),
        0 <= k < td.foreign_keys.len(),
    ensures
        apply_table(st, name, td).conjunct == st.conjunct,
        bucket_has(
            apply_table(st, name, td).inverse,
            td.foreign_keys[k].ref_table,
            RelationModel {
                rel_type: if fk_unique(td, k) {
                    RelationType::HasOne
                } else {
                    RelationType::HasMany
                },
                ref_table: name,
                columns: seq![],
                ref_columns: seq![],
            },
        ),
    decreases td.foreign_keys.len(),
{
    lemma_inverse_step(st.inverse, name, td, 0, k);
}

/// Within the fold from `i` on, key `k` (at or after `i`) files its edge.
proof fn lemma_inverse_step(
    bs: Seq<RelBucketModel>,
    name: Seq<char>,
    td: TableDefModel,
    i: int,
    k: int,
)
    requires
        0 <= i <= k < td.foreign_keys.len(),
    ensures
        bucket_has(
            add_inverses(bs, name, td, i),
            td.foreign_keys[k].ref_table,
            RelationModel {
                rel_type: if fk_unique(td, k) {
                    RelationType::HasOne
                } else {
                    RelationType::HasMany
                },
                ref_table: name,
                columns: seq![],
                ref_columns: seq![],
            },
        ),
    decreases k - i,
{
    let rel_type = if fk_unique(td, i) {
        RelationType::HasOne
    } else {
        RelationType::HasMany
    };
    let r = RelationModel { rel_type, ref_table: name, columns: seq![], ref_columns: seq![] };
    let filed = attach_rel(bs, td.foreign_keys[i].ref_table, r);
    if i == k {
        lemma_attach_rel_adds(bs, td.foreign_keys[i].ref_table, r);
        lemma_add_inverses_from(filed, name, td, i + 1, td.foreign_keys[k].ref_table, r);
    } else {
        lemma_inverse_step(filed, name, td, i + 1, k);
    }
}

/// Whether some conjunct bucket keyed `key` holds the edge `e`.
pub open spec fn conj_bucket_has(bs: Seq<ConjBucketModel>, key: Seq<char>, e: ConjunctModel) -> bool {
    exists|i: int| 0 <= i < bs.len() && (#[trigger] bs[i]).key == key && bs[i].items.contains(e)
}

/// Whether the model holds an entity for table `name`.
pub open spec fn has_entity_named(es: Seq<EntityOutModel>, name: Seq<char>) -> bool {
    exists|i: int| 0 <= i < es.len() && (#[trigger] es[i]).table_name == name
}

/// Whether the entity for table `name` carries the conjunct edge `e`.
pub open spec fn entity_conj_contains(
    es: Seq<EntityOutModel>,
    name: Seq<char>,
    e: ConjunctModel,
) -> bool {
    exists|i: int|
        0 <= i < es.len() && (#[trigger] es[i]).table_name == name && es[i].conjunct_relations
            .contains(e)
}

/// Where a conjunct-bucket lookup lands, and what a miss means.
proof fn lemma_conj_bucket_index_props(bs: Seq<ConjBucketModel>, key: Seq<char>, i: int)
    requires
        0 <= i,
    ensures
        conj_bucket_index_from(bs, key, i) == -1 ==> forall|j: int|
            i <= j < bs.len() ==> (#[trigger] bs[j]).key != key,
        conj_bucket_index_from(bs, key, i) != -1 ==> i <= conj_bucket_index_from(bs, key, i)
            < bs.len() && bs[conj_bucket_index_from(bs, key, i)].key == key,
    decreases bs.len() - i,
{
    if i < bs.len() && bs[i].key != key {
        lemma_conj_bucket_index_props(bs, key, i + 1);
    }
}

/// Where an entity lookup lands, and what a miss means.
proof fn lemma_entity_index_props(es: Seq<EntityOutModel>, name: Seq<char>, i: int)
    requires
        0 <= i,
    ensures
        entity_index_from(es, name, i) == -1 ==> forall|j: int|
            i <= j < es.len() ==> (#[trigger] es[j]).table_name != name,
        entity_index_from(es, name, i) != -1 ==> i <= entity_index_from(es, name, i) < es.len()
            && es[entity_index_from(es, name, i)].table_name == name,
    decreases es.len() - i,
{
    if i < es.len() && es[i].table_name != name {
        lemma_entity_index_props(es, name, i + 1);
    }
}

/// Filing a conjunct edge makes its bucket hold it.
proof fn lemma_attach_conj_adds(bs: Seq<ConjBucketModel>, key: Seq<char>, e: ConjunctModel)
    ensures
        conj_bucket_has(attach_conj(bs, key, e), key, e),
{
    let i = conj_bucket_index_from(bs, key, 0);
    lemma_conj_bucket_index_props(bs, key, 0);
    let after = attach_conj(bs, key, e);
    if i >= 0 {
        assert(after[i].key == key);
        assert(after[i].items[bs[i].items.len() as int] == e);
        assert(after[i].items.contains(e));
    } else {
        assert(after[bs.len() as int].key == key);
        assert(after[bs.len() as int].items[0] == e);
        assert(after[bs.len() as int].items.contains(e));
    }
}

/// Filing a conjunct edge keeps everything already filed.
proof fn lemma_attach_conj_keeps(
    bs: Seq<ConjBucketModel>,
    key: Seq<char>,
    e: ConjunctModel,
    key2: Seq<char>,
    e2: ConjunctModel,
)
    requires
        conj_bucket_has(bs, key2, e2),
    ensures
        conj_bucket_has(attach_conj(bs, key, e), key2, e2),
{
    let i = conj_bucket_index_from(bs, key, 0);
    lemma_conj_bucket_index_props(bs, key, 0);
    let j = choose|j: int|
        0 <= j < bs.len() && (#[trigger] bs[j]).key == key2 && bs[j].items.contains(e2);
    let after = attach_conj(bs, key, e);
    if i >= 0 && i == j {
        assert(after[j].key == key2);
        let k = choose|k: int| 0 <= k < bs[j].items.len() && bs[j].items[k] == e2;
        assert(after[j].items[k] == e2);
        assert(after[j].items.contains(e2));
    } else {
        assert(after[j] == bs[j]);
    }
}

/// The whole conjunct fold keeps everything already filed.
proof fn lemma_add_conjuncts_keeps(
    bs: Seq<ConjBucketModel>,
    name: Seq<char>,
    td: TableDefModel,
    i: int,
    key2: Seq<char>,
    e2: ConjunctModel,
)
    requires
        conj_bucket_has(bs, key2, e2),
    ensures
        conj_bucket_has(add_conjuncts(bs, name, td, i), key2, e2),
    decreases td.foreign_keys.len() - i,
{
    if 0 <= i < td.foreign_keys.len() {
        let partner: int = if i == 0 {
            1
        } else {
            0
        };
        if partner < td.foreign_keys.len() {
            lemma_attach_conj_keeps(
                bs,
                td.foreign_keys[i].ref_table,
                ConjunctModel { via: name, to: td.foreign_keys[partner].ref_table },
                key2,
                e2,
            );
            lemma_add_conjuncts_keeps(
                attach_conj(
                    bs,
                    td.foreign_keys[i].ref_table,
                    ConjunctModel { via: name, to: td.foreign_keys[partner].ref_table },
                ),
                name,
                td,
                i + 1,
                key2,
                e2,
            );
        } else {
            lemma_add_conjuncts_keeps(bs, name, td, i + 1, key2, e2);
        }
    }
}

/// One scanned table keeps every filed conjunct edge, and keeps (or gains)
/// every recorded entity name; the table's own name is recorded.
proof fn lemma_apply_table_preserves(
    st: TransformState,
    name: Seq<char>,
    td: TableDefModel,
    key: Seq<char>,
    e: ConjunctModel,
    n2: Seq<char>,
)
    ensures
        conj_bucket_has(st.conjunct, key, e) ==> conj_bucket_has(
            apply_table(st, name, td).conjunct,
            key,
            e,
        ),
        has_entity_named(st.entities, n2) ==> has_entity_named(
            apply_table(st, name, td).entities,
            n2,
        ),
        has_entity_named(apply_table(st, name, td).entities, name),
{
    if is_junction(td) && conj_bucket_has(st.conjunct, key, e) {
        lemma_add_conjuncts_keeps(st.conjunct, name, td, 0, key, e);
    }
    let ent = crate::transformer::entity_of(name, td);
    let i = entity_index(st.entities, ent.table_name);
    lemma_entity_index_props(st.entities, ent.table_name, 0);
    let after = upsert_entity(st.entities, ent);
    if i >= 0 {
        assert(after[i].table_name == name);
        if has_entity_named(st.entities, n2) {
            let j = choose|j: int|
                0 <= j < st.entities.len() && (#[trigger] st.entities[j]).table_name == n2;
            if j == i {
                assert(st.entities[i].table_name == name);
                assert(after[i].table_name == n2);
            } else {
                assert(after[j].table_name == n2);
            }
        }
    } else {
        assert(after[st.entities.len() as int].table_name == name);
        if has_entity_named(st.entities, n2) {
            let j = choose|j: int|
                0 <= j < st.entities.len() && (#[trigger] st.entities[j]).table_name == n2;
            assert(after[j].table_name == n2);
        }
    }
}

/// The rest of the scan keeps every filed conjunct edge and every recorded
/// entity name.
proof fn lemma_scan_preserves(
    tables: Seq<TableStmtModel>,
    i: int,
    st: TransformState,
    st2: TransformState,
    key: Seq<char>,
    e: ConjunctModel,
    n2: Seq<char>,
)
    requires
        scan_from(tables, i, st) == Ok::<TransformState, Seq<char>>(st2),
    ensures
        conj_bucket_has(st.conjunct, key, e) ==> conj_bucket_has(st2.conjunct, key, e),
        has_entity_named(st.entities, n2) ==> has_entity_named(st2.entities, n2),
    decreases tables.len() - i,
{
    if 0 <= i < tables.len() {
        match table_step(st, tables[i]) {
            Ok(stn) => {
                match tables[i] {
                    TableStmtModel::Create(td) => {
                        lemma_apply_table_preserves(st, td.name.unwrap(), td, key, e, n2);
                    },
                    TableStmtModel::Other => {
                    },
                }
                lemma_scan_preserves(tables, i + 1, stn, st2, key, e, n2);
            },
            Err(_) => {
            },
        }
    }
}

/// Attaching inverse relations touches neither entity names nor conjunct
/// edges: the merged model keeps, index for index, each entity's name and
/// conjunct relations.
proof fn lemma_merge_inverse_shape(es: Seq<EntityOutModel>, bs: Seq<RelBucketModel>, i: int)
    ensures
        merge_inverse(es, bs, i).len() == es.len(),
        forall|j: int|
            0 <= j < es.len() ==> (#[trigger] merge_inverse(es, bs, i)[j]).table_name
                == es[j].table_name && merge_inverse(es, bs, i)[j].conjunct_relations
                == es[j].conjunct_relations,
    decreases bs.len() - i,
{
    if 0 <= i < bs.len() {
        let ei = entity_index(es, bs[i].key);
        lemma_entity_index_props(es, bs[i].key, 0);
        let es2 = if ei >= 0 {
            es.update(
                ei,
                EntityOutModel { relations: es[ei].relations + bs[i].rels, ..es[ei] },
            )
        } else {
            es
        };
        lemma_merge_inverse_shape(es2, bs, i + 1);
    }
}

/// Once a conjunct bucket holds an edge whose target entity exists, merging
/// delivers the edge onto that entity (merging never removes an edge already
/// attached, and never renames an entity).
proof fn lemma_merge_conjunct_delivers(
    es: Seq<EntityOutModel>,
    bs: Seq<ConjBucketModel>,
    i: int,
    key: Seq<char>,
    e: ConjunctModel,
)
    requires
        0 <= i,
        has_entity_named(es, key),
        (exists|b: int|
            i <= b < bs.len() && (#[trigger] bs[b]).key == key && bs[b].items.contains(e))
            || entity_conj_contains(es, key, e),
    ensures
        entity_conj_contains(merge_conjunct(es, bs, i), key, e),
    decreases bs.len() - i,
{
    if i < 0 || i >= bs.len() {
        assert(entity_conj_contains(es, key, e));
    } else {
        let ei = entity_index(es, bs[i].key);
        lemma_entity_index_props(es, bs[i].key, 0);
        let es2 = if ei >= 0 {
            es.update(
                ei,
                EntityOutModel {
                    conjunct_relations: es[ei].conjunct_relations + bs[i].items,
                    ..es[ei]
                },
            )
        } else {
            es
        };
        // Entity names survive this step.
        assert forall|n: Seq<char>| has_entity_named(es, n) implies has_entity_named(
            es2,
            n,
        ) by {
            let j = choose|j: int|
                0 <= j < es.len() && (#[trigger] es[j]).table_name == n;
            assert(es2[j].table_name == n);
        }
        // An edge already attached survives this step.
        if entity_conj_contains(es, key, e) {
            let j = choose|j: int|
                0 <= j < es.len() && (#[trigger] es[j]).table_name == key && es[j]
                    .conjunct_relations.contains(e);
            let k = choose|k: int|
                0 <= k < es[j].conjunct_relations.len() && es[j].conjunct_relations[k] == e;
            if ei >= 0 && j == ei {
                assert(es2[j].conjunct_relations[k] == e);
                assert(es2[j].conjunct_relations.contains(e));
            } else {
                assert(es2[j] == es[j]);
            }
            assert(entity_conj_contains(es2, key, e));
        }
        // This bucket may be the one carrying the edge.
        if bs[i].key == key && bs[i].items.contains(e) {
            let j = choose|j: int|
                0 <= j < es.len() && (#[trigger] es[j]).table_name == key;
            assert(entity_index(es, bs[i].key) != -1);
            assert(ei >= 0 && es[ei].table_name == key);
            let k = choose|k: int| 0 <= k < bs[i].items.len() && bs[i].items[k] == e;
            assert(es2[ei].conjunct_relations[es[ei].conjunct_relations.len() + k] == e);
            assert(es2[ei].conjunct_relations.contains(e));
            assert(entity_conj_contains(es2, key, e));
        }
        if !(entity_conj_contains(es2, key, e)) {
            assert(exists|b: int|
                i + 1 <= b < bs.len() && (#[trigger] bs[b]).key == key && bs[b].items.contains(
                    e,
                ));
        }
        lemma_merge_conjunct_delivers(es2, bs, i + 1, key, e);
    }
}

/// End to end: a pure junction table in a schema whose transformation
/// succeeds puts its conjunct edges on the output entities, positionally.
/// If some table of the schema is named as the junction's first foreign-key
/// target, that output entity carries the edge reaching the second key's
/// target via the junction; symmetrically for the second key's target.
pub proof fn lemma_junction_reaches_output(
    tables: Seq<TableStmtModel>,
    out: Seq<EntityOutModel>,
    j: int,
    a: int,
)
    requires
        transform_spec(tables) == Ok::<Seq<EntityOutModel>, Seq<char>>(out),
        0 <= j < tables.len(),
        tables[j] is Create,
        tables[j]->Create_0.name is Some,
        is_junction(tables[j]->Create_0),
        tables[j]->Create_0.foreign_keys.len() == 2,
        0 <= a < tables.len(),
        tables[a] is Create,
        tables[a]->Create_0.name == Some(tables[j]->Create_0.foreign_keys[0].ref_table),
    ensures
        entity_conj_contains(
            out,
            tables[j]->Create_0.foreign_keys[0].ref_table,
            ConjunctModel {
                via: tables[j]->Create_0.name.unwrap(),
                to: tables[j]->Create_0.foreign_keys[1].ref_table,
            },
        ),
    decreases tables.len(),
{
    let td = tables[j]->Create_0;
    let name = td.name.unwrap();
    let key = td.foreign_keys[0].ref_table;
    let e = ConjunctModel { via: name, to: td.foreign_keys[1].ref_table };
    let st_scanned = scan_from(tables, 0, crate::transformer::empty_state())->Ok_0;
    // The junction's step files the edge; the scan's prefix reaches that
    // step with some state, and the suffix preserves what it filed.
    lemma_scan_files_edge(tables, 0, crate::transformer::empty_state(), st_scanned, j, key, e);
    // The target table's step records its entity; preserved likewise.
    lemma_scan_records_name(tables, 0, crate::transformer::empty_state(), st_scanned, a, key);
    let merged1 = merge_inverse(st_scanned.entities, st_scanned.inverse, 0);
    lemma_merge_inverse_shape(st_scanned.entities, st_scanned.inverse, 0);
    assert forall|n: Seq<char>| has_entity_named(st_scanned.entities, n) implies has_entity_named(
        merged1,
        n,
    ) by {
        let i = choose|i: int|
            0 <= i < st_scanned.entities.len() && (#[trigger] st_scanned.entities[i]).table_name
                == n;
        assert(merged1[i].table_name == n);
    }
    lemma_merge_conjunct_delivers(merged1, st_scanned.conjunct, 0, key, e);
}

/// A successful scan that passes a junction statement files the junction's
/// first conjunct edge, and the rest of the scan keeps it filed.
proof fn lemma_scan_files_edge(
    tables: Seq<TableStmtModel>,
    i: int,
    st: TransformState,
    st2: TransformState,
    j: int,
    key: Seq<char>,
    e: ConjunctModel,
)
    requires
        scan_from(tables, i, st) == Ok::<TransformState, Seq<char>>(st2),
        i <= j < tables.len(),
        0 <= i,
        tables[j] is Create,
        tables[j]->Create_0.name is Some,
        is_junction(tables[j]->Create_0),
        tables[j]->Create_0.foreign_keys.len() == 2,
        key == tables[j]->Create_0.foreign_keys[0].ref_table,
        e == (ConjunctModel {
            via: tables[j]->Create_0.name.unwrap(),
            to: tables[j]->Create_0.foreign_keys[1].ref_table,
        }),
    ensures
        conj_bucket_has(st2.conjunct, key, e),
    decreases tables.len() - i,
{
    let stn = table_step(st, tables[i])->Ok_0;
    if i == j {
        let td = tables[j]->Create_0;
        let name = td.name.unwrap();
        lemma_junction_edges(st, name, td);
        lemma_attach_conj_adds(st.conjunct, key, e);
        lemma_attach_conj_keeps(
            attach_conj(st.conjunct, key, e),
            td.foreign_keys[1].ref_table,
            ConjunctModel { via: name, to: td.foreign_keys[0].ref_table },
            key,
            e,
        );
        lemma_scan_preserves(tables, i + 1, stn, st2, key, e, key);
    } else {
        lemma_scan_files_edge(tables, i + 1, stn, st2, j, key, e);
    }
}

/// As `lemma_junction_reaches_output`, for the junction's second foreign
/// key: if some table of the schema is named as its target, that output
/// entity carries the edge reaching the first key's target via the junction.
pub proof fn lemma_junction_reaches_output_rev(
    tables: Seq<TableStmtModel>,
    out: Seq<EntityOutModel>,
    j: int,
    a: int,
)
    requires
        transform_spec(tables) == Ok::<Seq<EntityOutModel>, Seq<char>>(out),
        0 <= j < tables.len(),
        tables[j] is Create,
        tables[j]->Create_0.name is Some,
        is_junction(tables[j]->Create_0),
        tables[j]->Create_0.foreign_keys.len() == 2,
        0 <= a < tables.len(),
        tables[a] is Create,
        tables[a]->Create_0.name == Some(tables[j]->Create_0.foreign_keys[1].ref_table),
    ensures
        entity_conj_contains(
            out,
            tables[j]->Create_0.foreign_keys[1].ref_table,
            ConjunctModel {
                via: tables[j]->Create_0.name.unwrap(),
                to: tables[j]->Create_0.foreign_keys[0].ref_table,
            },
        ),
{
    let td = tables[j]->Create_0;
    let name = td.name.unwrap();
    let key = td.foreign_keys[1].ref_table;
    let e = ConjunctModel { via: name, to: td.foreign_keys[0].ref_table };
    let st_scanned = scan_from(tables, 0, crate::transformer::empty_state())->Ok_0;
    lemma_scan_files_edge_rev(tables, 0, crate::transformer::empty_state(), st_scanned, j, key, e);
    lemma_scan_records_name(tables, 0, crate::transformer::empty_state(), st_scanned, a, key);
    let merged1 = merge_inverse(st_scanned.entities, st_scanned.inverse, 0);
    lemma_merge_inverse_shape(st_scanned.entities, st_scanned.inverse, 0);
    assert forall|n: Seq<char>| has_entity_named(st_scanned.entities, n) implies has_entity_named(
        merged1,
        n,
    ) by {
        let i = choose|i: int|
            0 <= i < st_scanned.entities.len() && (#[trigger] st_scanned.entities[i]).table_name
                == n;
        assert(merged1[i].table_name == n);
    }
    lemma_merge_conjunct_delivers(merged1, st_scanned.conjunct, 0, key, e);
}

/// As `lemma_scan_files_edge`, for the junction's second conjunct edge.
proof fn lemma_scan_files_edge_rev(
    tables: Seq<TableStmtModel>,
    i: int,
    st: TransformState,
    st2: TransformState,
    j: int,
    key: Seq<char>,
    e: ConjunctModel,
)
    requires
        scan_from(tables, i, st) == Ok::<TransformState, Seq<char>>(st2),
        i <= j < tables.len(),
        0 <= i,
        tables[j] is Create,
        tables[j]->Create_0.name is Some,
        is_junction(tables[j]->Create_0),
        tables[j]->Create_0.foreign_keys.len() == 2,
        key == tables[j]->Create_0.foreign_keys[1].ref_table,
        e == (ConjunctModel {
            via: tables[j]->Create_0.name.unwrap(),
            to: tables[j]->Create_0.foreign_keys[0].ref_table,
        }),
    ensures
        conj_bucket_has(st2.conjunct, key, e),
    decreases tables.len() - i,
{
    let stn = table_step(st, tables[i])->Ok_0;
    if i == j {
        let td = tables[j]->Create_0;
        let name = td.name.unwrap();
        lemma_junction_edges(st, name, td);
        lemma_attach_conj_adds(
            attach_conj(
                st.conjunct,
                td.foreign_keys[0].ref_table,
                ConjunctModel { via: name, to: td.foreign_keys[1].ref_table },
            ),
            key,
            e,
        );
        lemma_scan_preserves(tables, i + 1, stn, st2, key, e, key);
    } else {
        lemma_scan_files_edge_rev(tables, i + 1, stn, st2, j, key, e);
    }
}

/// A successful scan that passes a named table records its entity, and the
/// rest of the scan keeps an entity under that name.
proof fn lemma_scan_records_name(
    tables: Seq<TableStmtModel>,
    i: int,
    st: TransformState,
    st2: TransformState,
    a: int,
    name: Seq<char>,
)
    requires
        scan_from(tables, i, st) == Ok::<TransformState, Seq<char>>(st2),
        i <= a < tables.len(),
        0 <= i,
        tables[a] is Create,
        tables[a]->Create_0.name == Some(name),
    ensures
        has_entity_named(st2.entities, name),
    decreases tables.len() - i,
{
    let stn = table_step(st, tables[i])->Ok_0;
    if i == a {
        let td = tables[a]->Create_0;
        lemma_apply_table_preserves(
            st,
            name,
            td,
            name,
            ConjunctModel { via: name, to: name },
            name,
        );
        lemma_scan_preserves(
            tables,
            i + 1,
            stn,
            st2,
            name,
            ConjunctModel { via: name, to: name },
            name,
        );
    } else {
        lemma_scan_records_name(tables, i + 1, stn, st2, a, name);
    }
}

/// An INSERT of several records keeps them in input order: the statement's
/// value tuples are, row for row, the records' `Set` values.
pub proof fn lemma_insert_rows_in_input_order(
    m: crate::entity::EntityModel,
    ms: Seq<Seq<ActiveValueModel>>,
)
    requires
        crate::insert::insertable(m.columns, ms),
    ensures
        crate::insert::spec_insert(m, ms).rows.len() == ms.len(),
        forall|k: int|
            0 <= k < ms.len() ==> #[trigger] crate::insert::spec_insert(m, ms).rows[k]
                == set_values(ms[k]),
{
}

} // verus!
