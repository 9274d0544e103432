//! Entity descriptors: schema metadata for one table.
//!
//! An entity is defined once — hand-authored or synthesized by the schema
//! transformer — and immutable thereafter; query builders only read it.

use vstd::prelude::*;
use crate::error::{DbErr, DbErrModel};
use crate::expr::{ColumnRef, ColumnRefModel, CompareOp, ExprModel};
use crate::relation::{RelationBuilder, RelationType};
use crate::select::{ProjectionModel, Select, SelectModel};
use crate::value::{DbValue, ValueModel};
use crate::views::{column_models, string_views};

verus! {

/// SQL type descriptors for columns.
#[derive(Clone, Copy, Debug, PartialEq, Eq, Structural)]
pub enum ColumnType {
    Integer,
    BigInteger,
    Text,
    Boolean,
}

/// One table attribute: name, type, nullability and uniqueness.
#[derive(Debug)]
pub struct ColumnDef {
    pub name: String,
    pub col_type: ColumnType,
    pub not_null: bool,
    pub unique: bool,
}

/// Mathematical picture of a column definition.
#[verifier::ext_equal]
pub ghost struct ColumnDefModel {
    pub name: Seq<char>,
    pub col_type: ColumnType,
    pub not_null: bool,
    pub unique: bool,
}

impl View for ColumnDef {
    type V = ColumnDefModel;

    open spec fn view(&self) -> ColumnDefModel {
        ColumnDefModel {
            name: self.name@,
            col_type: self.col_type,
            not_null: self.not_null,
            unique: self.unique,
        }
    }
}

impl Clone for ColumnDef {
    fn clone(&self) -> (r: Self)
        ensures
            r@ == self@,
    {
        ColumnDef {
            name: self.name.clone(),
            col_type: self.col_type,
            not_null: self.not_null,
            unique: self.unique,
        }
    }
}


/// A table: its name, ordered columns, and primary-key members (named in
/// declared order).
#[derive(Debug)]
pub struct EntityDef {
    pub table_name: String,
    pub columns: Vec<ColumnDef>,
    pub primary_keys: Vec<String>,
}

/// Mathematical picture of an entity.
#[verifier::ext_equal]
pub ghost struct EntityModel {
    pub table: Seq<char>,
    pub columns: Seq<ColumnDefModel>,
    pub primary_keys: Seq<Seq<char>>,
}

impl View for EntityDef {
    type V = EntityModel;

    open spec fn view(&self) -> EntityModel {
        EntityModel {
            table: self.table_name@,
            columns: column_models(self.columns@),
            primary_keys: string_views(self.primary_keys@),
        }
    }
}

impl EntityModel {
    /// A persistable entity is well formed: it has columns and a primary key,
    /// every primary-key member names a column, and column names are unique
    /// within the entity.
    pub open spec fn wf(&self) -> bool {
        &&& self.columns.len() > 0
        &&& self.primary_keys.len() > 0
        &&& forall|k: int|
            0 <= k < self.primary_keys.len() ==> exists|i: int|
                0 <= i < self.columns.len() && #[trigger] self.columns[i].name == #[trigger] self
                    .primary_keys[k]
        &&& forall|i: int, j: int|
            0 <= i < j < self.columns.len() ==> #[trigger] self.columns[i].name
                != #[trigger] self.columns[j].name
    }
}

/// The index of the first column at or after `i` named `name`, or `-1`.
pub open spec fn col_index_from(cols: Seq<ColumnDefModel>, name: Seq<char>, i: int) -> int
    decreases cols.len() - i,
{
    if i < 0 || i >= cols.len() {
        -1
    } else if cols[i].name == name {
        i
    } else {
        col_index_from(cols, name, i + 1)
    }
}

/// The index of the first column named `name`, or `-1` when none is.
pub open spec fn col_index(cols: Seq<ColumnDefModel>, name: Seq<char>) -> int {
    col_index_from(cols, name, 0)
}

/// Where `col_index_from` lands: either nothing matches from `i` on, or the
/// first match, with nothing matching before it.
pub proof fn lemma_col_index_from_props(cols: Seq<ColumnDefModel>, name: Seq<char>, i: int)
    requires
        0 <= i,
    ensures
        col_index_from(cols, name, i) == -1 ==> forall|j: int|
            i <= j < cols.len() ==> (#[trigger] cols[j]).name != name,
        col_index_from(cols, name, i) != -1 ==> i <= col_index_from(cols, name, i) < cols.len()
            && cols[col_index_from(cols, name, i)].name == name,
    decreases cols.len() - i,
{
    if i < cols.len() && cols[i].name != name {
        lemma_col_index_from_props(cols, name, i + 1);
    }
}

/// The default projection of an entity: every declared column in order,
/// qualified by the entity's table.
pub open spec fn default_projections(m: EntityModel) -> Seq<ProjectionModel> {
    Seq::new(
        m.columns.len(),
        |i: int|
            ProjectionModel {
                expr: ExprModel::Column(ColumnRefModel { table: m.table, name: m.columns[i].name }),
                alias: None,
            },
    )
}

/// What `find` returns: an otherwise empty SELECT over the entity's table
/// with all declared columns pre-projected.
pub open spec fn spec_find(m: EntityModel) -> SelectModel {
    SelectModel {
        from: m.table,
        projections: default_projections(m),
        joins: seq![],
        conds: seq![],
        group_bys: seq![],
        orders: seq![],
    }
}

/// What `find_by` returns: `find`, plus one equality filter per primary-key
/// member, in declared key order.
pub open spec fn spec_find_by(m: EntityModel, vals: Seq<ValueModel>) -> SelectModel {
    SelectModel {
        conds: Seq::new(
            m.primary_keys.len(),
            |i: int|
                ExprModel::Binary {
                    col: ColumnRefModel { table: m.table, name: m.primary_keys[i] },
                    op: CompareOp::Eq,
                    value: vals[i],
                },
        ),
        ..spec_find(m)
    }
}

impl EntityDef {
    /// A qualified reference to the `i`-th declared column.
    pub fn column_ref(&self, i: usize) -> (r: ColumnRef)
        requires
            i < self@.columns.len(),
        ensures
            r@ == (ColumnRefModel { table: self@.table, name: self@.columns[i as int].name }),
    {
        ColumnRef { table: self.table_name.clone(), name: self.columns[i].name.clone() }
    }

    /// Start a has-one relation towards `target`; the caller supplies the key
    /// columns with `from` and `to`.
    pub fn has_one(&self, target: &EntityDef) -> (r: RelationBuilder)
        ensures
            r.spec_rel_type() == RelationType::HasOne,
            r.spec_from_tbl() == self@.table,
            r.spec_to_tbl() == target@.table,
            r.spec_from_col() is None,
            r.spec_to_col() is None,
    {
        RelationBuilder::new(RelationType::HasOne, self.table_name.clone(), target.table_name.clone())
    }

    /// Start a has-many relation towards `target`.
    pub fn has_many(&self, target: &EntityDef) -> (r: RelationBuilder)
        ensures
            r.spec_rel_type() == RelationType::HasMany,
            r.spec_from_tbl() == self@.table,
            r.spec_to_tbl() == target@.table,
            r.spec_from_col() is None,
            r.spec_to_col() is None,
    {
        RelationBuilder::new(RelationType::HasMany, self.table_name.clone(), target.table_name.clone())
    }

    /// An empty SELECT scoped to this entity, with all declared columns
    /// pre-projected.
    pub fn find(&self) -> (r: Select)
        ensures
            r@ == spec_find(self@),
    {
        broadcast use crate::views::group_model_views;
        let mut projections: Vec<crate::select::Projection> = Vec::new();
        let n = self.columns.len();
        for i in 0..n
            invariant
                n == self.columns.len(),
                crate::views::proj_models(projections@) =~= default_projections(
                    self@,
                ).take(i as int),
        {
            proof {
                assert(crate::views::proj_models(projections@).len() == projections@.len());
                assert(default_projections(self@).len() == n);
                assert(projections@.len() == i);
            }
            projections.push(
                crate::select::Projection {
                    expr: crate::expr::SimpleExpr::Column(self.column_ref(i)),
                    alias: None,
                },
            );
            proof {
                assert(projections@.len() == i + 1);
                assert(crate::views::proj_models(projections@)[i as int]
                    == default_projections(self@)[i as int]);
                assert(crate::views::proj_models(projections@) =~= default_projections(
                    self@,
                ).take(i + 1));
            }
        }
        let r = Select {
            from_table: self.table_name.clone(),
            projections,
            joins: Vec::new(),
            conds: Vec::new(),
            group_bys: Vec::new(),
            orders: Vec::new(),
        };
        proof {
            assert(default_projections(self@).take(n as int) =~= default_projections(self@));
            assert(r@.projections =~= spec_find(self@).projections);
            assert(r@.joins =~= spec_find(self@).joins);
            assert(r@.conds =~= spec_find(self@).conds);
            assert(r@.group_bys =~= spec_find(self@).group_bys);
            assert(r@.orders =~= spec_find(self@).orders);
        }
        r
    }

    /// The position of the column named `name`, if the entity has one.
    #[verifier::loop_isolation(false)]
    pub fn position_of(&self, name: &String) -> (r: Option<usize>)
        ensures
            r is Some <==> col_index(self@.columns, name@) >= 0,
            r matches Some(i) ==> i as int == col_index(self@.columns, name@),
    {
        broadcast use crate::views::group_model_views;

        let n = self.columns.len();
        for i in 0..n
            invariant
                col_index(self@.columns, name@) == col_index_from(
                    self@.columns,
                    name@,
                    i as int,
                ),
        {
            if self.columns[i].name == *name {
                return Some(i);
            }
        }
        None
    }

    /// Whether `name` is one of the entity's primary-key members.
    #[verifier::loop_isolation(false)]
    pub fn primary_key_contains(&self, name: &String) -> (r: bool)
        ensures
            r == self@.primary_keys.contains(name@),
    {
        broadcast use crate::views::group_model_views;

        let n = self.primary_keys.len();
        for k in 0..n
            invariant
                forall|j: int| 0 <= j < k ==> (#[trigger] self@.primary_keys[j]) != name@,
        {
            if self.primary_keys[k] == *name {
                proof {
                    assert(self@.primary_keys[k as int] == name@);
                }
                return true;
            }
        }
        proof {
            assert(!self@.primary_keys.contains(name@));
        }
        false
    }

    /// `find`, seeded with one equality filter per primary-key column, in
    /// declared order.  A value tuple whose arity differs from the primary
    /// key's is a usage error: construction fails, values are never silently
    /// truncated or padded.
    pub fn find_by(&self, values: &Vec<DbValue>) -> (r: Result<Select, DbErr>)
        ensures
            r is Ok <==> values@.len() == self@.primary_keys.len(),
            r matches Ok(sel) ==> sel@ == spec_find_by(
                self@,
                crate::views::value_models(values@),
            ),
            r matches Err(e) ==> e@ == DbErrModel::Query("primary key arity mismatch"@),
    {
        broadcast use crate::views::group_model_views;
        if values.len() != self.primary_keys.len() {
            return Err(DbErr::Query("primary key arity mismatch".to_owned()));
        }
        let ghost vals = crate::views::value_models(values@);
        let mut select = self.find();
        let n = self.primary_keys.len();
        for i in 0..n
            invariant
                n == self.primary_keys.len(),
                values@.len() == n,
                vals == crate::views::value_models(values@),
                select@ == (SelectModel {
                    conds: spec_find_by(self@, vals).conds.take(i as int),
                    ..spec_find(self@)
                }),
        {
            let col = ColumnRef {
                table: self.table_name.clone(),
                name: self.primary_keys[i].clone(),
            };
            select = select.filter(col.eq(values[i].clone()));
            proof {
                broadcast use crate::views::group_model_views;
                assert(select@.conds =~= spec_find_by(self@, vals).conds.take(i + 1));
            }
        }
        proof {
            assert(spec_find_by(self@, vals).conds.take(n as int) =~= spec_find_by(
                self@,
                vals,
            ).conds);
            assert(select@ =~= spec_find_by(self@, vals));
        }
        Ok(select)
    }
}

} // verus!
