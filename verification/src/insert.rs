//! The INSERT statement builder.
//!
//! An insert is assembled from one or more records' write intents: the column
//! list holds exactly the columns the first record supplies (`Set`), in the
//! entity's declared column order; `Unset` columns never appear.  Each record
//! becomes one value tuple, in input order.

use vstd::prelude::*;
use crate::active_model::{ActiveModel, ActiveValueModel, ActiveValueState};
use crate::entity::{ColumnDefModel, EntityDef};
use crate::error::{DbErr, DbErrModel};
use crate::value::{DbValue, ValueModel};
use crate::views::{am_models, row_models, string_views, value_models};

verus! {

/// The names of the columns a record supplies, in declared column order.
pub open spec fn set_column_names(
    cols: Seq<ColumnDefModel>,
    m: Seq<ActiveValueModel>,
) -> Seq<Seq<char>>
    decreases cols.len(),
{
    if cols.len() == 0 || m.len() == 0 {
        seq![]
    } else {
        set_column_names(cols.drop_last(), m.drop_last()) + if m.last().state
            == ActiveValueState::Assigned {
            seq![cols.last().name]
        } else {
            seq![]
        }
    }
}

/// The values a record supplies, in declared column order.
pub open spec fn set_values(m: Seq<ActiveValueModel>) -> Seq<ValueModel>
    decreases m.len(),
{
    if m.len() == 0 {
        seq![]
    } else {
        set_values(m.drop_last()) + if m.last().state == ActiveValueState::Assigned {
            seq![m.last().value]
        } else {
            seq![]
        }
    }
}

/// Two records supply values for exactly the same columns.
pub open spec fn same_pattern(a: Seq<ActiveValueModel>, b: Seq<ActiveValueModel>) -> bool {
    &&& a.len() == b.len()
    &&& forall|i: int|
        0 <= i < a.len() ==> ((#[trigger] a[i].state == ActiveValueState::Assigned) <==> (
        #[trigger] b[i].state == ActiveValueState::Assigned))
}

/// Whether `insert` accepts these records for this column list: there is at
/// least one record, each is as wide as the entity, and all supply the same
/// columns.
pub open spec fn insertable(cols: Seq<ColumnDefModel>, ms: Seq<Seq<ActiveValueModel>>) -> bool {
    &&& ms.len() > 0
    &&& forall|k: int| 0 <= k < ms.len() ==> (#[trigger] ms[k]).len() == cols.len()
    &&& forall|k: int| 0 <= k < ms.len() ==> same_pattern(ms[0], #[trigger] ms[k])
}

/// Mathematical picture of an INSERT statement.
#[verifier::ext_equal]
pub ghost struct InsertModel {
    pub table: Seq<char>,
    pub columns: Seq<Seq<char>>,
    pub rows: Seq<Seq<ValueModel>>,
}

/// A statement with no table, columns or rows.
pub open spec fn empty_insert_model() -> InsertModel {
    InsertModel { table: seq![], columns: seq![], rows: seq![] }
}

/// What `insert` builds from accepted records.
pub open spec fn spec_insert(
    m: crate::entity::EntityModel,
    ms: Seq<Seq<ActiveValueModel>>,
) -> InsertModel {
    InsertModel {
        table: m.table,
        columns: set_column_names(m.columns, ms[0]),
        rows: Seq::new(ms.len(), |k: int| set_values(ms[k])),
    }
}

/// An INSERT statement under construction.
#[derive(Debug)]
pub struct Insert {
    pub table: String,
    pub columns: Vec<String>,
    pub rows: Vec<Vec<DbValue>>,
}

impl View for Insert {
    type V = InsertModel;

    open spec fn view(&self) -> InsertModel {
        InsertModel {
            table: self.table@,
            columns: string_views(self.columns@),
            rows: row_models(self.rows@),
        }
    }
}

impl EntityDef {
    /// Build an INSERT from one or more records.  The column list is exactly
    /// the columns the first record supplies, in declared order; every record
    /// becomes one value tuple, in input order.  Records that are missing,
    /// too narrow or wide, or that supply different columns are rejected —
    /// never silently truncated, padded or merged.
    #[verifier::loop_isolation(false)]
    pub fn insert(&self, models: &Vec<ActiveModel>) -> (r: Result<Insert, DbErr>)
        ensures
            r is Ok <==> insertable(self@.columns, am_models(models@)),
            r matches Ok(ins) ==> ins@ == spec_insert(self@, am_models(models@)),
            r matches Err(e) ==> e@ == insert_error(self@.columns, am_models(models@)),
    {
        broadcast use crate::views::group_model_views;

        let ghost cm = self@.columns;
        let ghost ms = am_models(models@);
        let n_models = models.len();
        let n_cols = self.columns.len();
        if n_models == 0 {
            return Err(DbErr::Query("nothing to insert".to_owned()));
        }
        for k in 0..n_models
            invariant
                n_models == models@.len(),
                n_cols == self@.columns.len(),
                ms == am_models(models@),
                forall|j: int| 0 <= j < k ==> (#[trigger] ms[j]).len() == n_cols,
        {
            if models[k].values.len() != n_cols {
                proof {
                    assert(ms[k as int].len() != cm.len());
                    assert(!insertable(cm, ms));
                }
                return Err(DbErr::Query("active model does not match the entity's columns".to_owned()));
            }
        }
        for k in 0..n_models
            invariant
                n_models == models@.len(),
                n_cols == self@.columns.len(),
                ms == am_models(models@),
                forall|j: int| 0 <= j < n_models ==> (#[trigger] ms[j]).len() == n_cols,
                forall|j: int| 0 <= j < k ==> same_pattern(ms[0], #[trigger] ms[j]),
        {
            for i in 0..n_cols
                invariant
                    n_models == models@.len(),
                    n_cols == self@.columns.len(),
                    ms == am_models(models@),
                    k < n_models,
                    forall|j: int| 0 <= j < n_models ==> (#[trigger] ms[j]).len() == n_cols,
                    forall|j: int|
                        0 <= j < i ==> ((#[trigger] ms[0][j].state == ActiveValueState::Assigned)
                            <==> (#[trigger] ms[k as int][j].state == ActiveValueState::Assigned)),
            {
                if models[0].values[i].is_set() != models[k].values[i].is_set() {
                    proof {
                        assert(!(ms[0][i as int].state == ActiveValueState::Assigned
                            <==> ms[k as int][i as int].state == ActiveValueState::Assigned));
                        assert(!same_pattern(ms[0], ms[k as int]));
                        assert(!insertable(cm, ms));
                        assert(forall|j: int|
                            0 <= j < ms.len() ==> (#[trigger] ms[j]).len() == cm.len());
                    }
                    return Err(DbErr::Query("insert models must set the same columns".to_owned()));
                }
            }
            proof {
                assert(same_pattern(ms[0], ms[k as int]));
            }
        }
        let mut columns: Vec<String> = Vec::new();
        for i in 0..n_cols
            invariant
                n_cols == self@.columns.len(),
                n_models == models@.len(),
                n_models > 0,
                ms == am_models(models@),
                ms[0].len() == n_cols,
                string_views(columns@) =~= set_column_names(cm.take(i as int), ms[0].take(i as int)),
                cm == self@.columns,
        {
            if models[0].values[i].is_set() {
                columns.push(self.columns[i].name.clone());
            }
            proof {
                assert(cm.take(i + 1).drop_last() =~= cm.take(i as int));
                assert(ms[0].take(i + 1).drop_last() =~= ms[0].take(i as int));
                assert(string_views(columns@) =~= set_column_names(
                    cm.take(i + 1),
                    ms[0].take(i + 1),
                ));
            }
        }
        proof {
            assert(cm.take(n_cols as int) =~= cm);
            assert(ms[0].take(n_cols as int) =~= ms[0]);
        }
        let mut rows: Vec<Vec<DbValue>> = Vec::new();
        for k in 0..n_models
            invariant
                n_cols == self@.columns.len(),
                n_models == models@.len(),
                ms == am_models(models@),
                forall|j: int| 0 <= j < n_models ==> (#[trigger] ms[j]).len() == n_cols,
                rows@.len() == k,
                forall|j: int|
                    0 <= j < k ==> value_models((#[trigger] rows@[j])@) == set_values(ms[j]),
        {
            let mut row: Vec<DbValue> = Vec::new();
            for i in 0..n_cols
                invariant
                    n_cols == self@.columns.len(),
                    n_models == models@.len(),
                    ms == am_models(models@),
                    k < n_models,
                    ms[k as int].len() == n_cols,
                    value_models(row@) =~= set_values(ms[k as int].take(i as int)),
            {
                if models[k].values[i].is_set() {
                    row.push(models[k].get(i).unwrap());
                }
                proof {
                    assert(ms[k as int].take(i + 1).drop_last() =~= ms[k as int].take(i as int));
                    assert(value_models(row@) =~= set_values(ms[k as int].take(i + 1)));
                }
            }
            proof {
                assert(ms[k as int].take(n_cols as int) =~= ms[k as int]);
            }
            rows.push(row);
        }
        let ins = Insert { table: self.table_name.clone(), columns, rows };
        proof {
            assert(ins@.rows =~= spec_insert(self@, ms).rows);
            assert(ins@ =~= spec_insert(self@, ms));
        }
        Ok(ins)
    }
}

/// Which error `insert` reports: the first check that fails, in the order the
/// checks run — no records, then a record of the wrong width, then records
/// that supply different columns.
pub open spec fn insert_error(
    cols: Seq<ColumnDefModel>,
    ms: Seq<Seq<ActiveValueModel>>,
) -> DbErrModel {
    if ms.len() == 0 {
        DbErrModel::Query("nothing to insert"@)
    } else if exists|k: int| 0 <= k < ms.len() && (#[trigger] ms[k]).len() != cols.len() {
        DbErrModel::Query("active model does not match the entity's columns"@)
    } else {
        DbErrModel::Query("insert models must set the same columns"@)
    }
}

} // verus!
