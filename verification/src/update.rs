//! The UPDATE statement builder and the update executor's decision logic.
//!
//! `Update::one` targets a single record: its `Set` columns become the SET
//! clauses and its primary-key values the WHERE filters, and execution
//! demands that at least one row was affected.  `Update::many` is an open
//! update: clauses are accumulated explicitly and zero affected rows is an
//! ordinary outcome.  The driver's execution summary is handed back in as a
//! plain event; deciding what it means happens here, verified.

use vstd::prelude::*;
use crate::active_model::{ActiveModel, ActiveValueModel, ActiveValueState};
use crate::entity::{col_index, ColumnDefModel, EntityDef, EntityModel};
use crate::error::{DbErr, DbErrModel};
use crate::expr::{ColumnRef, ColumnRefModel, CompareOp, ExprModel, SimpleExpr};
use crate::statement::ExecResult;
use crate::value::{DbValue, ValueModel};
use crate::views::{expr_models, set_clause_models};

verus! {

/// One SET clause: a column and the value written to it.
#[derive(Debug)]
pub struct SetClause {
    pub col: String,
    pub value: DbValue,
}

/// Mathematical picture of a SET clause.
#[verifier::ext_equal]
pub ghost struct SetClauseModel {
    pub col: Seq<char>,
    pub value: ValueModel,
}

impl View for SetClause {
    type V = SetClauseModel;

    open spec fn view(&self) -> SetClauseModel {
        SetClauseModel { col: self.col@, value: self.value@ }
    }
}

/// Mathematical picture of an UPDATE statement.
#[verifier::ext_equal]
pub ghost struct UpdateModel {
    pub table: Seq<char>,
    pub sets: Seq<SetClauseModel>,
    pub conds: Seq<ExprModel>,
}

/// An UPDATE statement under construction.
#[derive(Debug)]
pub struct UpdateQuery {
    pub table: String,
    pub sets: Vec<SetClause>,
    pub conds: Vec<SimpleExpr>,
}

impl View for UpdateQuery {
    type V = UpdateModel;

    open spec fn view(&self) -> UpdateModel {
        UpdateModel {
            table: self.table@,
            sets: set_clause_models(self.sets@),
            conds: expr_models(self.conds@),
        }
    }
}

/// Whether `Update::one` accepts this record for this entity: the record is
/// as wide as the entity, every primary-key member names a column, and every
/// primary-key column carries a value (a record cannot be addressed by an
/// absent key).
pub open spec fn update_one_ok(m: EntityModel, am: Seq<ActiveValueModel>) -> bool {
    &&& am.len() == m.columns.len()
    &&& forall|k: int|
        0 <= k < m.primary_keys.len() ==> col_index(m.columns, #[trigger] m.primary_keys[k]) >= 0
    &&& forall|k: int|
        0 <= k < m.primary_keys.len() ==> am[col_index(
            m.columns,
            #[trigger] m.primary_keys[k],
        )].state != ActiveValueState::Unset
}

/// A statement with no table, SET clauses or filters.
pub open spec fn empty_update_model() -> UpdateModel {
    UpdateModel { table: seq![], sets: seq![], conds: seq![] }
}

/// The SET clauses a record yields: its `Set` columns, in declared column
/// order, leaving the primary-key columns out.
pub open spec fn update_sets(
    cols: Seq<ColumnDefModel>,
    pks: Seq<Seq<char>>,
    am: Seq<ActiveValueModel>,
) -> Seq<SetClauseModel>
    decreases cols.len(),
{
    if cols.len() == 0 || am.len() == 0 {
        seq![]
    } else {
        update_sets(cols.drop_last(), pks, am.drop_last()) + if am.last().state
            == ActiveValueState::Assigned && !pks.contains(cols.last().name) {
            seq![SetClauseModel { col: cols.last().name, value: am.last().value }]
        } else {
            seq![]
        }
    }
}

/// What `Update::one` builds: SET for the record's non-key `Set` columns,
/// WHERE equality on each primary-key column, in declared key order.
pub open spec fn spec_update_one(m: EntityModel, am: Seq<ActiveValueModel>) -> UpdateModel {
    UpdateModel {
        table: m.table,
        sets: update_sets(m.columns, m.primary_keys, am),
        conds: Seq::new(
            m.primary_keys.len(),
            |k: int|
                ExprModel::Binary {
                    col: ColumnRefModel { table: m.table, name: m.primary_keys[k] },
                    op: CompareOp::Eq,
                    value: am[col_index(m.columns, m.primary_keys[k])].value,
                },
        ),
    }
}

/// An update addressed to one record, driven by its write intents.
#[derive(Debug)]
pub struct UpdateOne {
    pub query: UpdateQuery,
    pub model: ActiveModel,
}

/// An open update over an entity's table.
#[derive(Debug)]
pub struct UpdateMany {
    pub query: UpdateQuery,
}

/// Entry points for building updates.
#[derive(Debug)]
pub struct Update;

impl Update {
    /// Address one record: SET each non-key `Set` column, WHERE each
    /// primary-key column equals the record's value for it.  A record that is
    /// the wrong width or whose key values are absent is rejected.
    #[verifier::loop_isolation(false)]
    pub fn one(entity: &EntityDef, model: &ActiveModel) -> (r: Result<UpdateOne, DbErr>)
        ensures
            r is Ok <==> update_one_ok(entity@, model@),
            r matches Ok(u) ==> u.query@ == spec_update_one(entity@, model@) && u.model@
                == model@,
            r matches Err(e) ==> e@ == update_one_error(entity@, model@),
    {
        broadcast use crate::views::group_model_views;

        let ghost em = entity@;
        let ghost am = model@;
        let n_cols = entity.columns.len();
        let n_pks = entity.primary_keys.len();
        if model.values.len() != n_cols {
            return Err(DbErr::Query("active model does not match the entity's columns".to_owned()));
        }
        // WHERE: one equality per primary-key member, in declared key order.
        let mut conds: Vec<SimpleExpr> = Vec::new();
        for k in 0..n_pks
            invariant
                conds@.len() == k,
                first_bad_pk(em, am) == first_bad_pk_from(em, am, k as int),
                forall|j: int|
                    0 <= j < k ==> col_index(em.columns, #[trigger] em.primary_keys[j]) >= 0,
                forall|j: int|
                    0 <= j < k ==> (#[trigger] am[col_index(em.columns, em.primary_keys[j])]).state
                        != ActiveValueState::Unset,
                forall|j: int|
                    0 <= j < k ==> (#[trigger] expr_models(conds@)[j]) == spec_update_one(
                        em,
                        am,
                    ).conds[j],
        {
            let pk_name = &entity.primary_keys[k];
            proof {
                crate::entity::lemma_col_index_from_props(em.columns, em.primary_keys[k as int], 0);
            }
            match entity.position_of(pk_name) {
                Some(ci) => {
                    let av = model.get(ci);
                    if av.is_unset() {
                        proof {
                            assert(am[col_index(em.columns, em.primary_keys[k as int])].state
                                == ActiveValueState::Unset);
                            assert(!update_one_ok(em, am));
                            assert(first_bad_pk(em, am) == k);
                        }
                        return Err(
                            DbErr::Query("a primary key value is required to address the record".to_owned()),
                        );
                    }
                    let col = ColumnRef { table: entity.table_name.clone(), name: pk_name.clone() };
                    let ghost conds_before = conds@;
                    conds.push(col.eq(av.unwrap()));
                    proof {
                        assert forall|j: int|
                            0 <= j < k + 1 implies (#[trigger] expr_models(conds@)[j])
                            == spec_update_one(em, am).conds[j] by {
                            if j < k {
                                assert(expr_models(conds@)[j] == conds@[j]@);
                                assert(conds@[j] == conds_before[j]);
                                assert(expr_models(conds_before)[j] == conds_before[j]@);
                            } else {
                                assert(expr_models(conds@)[j] == conds@[j]@);
                            }
                        }
                    }
                },
                None => {
                    proof {
                        assert(col_index(em.columns, em.primary_keys[k as int]) < 0);
                        assert(!update_one_ok(em, am));
                        assert(first_bad_pk(em, am) == k);
                    }
                    return Err(
                        DbErr::Query("a primary key member does not name a column".to_owned()),
                    );
                },
            }
        }
        // SET: the non-key columns the record supplies, in column order.
        let mut sets: Vec<SetClause> = Vec::new();
        for i in 0..n_cols
            invariant
                set_clause_models(sets@) =~= update_sets(
                    em.columns.take(i as int),
                    em.primary_keys,
                    am.take(i as int),
                ),
        {
            let av = model.get(i);
            if av.is_set() && !entity.primary_key_contains(&entity.columns[i].name) {
                sets.push(SetClause { col: entity.columns[i].name.clone(), value: av.unwrap() });
            }
            proof {
                assert(em.columns.take(i + 1).drop_last() =~= em.columns.take(i as int));
                assert(am.take(i + 1).drop_last() =~= am.take(i as int));
                assert(set_clause_models(sets@) =~= update_sets(
                    em.columns.take(i + 1),
                    em.primary_keys,
                    am.take(i + 1),
                ));
            }
        }
        proof {
            assert(em.columns.take(n_cols as int) =~= em.columns);
            assert(am.take(n_cols as int) =~= am);
        }
        let query = UpdateQuery { table: entity.table_name.clone(), sets, conds };
        proof {
            assert(query@.conds =~= spec_update_one(em, am).conds);
            assert(query@ =~= spec_update_one(em, am));
        }
        Ok(UpdateOne { query, model: model.clone() })
    }

    /// An open update over the entity's table, with no clauses yet.
    pub fn many(entity: &EntityDef) -> (r: UpdateMany)
        ensures
            r.query@ == (UpdateModel { table: entity@.table, sets: seq![], conds: seq![] }),
    {
        let query = UpdateQuery { table: entity.table_name.clone(), sets: Vec::new(), conds: Vec::new() };
        proof {
            assert(query@ =~= (UpdateModel { table: entity@.table, sets: seq![], conds: seq![] }));
        }
        UpdateMany { query }
    }
}

/// Which error `Update::one` reports: the first check that fails, in the
/// order the checks run; for the primary key, the first member that is
/// missing or valueless decides.
pub open spec fn update_one_error(m: EntityModel, am: Seq<ActiveValueModel>) -> DbErrModel {
    if am.len() != m.columns.len() {
        DbErrModel::Query("active model does not match the entity's columns"@)
    } else if col_index(m.columns, m.primary_keys[first_bad_pk(m, am)]) < 0 {
        DbErrModel::Query("a primary key member does not name a column"@)
    } else {
        DbErrModel::Query("a primary key value is required to address the record"@)
    }
}

/// The first primary-key member whose column is missing or whose value is
/// absent (the key length when none is).
pub open spec fn first_bad_pk(m: EntityModel, am: Seq<ActiveValueModel>) -> int
    decreases m.primary_keys.len(),
{
    first_bad_pk_from(m, am, 0)
}

pub open spec fn first_bad_pk_from(m: EntityModel, am: Seq<ActiveValueModel>, k: int) -> int
    decreases m.primary_keys.len() - k,
{
    if k < 0 || k >= m.primary_keys.len() {
        m.primary_keys.len() as int
    } else if col_index(m.columns, m.primary_keys[k]) < 0 || am[col_index(
        m.columns,
        m.primary_keys[k],
    )].state == ActiveValueState::Unset {
        k
    } else {
        first_bad_pk_from(m, am, k + 1)
    }
}

impl UpdateMany {
    /// SET a column to a value; repeated calls accumulate in call order.
    pub fn col_expr(self, col: &ColumnRef, v: DbValue) -> (r: Self)
        ensures
            r.query@ == (UpdateModel {
                sets: self.query@.sets.push(SetClauseModel { col: col@.name, value: v@ }),
                ..self.query@
            }),
    {
        broadcast use crate::views::group_model_views;

        let ghost before = self.query@;
        let ghost vm = v@;
        let mut s = self;
        s.query.sets.push(SetClause { col: col.name.clone(), value: v });
        proof {
            assert(s.query@.sets =~= before.sets.push(
                SetClauseModel { col: col@.name, value: vm },
            ));
        }
        s
    }

    /// Conjoin (AND) a filter; repeated calls accumulate, never replace.
    pub fn filter(self, expr: SimpleExpr) -> (r: Self)
        ensures
            r.query@ == (UpdateModel {
                conds: self.query@.conds.push(expr@),
                ..self.query@
            }),
    {
        broadcast use crate::views::group_model_views;

        let ghost before = self.query@;
        let ghost em = expr@;
        let mut s = self;
        s.query.conds.push(expr);
        proof {
            assert(s.query@.conds =~= before.conds.push(em));
        }
        s
    }
}

/// What executing an update yields.
#[derive(Debug, Clone, Copy)]
pub struct UpdateResult {
    pub rows_affected: u64,
}

impl PartialEq for UpdateResult {
    fn eq(&self, other: &Self) -> (r: bool)
    {
        self.rows_affected == other.rows_affected
    }
}

impl vstd::std_specs::cmp::PartialEqSpecImpl for UpdateResult {
    open spec fn obeys_eq_spec() -> bool {
        true
    }

    open spec fn eq_spec(&self, other: &Self) -> bool {
        self.rows_affected == other.rows_affected
    }
}

impl Eq for UpdateResult {}

/// Drives update statements: holds the statement and whether the caller
/// demands that a row was touched.
#[derive(Debug)]
pub struct Updater {
    pub query: UpdateQuery,
    pub check_record_exists: bool,
}

/// What an update's outcome means: with the "must affect a row" mode on,
/// zero affected rows is a `RecordNotFound` error; otherwise, and in every
/// other case, the affected-row count is reported as-is.
pub open spec fn spec_update_outcome(check_record_exists: bool, rows_affected: u64) -> Result<
    UpdateResult,
    DbErrModel,
> {
    if check_record_exists && rows_affected == 0 {
        Err(DbErrModel::RecordNotFound("None of the database rows are affected"@))
    } else {
        Ok(UpdateResult { rows_affected })
    }
}

impl Updater {
    /// An updater for this statement, not yet demanding an affected row.
    pub fn new(query: UpdateQuery) -> (r: Self)
        ensures
            r.query == query,
            !r.check_record_exists,
    {
        Updater { query, check_record_exists: false }
    }

    /// Demand that the update touches at least one row.
    pub fn check_record_exists(self) -> (r: Self)
        ensures
            r.query == self.query,
            r.check_record_exists,
    {
        Updater { check_record_exists: true, ..self }
    }

    /// Interpret the driver's execution summary for this update.
    pub fn exec(self, exec_result: ExecResult) -> (r: Result<UpdateResult, DbErr>)
        ensures
            result_view(r) == spec_update_outcome(
                self.check_record_exists,
                exec_result.rows_affected,
            ),
    {
        if self.check_record_exists && exec_result.rows_affected() == 0 {
            Err(DbErr::RecordNotFound("None of the database rows are affected".to_owned()))
        } else {
            Ok(UpdateResult { rows_affected: exec_result.rows_affected })
        }
    }
}

/// An update outcome with its error abstracted to the error's model.
pub open spec fn result_view(r: Result<UpdateResult, DbErr>) -> Result<UpdateResult, DbErrModel> {
    match r {
        Ok(u) => Ok(u),
        Err(e) => Err(e@),
    }
}

impl UpdateOne {
    /// Interpret the driver's execution summary for a single-record update:
    /// zero affected rows means the addressed record does not exist, which is
    /// a caller-visible error, never a silent no-op.  On success the record's
    /// write intents are handed back.
    pub fn exec(self, exec_result: ExecResult) -> (r: Result<ActiveModel, DbErr>)
        ensures
            r is Ok <==> exec_result.rows_affected != 0,
            r matches Ok(m) ==> m@ == self.model@,
            r matches Err(e) ==> e@ == DbErrModel::RecordNotFound(
                "None of the database rows are affected"@,
            ),
    {
        match Updater::new(self.query).check_record_exists().exec(exec_result) {
            Ok(_) => Ok(self.model),
            Err(e) => Err(e),
        }
    }
}

impl UpdateMany {
    /// Interpret the driver's execution summary for an open update: zero
    /// affected rows is an ordinary outcome, reported as-is.
    pub fn exec(self, exec_result: ExecResult) -> (r: Result<UpdateResult, DbErr>)
        ensures
            r matches Ok(u) ==> u.rows_affected == exec_result.rows_affected,
            r is Ok,
    {
        Updater::new(self.query).exec(exec_result)
    }
}

} // verus!
