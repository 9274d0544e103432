//! Backend-agnostic statements, execution summaries, fetched rows, and the
//! reconstruction of typed records from rows.
//!
//! These are the only shapes that cross the boundary to a database driver:
//! no driver-specific type appears above them.

use vstd::prelude::*;
use crate::entity::EntityDef;
use crate::error::{DbErr, DbErrModel};
use crate::value::{DbValue, ValueModel};
use crate::views::{column_value_models, value_models};

verus! {

/// The SQL dialects a statement can be rendered for.
#[derive(Clone, Copy, Debug, PartialEq, Eq, Structural)]
pub enum DbBackend {
    Postgres,
    MySql,
    Sqlite,
}

/// Mathematical picture of a statement.
#[verifier::ext_equal]
pub ghost struct StatementModel {
    pub db_backend: DbBackend,
    pub sql: Seq<char>,
    pub values: Option<Seq<ValueModel>>,
}

/// A parameterized SQL command: text with positional placeholders, plus the
/// values bound to them, for one backend dialect.
#[derive(Debug)]
pub struct Statement {
    pub db_backend: DbBackend,
    pub sql: String,
    pub values: Option<Vec<DbValue>>,
}

impl View for Statement {
    type V = StatementModel;

    open spec fn view(&self) -> StatementModel {
        StatementModel {
            db_backend: self.db_backend,
            sql: self.sql@,
            values: match self.values {
                Some(ref vs) => Some(value_models(vs@)),
                None => None,
            },
        }
    }
}

impl Statement {
    /// A statement from a raw SQL string, with no bound values.
    pub fn from_string(db_backend: DbBackend, sql: String) -> (r: Statement)
        ensures
            r@ == (StatementModel { db_backend, sql: sql@, values: None }),
    {
        Statement { db_backend, sql, values: None }
    }
}

/// The summary a driver reports after executing a write statement.
#[derive(Clone, Copy, Debug)]
pub struct ExecResult {
    pub rows_affected: u64,
    pub last_insert_id: u64,
}

impl ExecResult {
    /// How many rows the statement touched.
    pub fn rows_affected(&self) -> (r: u64)
        ensures
            r == self.rows_affected,
    {
        self.rows_affected
    }

    /// The key generated for the last inserted row.
    pub fn last_insert_id(&self) -> (r: u64)
        ensures
            r == self.last_insert_id,
    {
        self.last_insert_id
    }
}

/// One column of a fetched row: its name and its value.
#[derive(Debug)]
pub struct ColumnValue {
    pub name: String,
    pub value: DbValue,
}

/// Mathematical picture of one row column.
#[verifier::ext_equal]
pub ghost struct ColumnValueModel {
    pub name: Seq<char>,
    pub value: ValueModel,
}

impl View for ColumnValue {
    type V = ColumnValueModel;

    open spec fn view(&self) -> ColumnValueModel {
        ColumnValueModel { name: self.name@, value: self.value@ }
    }
}

impl Clone for ColumnValue {
    fn clone(&self) -> (r: Self)
        ensures
            r@ == self@,
    {
        ColumnValue { name: self.name.clone(), value: self.value.clone() }
    }
}

/// A fetched row: opaque to the driver above, indexed by column name.
#[derive(Debug)]
pub struct QueryResult {
    pub row: Vec<ColumnValue>,
}

impl View for QueryResult {
    type V = Seq<ColumnValueModel>;

    open spec fn view(&self) -> Seq<ColumnValueModel> {
        column_value_models(self.row@)
    }
}

/// The value under the first column of `row` named `key`, if any.
pub open spec fn row_lookup(row: Seq<ColumnValueModel>, key: Seq<char>) -> Option<ValueModel>
    decreases row.len(),
{
    if row.len() == 0 {
        None
    } else if row.first().name == key {
        Some(row.first().value)
    } else {
        row_lookup(row.drop_first(), key)
    }
}

impl QueryResult {
    /// Look a column up by name.  A missing column is a decode error naming
    /// the offending column.
    #[verifier::loop_isolation(false)]
    pub fn try_get(&self, key: &str) -> (r: Result<DbValue, DbErr>)
        ensures
            r matches Ok(v) ==> row_lookup(self@, key@) == Some(v@),
            r is Err <==> row_lookup(self@, key@) is None,
            r matches Err(e) ==> e@ == DbErrModel::Decode(key@),
    {
        broadcast use crate::views::group_model_views;

        let wanted = key.to_owned();
        let n = self.row.len();
        proof {
            assert(self@.skip(0) =~= self@);
        }
        for i in 0..n
            invariant
                row_lookup(self@, key@) == row_lookup(self@.skip(i as int), key@),
        {
            if self.row[i].name == wanted {
                proof {
                    assert(self@.skip(i as int).first() == self@[i as int]);
                }
                return Ok(self.row[i].value.clone());
            }
            proof {
                assert(self@.skip(i as int).first() == self@[i as int]);
                assert(self@.skip(i as int).drop_first() =~= self@.skip(i + 1));
            }
        }
        proof {
            assert(self@.skip(n as int) =~= Seq::<ColumnValueModel>::empty());
        }
        Err(DbErr::Decode(key.to_owned()))
    }
}

/// A typed record reconstructed from a fetched row: one value per column of
/// its entity, in the entity's declared column order.
#[derive(Debug)]
pub struct Model {
    pub values: Vec<DbValue>,
}

impl View for Model {
    type V = Seq<ValueModel>;

    open spec fn view(&self) -> Seq<ValueModel> {
        value_models(self.values@)
    }
}

impl Clone for Model {
    fn clone(&self) -> (r: Self)
        ensures
            r@ == self@,
    {
        broadcast use crate::views::group_model_views;

        let mut values: Vec<DbValue> = Vec::new();
        let n = self.values.len();
        for i in 0..n
            invariant
                n == self.values.len(),
                values@.len() == i,
                forall|j: int| 0 <= j < i ==> (#[trigger] values@[j])@ == self.values@[j]@,
        {
            values.push(self.values[i].clone());
        }
        proof {
            assert(value_models(values@) =~= value_models(self.values@));
        }
        Model { values }
    }
}

impl Model {
    /// The value of column `c`.
    pub fn get(&self, c: usize) -> (r: DbValue)
        requires
            c < self@.len(),
        ensures
            r@ == self@[c as int],
    {
        proof {
            broadcast use crate::views::group_model_views;
        }
        self.values[c].clone()
    }

    /// Replace the value of column `c`.
    pub fn set(&mut self, c: usize, v: DbValue)
        requires
            c < old(self)@.len(),
        ensures
            final(self)@ == old(self)@.update(c as int, v@),
    {
        broadcast use crate::views::group_model_views;

        let ghost vm = v@;
        self.values.set(c, v);
        proof {
            assert(self@ =~= old(self)@.update(c as int, vm));
        }
    }
}

/// The keys under which a model's columns are looked up in a row: each column
/// name behind the given prefix.
pub open spec fn prefixed(pre: Seq<char>, name: Seq<char>) -> Seq<char> {
    pre + name
}

/// Whether a row holds every column of the entity (behind the prefix).
pub open spec fn decodable(
    m: crate::entity::EntityModel,
    row: Seq<ColumnValueModel>,
    pre: Seq<char>,
) -> bool {
    forall|i: int|
        0 <= i < m.columns.len() ==> row_lookup(row, prefixed(pre, (#[trigger] m.columns[i]).name))
            is Some
}

/// What decoding yields when the row is complete: each column's value, in
/// declared column order.
pub open spec fn spec_decode(
    m: crate::entity::EntityModel,
    row: Seq<ColumnValueModel>,
    pre: Seq<char>,
) -> Seq<ValueModel> {
    Seq::new(
        m.columns.len(),
        |i: int| row_lookup(row, prefixed(pre, m.columns[i].name)).unwrap(),
    )
}

impl Model {
    /// Reconstruct a record of `entity` from a fetched row, each column name
    /// looked up behind `pre`.  A missing column is a decode error naming the
    /// offending (prefixed) column; the first missing column in declared
    /// order is reported.
    #[verifier::loop_isolation(false)]
    pub fn from_query_result(entity: &EntityDef, res: &QueryResult, pre: &str) -> (r: Result<
        Model,
        DbErr,
    >)
        ensures
            r is Ok <==> decodable(entity@, res@, pre@),
            r matches Ok(m) ==> m@ == spec_decode(entity@, res@, pre@),
            r matches Err(e) ==> exists|i: int|
                0 <= i < entity@.columns.len() && row_lookup(
                    res@,
                    prefixed(pre@, (#[trigger] entity@.columns[i]).name),
                ) is None && e@ == DbErrModel::Decode(prefixed(pre@, entity@.columns[i].name)),
    {
        broadcast use crate::views::group_model_views;

        let n = entity.columns.len();
        let mut values: Vec<DbValue> = Vec::new();
        for i in 0..n
            invariant
                values@.len() == i,
                forall|j: int|
                    0 <= j < i ==> row_lookup(
                        res@,
                        prefixed(pre@, (#[trigger] entity@.columns[j]).name),
                    ) is Some,
                forall|j: int|
                    0 <= j < i ==> Some(#[trigger] value_models(values@)[j]) == row_lookup(
                        res@,
                        prefixed(pre@, entity@.columns[j].name),
                    ),
        {
            let mut key = pre.to_owned();
            key.append(entity.columns[i].name.as_str());
            proof {
                assert(key@ == prefixed(pre@, entity@.columns[i as int].name));
            }
            match res.try_get(key.as_str()) {
                Ok(v) => {
                    let ghost vs_before = values@;
                    let ghost vm = v@;
                    values.push(v);
                    proof {
                        assert forall|j: int|
                            0 <= j < i + 1 implies Some(
                            #[trigger] value_models(values@)[j],
                        ) == row_lookup(res@, prefixed(pre@, entity@.columns[j].name)) by {
                            if j < i {
                                assert(value_models(values@)[j] == values@[j]@);
                                assert(values@[j] == vs_before[j]);
                                assert(value_models(vs_before)[j] == vs_before[j]@);
                            } else {
                                assert(value_models(values@)[j] == vm);
                            }
                        }
                    }
                },
                Err(e) => {
                    proof {
                        assert(row_lookup(
                            res@,
                            prefixed(pre@, entity@.columns[i as int].name),
                        ) is None);
                    }
                    return Err(e);
                },
            }
        }
        let m = Model { values };
        proof {
            assert(m@ =~= spec_decode(entity@, res@, pre@));
        }
        Ok(m)
    }

    /// As `from_query_result`, but absence of a decodable record is reported
    /// as success-with-absence.
    pub fn from_query_result_optional(entity: &EntityDef, res: &QueryResult, pre: &str) -> (r:
        Result<Option<Model>, DbErr>)
        ensures
            r is Ok,
            r matches Ok(m) ==> (m is Some <==> decodable(entity@, res@, pre@)),
            r matches Ok(m) ==> (m matches Some(model) ==> model@ == spec_decode(
                entity@,
                res@,
                pre@,
            )),
    {
        match Model::from_query_result(entity, res, pre) {
            Ok(m) => Ok(Some(m)),
            Err(_) => Ok(None),
        }
    }
}

} // verus!
