use sea_orm::active_model::{unchanged_active_value_not_intended_for_public_use, ActiveModel,
    ActiveValue};
use sea_orm::driver::supports_returning;
use sea_orm::entity::{ColumnDef, ColumnType, EntityDef};
use sea_orm::error::DbErr;
use sea_orm::statement::{ColumnValue, DbBackend, ExecResult, Model, QueryResult};
use sea_orm::update::{Update, UpdateResult, Updater};
use sea_orm::value::DbValue;

fn col(name: &str, col_type: ColumnType) -> ColumnDef {
    ColumnDef { name: name.to_owned(), col_type, not_null: true, unique: false }
}

fn cake() -> EntityDef {
    EntityDef {
        table_name: "cake".to_owned(),
        columns: vec![col("id", ColumnType::Integer), col("name", ColumnType::Text)],
        primary_keys: vec!["id".to_owned()],
    }
}

fn cake_model(name: &str) -> ActiveModel {
    ActiveModel {
        values: vec![
            ActiveValue::unset(),
            ActiveValue::set(DbValue::Text(name.to_owned())),
        ],
    }
}

#[test]
fn insert_one() {
    let apple = cake_model("Apple Pie");
    assert_eq!(
        cake().insert(&vec![apple]).unwrap().build(DbBackend::Postgres).to_string(),
        r#"INSERT INTO "cake" ("name") VALUES ('Apple Pie')"#,
    );
}

#[test]
fn insert_many() {
    let apple = cake_model("Apple Pie");
    let orange = cake_model("Orange Scone");
    assert_eq!(
        cake().insert(&vec![apple, orange]).unwrap().build(DbBackend::Postgres).to_string(),
        r#"INSERT INTO "cake" ("name") VALUES ('Apple Pie'), ('Orange Scone')"#,
    );
}

#[test]
fn insert_omits_unset_and_keeps_declared_order() {
    let mut full = cake_model("Cheese Cake");
    full.set(0, DbValue::BigInt(7));
    assert_eq!(
        cake().insert(&vec![full]).unwrap().build(DbBackend::Postgres).to_string(),
        r#"INSERT INTO "cake" ("id", "name") VALUES (7, 'Cheese Cake')"#,
    );
}

#[test]
fn insert_rejects_no_records() {
    assert_eq!(
        cake().insert(&vec![]).unwrap_err(),
        DbErr::Query("nothing to insert".to_owned())
    );
}

#[test]
fn insert_rejects_wrong_width() {
    let narrow = ActiveModel { values: vec![ActiveValue::set(DbValue::BigInt(1))] };
    assert_eq!(
        cake().insert(&vec![narrow]).unwrap_err(),
        DbErr::Query("active model does not match the entity's columns".to_owned())
    );
}

#[test]
fn insert_rejects_mixed_patterns() {
    let mut with_id = cake_model("Apple Pie");
    with_id.set(0, DbValue::BigInt(1));
    let without_id = cake_model("Orange Scone");
    assert_eq!(
        cake().insert(&vec![with_id, without_id]).unwrap_err(),
        DbErr::Query("insert models must set the same columns".to_owned())
    );
}

#[test]
fn active_value_states() {
    let set = ActiveValue::set(DbValue::BigInt(9));
    assert!(set.is_set());
    assert!(!set.is_unset());
    assert_eq!(set.unwrap(), DbValue::BigInt(9));

    let unset: ActiveValue<DbValue> = ActiveValue::unset();
    assert!(unset.is_unset());
    assert!(!unset.is_set());

    let loaded = unchanged_active_value_not_intended_for_public_use(DbValue::BigInt(3));
    assert!(!loaded.is_set());
    assert!(!loaded.is_unset());
}

#[test]
fn take_yields_once_and_leaves_unset() {
    let mut v = ActiveValue::set(DbValue::Text("once".to_owned()));
    assert_eq!(v.take(), DbValue::Text("once".to_owned()));
    assert!(v.is_unset());
    assert_eq!(v.take(), DbValue::Null);
}

#[test]
fn into_wrapped_value_normalizes_states() {
    let set = ActiveValue::set(7i64).into_wrapped_value();
    assert!(set.is_set());
    assert_eq!(set.unwrap(), DbValue::BigInt(7));

    let loaded = unchanged_active_value_not_intended_for_public_use("x".to_owned())
        .into_wrapped_value();
    assert!(loaded.is_set());
    assert_eq!(loaded.unwrap(), DbValue::Text("x".to_owned()));

    let unset: ActiveValue<i64> = ActiveValue::unset();
    let wrapped = unset.into_wrapped_value();
    assert!(wrapped.is_unset());
    assert_eq!(wrapped.unwrap(), DbValue::Null);
}

#[test]
fn update_one_builds_set_and_key_filter() {
    let mut model = cake_model("Cheese Cake");
    model.values[0] = unchanged_active_value_not_intended_for_public_use(DbValue::BigInt(1));
    let one = Update::one(&cake(), &model).unwrap();
    let stmt = one.query.build(DbBackend::Postgres);
    assert_eq!(stmt.sql, r#"UPDATE "cake" SET "name" = $1 WHERE "cake"."id" = $2"#);
    assert_eq!(
        stmt.values,
        Some(vec![DbValue::Text("Cheese Cake".to_owned()), DbValue::BigInt(1)])
    );
}

#[test]
fn update_one_requires_a_key_value() {
    let missing_key = cake_model("Cheese Cake");
    assert_eq!(
        Update::one(&cake(), &missing_key).unwrap_err(),
        DbErr::Query("a primary key value is required to address the record".to_owned())
    );
}

#[test]
fn update_record_not_found_when_mode_requested() {
    let mut model = cake_model("Cheese Cake");
    model.values[0] = unchanged_active_value_not_intended_for_public_use(DbValue::BigInt(2));
    let one = Update::one(&cake(), &model).unwrap();
    let outcome = one.exec(ExecResult { rows_affected: 0, last_insert_id: 0 });
    assert_eq!(
        outcome.unwrap_err(),
        DbErr::RecordNotFound("None of the database rows are affected".to_owned())
    );
}

#[test]
fn update_one_returns_the_record_on_success() {
    let mut model = cake_model("Cheese Cake");
    model.values[0] = unchanged_active_value_not_intended_for_public_use(DbValue::BigInt(2));
    let one = Update::one(&cake(), &model).unwrap();
    let back = one.exec(ExecResult { rows_affected: 1, last_insert_id: 0 }).unwrap();
    assert_eq!(back.get(1).unwrap(), DbValue::Text("Cheese Cake".to_owned()));
}

#[test]
fn update_many_reports_zero_rows_as_success() {
    let id = cake().column_ref(0);
    let many = Update::many(&cake())
        .col_expr(&cake().column_ref(1), DbValue::Text("Cheese Cake".to_owned()))
        .filter(id.eq(DbValue::BigInt(2)));
    let stmt = many.query.build(DbBackend::Postgres);
    assert_eq!(stmt.sql, r#"UPDATE "cake" SET "name" = $1 WHERE "cake"."id" = $2"#);
    let outcome = many.exec(ExecResult { rows_affected: 0, last_insert_id: 0 });
    assert_eq!(outcome, Ok(UpdateResult { rows_affected: 0 }));
}

#[test]
fn updater_modes_disagree_only_on_zero_rows() {
    let query = Update::many(&cake()).query;
    let plain = Updater::new(query);
    assert_eq!(
        plain.exec(ExecResult { rows_affected: 0, last_insert_id: 0 }),
        Ok(UpdateResult { rows_affected: 0 })
    );
    let checked = Updater::new(Update::many(&cake()).query).check_record_exists();
    assert_eq!(
        checked.exec(ExecResult { rows_affected: 0, last_insert_id: 0 }),
        Err(DbErr::RecordNotFound("None of the database rows are affected".to_owned()))
    );
}

#[test]
fn decode_model_from_row() {
    let row = QueryResult {
        row: vec![
            ColumnValue { name: "id".to_owned(), value: DbValue::BigInt(4) },
            ColumnValue { name: "name".to_owned(), value: DbValue::Text("Mud Cake".to_owned()) },
        ],
    };
    let model = Model::from_query_result(&cake(), &row, "").unwrap();
    assert_eq!(model.get(0), DbValue::BigInt(4));
    assert_eq!(model.get(1), DbValue::Text("Mud Cake".to_owned()));
}

#[test]
fn decode_error_names_the_missing_column() {
    let row = QueryResult {
        row: vec![ColumnValue { name: "id".to_owned(), value: DbValue::BigInt(4) }],
    };
    assert_eq!(
        Model::from_query_result(&cake(), &row, "").unwrap_err(),
        DbErr::Decode("name".to_owned())
    );
    assert!(Model::from_query_result_optional(&cake(), &row, "").unwrap().is_none());
}

#[test]
fn decode_respects_prefix() {
    let row = QueryResult {
        row: vec![
            ColumnValue { name: "A_id".to_owned(), value: DbValue::BigInt(1) },
            ColumnValue { name: "A_name".to_owned(), value: DbValue::Text("T".to_owned()) },
        ],
    };
    let model = Model::from_query_result(&cake(), &row, "A_").unwrap();
    assert_eq!(model.get(0), DbValue::BigInt(1));
}

#[test]
fn try_get_finds_first_match() {
    let row = QueryResult {
        row: vec![
            ColumnValue { name: "n".to_owned(), value: DbValue::BigInt(1) },
            ColumnValue { name: "n".to_owned(), value: DbValue::BigInt(2) },
        ],
    };
    assert_eq!(row.try_get("n").unwrap(), DbValue::BigInt(1));
    assert_eq!(row.try_get("m").unwrap_err(), DbErr::Decode("m".to_owned()));
}

#[test]
fn insert_many_renders_backticks_for_mysql() {
    let apple = cake_model("Apple Pie");
    let orange = cake_model("Orange Scone");
    assert_eq!(
        cake().insert(&vec![apple, orange]).unwrap().build(DbBackend::MySql).to_string(),
        "INSERT INTO `cake` (`name`) VALUES ('Apple Pie'), ('Orange Scone')",
    );
}

#[test]
fn building_is_referentially_transparent() {
    let apple = cake_model("Apple Pie");
    let insert = cake().insert(&vec![apple]).unwrap();
    let once = insert.build(DbBackend::Postgres);
    let again = insert.build(DbBackend::Postgres);
    assert_eq!(once.sql, again.sql);
    assert_eq!(once.values, again.values);
    assert_eq!(once.to_string(), again.to_string());
}

#[test]
fn returning_support_follows_the_version_gate() {
    assert!(supports_returning("3.35.0"));
    assert!(supports_returning("3.40.1"));
    assert!(!supports_returning("3.34.9"));
    assert!(!supports_returning("2.99.0"));
    assert!(!supports_returning("bogus"));
    assert!(!supports_returning(""));
    assert!(!supports_returning("3"));
}
