use sea_orm::entity::{ColumnDef, ColumnType, EntityDef};
use sea_orm::error::DbErr;
use sea_orm::relation::RelationType;
use sea_orm::select::JoinKind;
use sea_orm::statement::DbBackend;
use sea_orm::value::DbValue;

fn col(name: &str, col_type: ColumnType) -> ColumnDef {
    ColumnDef { name: name.to_owned(), col_type, not_null: true, unique: false }
}

fn cake() -> EntityDef {
    EntityDef {
        table_name: "cake".to_owned(),
        columns: vec![col("id", ColumnType::Integer), col("name", ColumnType::Text)],
        primary_keys: vec!["id".to_owned()],
    }
}

fn filling() -> EntityDef {
    EntityDef {
        table_name: "filling".to_owned(),
        columns: vec![col("id", ColumnType::Integer), col("name", ColumnType::Text)],
        primary_keys: vec!["id".to_owned()],
    }
}

fn cake_filling() -> EntityDef {
    EntityDef {
        table_name: "cake_filling".to_owned(),
        columns: vec![col("cake_id", ColumnType::Integer), col("filling_id", ColumnType::Integer)],
        primary_keys: vec!["cake_id".to_owned(), "filling_id".to_owned()],
    }
}

#[test]
fn test_1() {
    assert_eq!(
        cake().find().build(DbBackend::MySql).to_string(),
        "SELECT `cake`.`id`, `cake`.`name` FROM `cake`"
    );
}

#[test]
fn find_renders_all_columns_postgres() {
    assert_eq!(
        cake().find().build(DbBackend::Postgres).to_string(),
        r#"SELECT "cake"."id", "cake"."name" FROM "cake""#
    );
}

#[test]
fn filter_renders_inline_value_mysql() {
    let id = cake().column_ref(0);
    assert_eq!(
        cake().find().filter(id.eq(DbValue::BigInt(5))).build(DbBackend::MySql).to_string(),
        "SELECT `cake`.`id`, `cake`.`name` FROM `cake` WHERE `cake`.`id` = 5"
    );
}

#[test]
fn find_by_single_key() {
    let select = cake().find_by(&vec![DbValue::BigInt(11)]).unwrap();
    assert_eq!(
        select.build(DbBackend::Postgres).to_string(),
        r#"SELECT "cake"."id", "cake"."name" FROM "cake" WHERE "cake"."id" = 11"#
    );
}

#[test]
fn find_by_composite_key() {
    let select = cake_filling().find_by(&vec![DbValue::BigInt(2), DbValue::BigInt(3)]).unwrap();
    assert_eq!(
        select.build(DbBackend::Postgres).to_string(),
        [
            r#"SELECT "cake_filling"."cake_id", "cake_filling"."filling_id" FROM "cake_filling""#,
            r#"WHERE "cake_filling"."cake_id" = 2 AND "cake_filling"."filling_id" = 3"#,
        ]
        .join(" ")
    );
}

#[test]
fn find_by_arity_mismatch_fails_construction() {
    let too_few = cake_filling().find_by(&vec![DbValue::BigInt(2)]);
    assert_eq!(
        too_few.unwrap_err(),
        DbErr::Query("primary key arity mismatch".to_owned())
    );
    let too_many = cake().find_by(&vec![DbValue::BigInt(1), DbValue::BigInt(2)]);
    assert_eq!(
        too_many.unwrap_err(),
        DbErr::Query("primary key arity mismatch".to_owned())
    );
}

#[test]
fn select_only_then_columns_projects_exactly_those() {
    let name = cake().column_ref(1);
    assert_eq!(
        cake().find().select_only().column(&name).build(DbBackend::Postgres).to_string(),
        r#"SELECT "cake"."name" FROM "cake""#
    );
}

#[test]
fn column_as_renders_alias() {
    let name = cake().column_ref(1);
    let expr = sea_orm::expr::SimpleExpr::Column(name);
    assert_eq!(
        cake().find().select_only().column_as(expr, "label").build(DbBackend::Postgres).to_string(),
        r#"SELECT "cake"."name" AS "label" FROM "cake""#
    );
}

#[test]
fn filters_accumulate_with_and() {
    let id = cake().column_ref(0);
    let name = cake().column_ref(1);
    assert_eq!(
        cake()
            .find()
            .filter(id.gte(DbValue::BigInt(1)))
            .filter(name.like("Cheese%"))
            .build(DbBackend::Postgres)
            .to_string(),
        r#"SELECT "cake"."id", "cake"."name" FROM "cake" WHERE "cake"."id" >= 1 AND "cake"."name" LIKE 'Cheese%'"#
    );
}

#[test]
fn between_and_pattern_operators() {
    let id = cake().column_ref(0);
    let name = cake().column_ref(1);
    assert_eq!(
        cake()
            .find()
            .select_only()
            .column(&id)
            .filter(id.between(DbValue::BigInt(1), DbValue::BigInt(9)))
            .filter(name.starts_with("Ch"))
            .filter(name.ends_with("se"))
            .filter(name.contains("ees"))
            .build(DbBackend::Postgres)
            .to_string(),
        [
            r#"SELECT "cake"."id" FROM "cake" WHERE ("cake"."id" BETWEEN 1 AND 9)"#,
            r#"AND "cake"."name" LIKE 'Ch%' AND "cake"."name" LIKE '%se' AND "cake"."name" LIKE '%ees%'"#,
        ]
        .join(" ")
    );
}

#[test]
fn order_by_preserves_call_order_and_direction() {
    let id = cake().column_ref(0);
    let name = cake().column_ref(1);
    assert_eq!(
        cake()
            .find()
            .order_by(sea_orm::expr::SimpleExpr::Column(name))
            .order_by_desc(sea_orm::expr::SimpleExpr::Column(id))
            .build(DbBackend::MySql)
            .to_string(),
        "SELECT `cake`.`id`, `cake`.`name` FROM `cake` ORDER BY `cake`.`name` ASC, `cake`.`id` DESC"
    );
}

#[test]
fn group_by_renders() {
    let name = cake().column_ref(1);
    assert_eq!(
        cake()
            .find()
            .select_only()
            .column(&name)
            .group_by(sea_orm::expr::SimpleExpr::Column(cake().column_ref(1)))
            .build(DbBackend::Postgres)
            .to_string(),
        r#"SELECT "cake"."name" FROM "cake" GROUP BY "cake"."name""#
    );
}

#[test]
fn inner_join_renders_one_equality_both_qualified() {
    let rel = cake_filling()
        .has_one(&cake())
        .from(&cake_filling().column_ref(0))
        .to(&cake().column_ref(0))
        .build()
        .unwrap();
    assert_eq!(rel.rel_type, RelationType::HasOne);
    assert_eq!(
        cake_filling().find().inner_join(&rel).build(DbBackend::Postgres).to_string(),
        [
            r#"SELECT "cake_filling"."cake_id", "cake_filling"."filling_id" FROM "cake_filling""#,
            r#"INNER JOIN "cake" ON "cake_filling"."cake_id" = "cake"."id""#,
        ]
        .join(" ")
    );
}

#[test]
fn join_rev_joins_the_from_table() {
    let rel = cake_filling()
        .has_many(&filling())
        .from(&cake_filling().column_ref(1))
        .to(&filling().column_ref(0))
        .build()
        .unwrap();
    assert_eq!(
        filling().find().join_rev(JoinKind::Left, &rel).build(DbBackend::Postgres).to_string(),
        [
            r#"SELECT "filling"."id", "filling"."name" FROM "filling""#,
            r#"LEFT JOIN "cake_filling" ON "cake_filling"."filling_id" = "filling"."id""#,
        ]
        .join(" ")
    );
}

#[test]
fn relation_without_key_columns_fails_construction() {
    let err = cake().has_many(&filling()).build().unwrap_err();
    assert_eq!(
        err,
        DbErr::Query("relation is missing a key column on one side".to_owned())
    );
}

#[test]
fn build_exposes_placeholders_and_values() {
    let id = cake().column_ref(0);
    let stmt = cake().find().filter(id.eq(DbValue::BigInt(5))).build(DbBackend::Postgres);
    assert_eq!(
        stmt.sql,
        r#"SELECT "cake"."id", "cake"."name" FROM "cake" WHERE "cake"."id" = $1"#
    );
    assert_eq!(stmt.values, Some(vec![DbValue::BigInt(5)]));
}

#[test]
fn statement_text_escapes_quotes() {
    let name = cake().column_ref(1);
    assert_eq!(
        cake()
            .find()
            .select_only()
            .column(&name)
            .filter(name.eq(DbValue::Text("It's".to_owned())))
            .build(DbBackend::Postgres)
            .to_string(),
        r#"SELECT "cake"."name" FROM "cake" WHERE "cake"."name" = 'It''s'"#
    );
}

#[test]
fn statement_text_renders_negative_and_boolean_literals() {
    let id = cake().column_ref(0);
    let stmt = cake()
        .find()
        .select_only()
        .column(&id)
        .filter(id.lt(DbValue::BigInt(-42)))
        .filter(id.ne(DbValue::Bool(true)))
        .build(DbBackend::Postgres);
    assert_eq!(
        stmt.to_string(),
        r#"SELECT "cake"."id" FROM "cake" WHERE "cake"."id" < -42 AND "cake"."id" <> TRUE"#
    );
}
