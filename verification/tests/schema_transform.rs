use sea_orm::entity::ColumnType;
use sea_orm::relation::RelationType;
use sea_orm::transformer::{ColumnDesc, EntityTransformer, Error, ForeignKeyDesc, IndexDesc,
    TableDef, TableStmt};

fn column(name: &str) -> ColumnDesc {
    ColumnDesc { name: name.to_owned(), col_type: ColumnType::Integer, not_null: true }
}

fn pk_index(columns: &[&str]) -> IndexDesc {
    IndexDesc {
        primary: true,
        unique: true,
        columns: columns.iter().map(|c| (*c).to_owned()).collect(),
    }
}

fn unique_index(columns: &[&str]) -> IndexDesc {
    IndexDesc {
        primary: false,
        unique: true,
        columns: columns.iter().map(|c| (*c).to_owned()).collect(),
    }
}

fn fk(columns: &[&str], ref_table: &str, ref_columns: &[&str]) -> ForeignKeyDesc {
    ForeignKeyDesc {
        columns: columns.iter().map(|c| (*c).to_owned()).collect(),
        ref_table: ref_table.to_owned(),
        ref_columns: ref_columns.iter().map(|c| (*c).to_owned()).collect(),
    }
}

fn simple_table(name: &str) -> TableStmt {
    TableStmt::Create(TableDef {
        name: Some(name.to_owned()),
        columns: vec![column("id"), column("name")],
        indexes: vec![pk_index(&["id"])],
        foreign_keys: vec![],
    })
}

fn junction_table() -> TableStmt {
    TableStmt::Create(TableDef {
        name: Some("cake_filling".to_owned()),
        columns: vec![column("cake_id"), column("filling_id")],
        indexes: vec![pk_index(&["cake_id", "filling_id"])],
        foreign_keys: vec![
            fk(&["cake_id"], "cake", &["id"]),
            fk(&["filling_id"], "filling", &["id"]),
        ],
    })
}

#[test]
fn junction_table_yields_conjunct_relations_positionally() {
    let writer = EntityTransformer {
        tables: vec![simple_table("cake"), simple_table("filling"), junction_table()],
    }
    .transform()
    .unwrap();
    assert_eq!(writer.entities.len(), 3);

    let cake = &writer.entities[0];
    assert_eq!(cake.table_name, "cake");
    // No inverse has-one/has-many from the junction: only the conjunct edge.
    assert!(cake.relations.is_empty());
    assert_eq!(cake.conjunct_relations.len(), 1);
    assert_eq!(cake.conjunct_relations[0].via, "cake_filling");
    assert_eq!(cake.conjunct_relations[0].to, "filling");

    let filling = &writer.entities[1];
    assert_eq!(filling.conjunct_relations.len(), 1);
    assert_eq!(filling.conjunct_relations[0].via, "cake_filling");
    assert_eq!(filling.conjunct_relations[0].to, "cake");

    let junction = &writer.entities[2];
    assert_eq!(junction.table_name, "cake_filling");
    assert_eq!(junction.primary_keys, vec!["cake_id".to_owned(), "filling_id".to_owned()]);
    assert_eq!(junction.relations.len(), 2);
    assert_eq!(junction.relations[0].rel_type, RelationType::BelongsTo);
    assert_eq!(junction.relations[0].ref_table, "cake");
    assert_eq!(junction.relations[1].ref_table, "filling");
    assert!(junction.conjunct_relations.is_empty());
}

#[test]
fn unique_foreign_key_yields_has_one_otherwise_has_many() {
    let frosting = TableStmt::Create(TableDef {
        name: Some("frosting".to_owned()),
        columns: vec![column("id"), column("cake_id")],
        indexes: vec![pk_index(&["id"]), unique_index(&["cake_id"])],
        foreign_keys: vec![fk(&["cake_id"], "cake", &["id"])],
    });
    let tasting = TableStmt::Create(TableDef {
        name: Some("tasting".to_owned()),
        columns: vec![column("id"), column("cake_id")],
        indexes: vec![pk_index(&["id"])],
        foreign_keys: vec![fk(&["cake_id"], "cake", &["id"])],
    });
    let writer = EntityTransformer {
        tables: vec![simple_table("cake"), frosting, tasting],
    }
    .transform()
    .unwrap();

    let cake = &writer.entities[0];
    assert_eq!(cake.relations.len(), 2);
    assert_eq!(cake.relations[0].rel_type, RelationType::HasOne);
    assert_eq!(cake.relations[0].ref_table, "frosting");
    assert_eq!(cake.relations[1].rel_type, RelationType::HasMany);
    assert_eq!(cake.relations[1].ref_table, "tasting");
    // Inverse relations carry no key columns of their own.
    assert!(cake.relations[0].columns.is_empty());
    assert!(cake.relations[0].ref_columns.is_empty());

    // The referencing tables keep their own forward (belongs-to) edges.
    let frosting = &writer.entities[1];
    assert_eq!(frosting.relations.len(), 1);
    assert_eq!(frosting.relations[0].rel_type, RelationType::BelongsTo);
    assert_eq!(frosting.relations[0].ref_table, "cake");
    assert_eq!(frosting.relations[0].columns, vec!["cake_id".to_owned()]);
    assert_eq!(frosting.relations[0].ref_columns, vec!["id".to_owned()]);
    // The unique flag comes from the unique indexes; the primary index is
    // unique too, so the key column carries it as well.
    assert!(frosting.columns[1].unique);
    assert!(frosting.columns[0].unique);
}

#[test]
fn non_create_statement_aborts() {
    let err = EntityTransformer { tables: vec![simple_table("cake"), TableStmt::Other] }
        .transform()
        .unwrap_err();
    assert_eq!(err.message().as_str(), "TableStatement should be create");
}

#[test]
fn unnamed_table_aborts() {
    let nameless = TableStmt::Create(TableDef {
        name: None,
        columns: vec![column("id")],
        indexes: vec![],
        foreign_keys: vec![],
    });
    let err = EntityTransformer { tables: vec![nameless] }.transform().unwrap_err();
    assert_eq!(err.message().as_str(), "Table name should not be empty");
}

#[test]
fn inverse_edges_attach_after_the_whole_scan() {
    // The referencing table comes first: its target is only seen later, yet
    // the inverse relation still lands on the target entity.
    let tasting = TableStmt::Create(TableDef {
        name: Some("tasting".to_owned()),
        columns: vec![column("id"), column("cake_id")],
        indexes: vec![pk_index(&["id"])],
        foreign_keys: vec![fk(&["cake_id"], "cake", &["id"])],
    });
    let writer = EntityTransformer { tables: vec![tasting, simple_table("cake")] }
        .transform()
        .unwrap();
    assert_eq!(writer.entities[0].table_name, "tasting");
    let cake = &writer.entities[1];
    assert_eq!(cake.relations.len(), 1);
    assert_eq!(cake.relations[0].rel_type, RelationType::HasMany);
    assert_eq!(cake.relations[0].ref_table, "tasting");
}

#[test]
fn transform_error_is_total_not_partial() {
    let writer = EntityTransformer {
        tables: vec![simple_table("cake"), TableStmt::Other, simple_table("filling")],
    }
    .transform();
    assert!(matches!(writer, Err(Error::TransformError(_))));
}
