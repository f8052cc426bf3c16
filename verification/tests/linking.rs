use datasynth::SynthError;
use datasynth::link::{
    LinkOperation, LinkStage, PkColumn, build_columns_catalog_query, build_pk_catalog_query,
    unlink_relation, wrap_assign,
};
use datasynth::registry::{Relation, RelationRegistry};

fn relation() -> Relation {
    Relation {
        database: "shop".to_string(),
        primary_table: "orders".to_string(),
        secondary_table: "items".to_string(),
    }
}

fn catalog_answer() -> Option<(Vec<PkColumn>, Vec<String>)> {
    Some((
        vec![PkColumn { name: "id".to_string(), data_type: "integer".to_string() }],
        vec!["item_id".to_string(), "label".to_string()],
    ))
}

#[test]
fn catalog_queries() {
    assert_eq!(
        build_columns_catalog_query("orders"),
        "SELECT column_name FROM information_schema.columns WHERE table_name = 'orders' \
         ORDER BY ordinal_position"
    );
    let q = build_pk_catalog_query("orders");
    assert!(q.starts_with("SELECT c.column_name, c.data_type FROM information_schema"));
    assert!(q.ends_with("AND tc.table_name = 'orders'"));
}

#[test]
fn link_happy_path_statements() {
    let mut reg = RelationRegistry::new();
    let mut op = LinkOperation::begin(relation());
    assert_eq!(op.stage, LinkStage::AwaitCatalog);
    let alter = op.on_catalog(catalog_answer()).unwrap();
    assert_eq!(
        alter,
        "ALTER TABLE items ADD COLUMN id integer, ADD CONSTRAINT items_orders_fk \
         FOREIGN KEY (id) REFERENCES orders (id) ON DELETE CASCADE;"
    );
    let populate = op.on_extended(true).unwrap();
    assert_eq!(
        populate,
        "WITH c AS (SELECT id, ROW_NUMBER() OVER (ORDER BY random()) AS rn FROM orders), \
         o AS (SELECT item_id, ROW_NUMBER() OVER (ORDER BY item_id) AS rn FROM items \
         WHERE id IS NULL) UPDATE items SET id = c.id \
         FROM c JOIN o ON c.rn = ((o.rn - 1) % (SELECT COUNT(*) FROM c)) + 1 \
         WHERE items.item_id = o.item_id;"
    );
    let id = op.on_populated(true, &mut reg).unwrap();
    assert_eq!(op.stage, LinkStage::Linked);
    assert_eq!(reg.len(), 1);
    let found = reg.find(id).unwrap();
    assert_eq!(found.primary_table, "orders");
    assert_eq!(found.secondary_table, "items");
}

#[test]
fn link_composite_key_statements() {
    let mut op = LinkOperation::begin(relation());
    let answer = Some((
        vec![
            PkColumn { name: "a".to_string(), data_type: "integer".to_string() },
            PkColumn { name: "b".to_string(), data_type: "bigint".to_string() },
        ],
        vec!["item_id".to_string()],
    ));
    let alter = op.on_catalog(answer).unwrap();
    assert_eq!(
        alter,
        "ALTER TABLE items ADD COLUMN a integer, ADD COLUMN b bigint, \
         ADD CONSTRAINT items_orders_fk FOREIGN KEY (a, b) \
         REFERENCES orders (a, b) ON DELETE CASCADE;"
    );
    let populate = op.on_extended(true).unwrap();
    assert!(populate.contains("SELECT a, b, ROW_NUMBER()"));
    assert!(populate.contains("SET a = c.a, b = c.b"));
    assert!(populate.contains("WHERE a IS NULL"));
}

#[test]
fn link_catalog_failure() {
    let mut op = LinkOperation::begin(relation());
    assert_eq!(op.on_catalog(None), Err(SynthError::CatalogLookupFailed));
    assert_eq!(op.stage, LinkStage::Failed);

    let mut op2 = LinkOperation::begin(relation());
    let empty = Some((Vec::new(), vec!["item_id".to_string()]));
    assert_eq!(op2.on_catalog(empty), Err(SynthError::CatalogLookupFailed));
    assert_eq!(op2.stage, LinkStage::Failed);
}

#[test]
fn link_duplicate_column_failure() {
    let mut op = LinkOperation::begin(relation());
    op.on_catalog(catalog_answer()).unwrap();
    assert_eq!(op.on_extended(false), Err(SynthError::DuplicateColumn));
    assert_eq!(op.stage, LinkStage::Failed);
}

#[test]
fn link_populate_failure_records_nothing() {
    let mut reg = RelationRegistry::new();
    let mut op = LinkOperation::begin(relation());
    op.on_catalog(catalog_answer()).unwrap();
    op.on_extended(true).unwrap();
    assert_eq!(op.on_populated(false, &mut reg), Err(SynthError::StoreFailure));
    assert_eq!(op.stage, LinkStage::Failed);
    assert_eq!(reg.len(), 0);
}

#[test]
fn unlink_after_link_removes_record_and_column() {
    let mut reg = RelationRegistry::new();
    let mut op = LinkOperation::begin(relation());
    op.on_catalog(catalog_answer()).unwrap();
    op.on_extended(true).unwrap();
    let id = op.on_populated(true, &mut reg).unwrap();
    assert_eq!(reg.len(), 1);
    let (rel, stmt) = unlink_relation(&mut reg, id).unwrap();
    assert_eq!(stmt, "ALTER TABLE items DROP COLUMN orders_id");
    assert_eq!(rel.database, "shop");
    assert_eq!(reg.len(), 0);
    assert!(reg.find(id).is_none());
}

#[test]
fn drop_statement_lowercases_the_primary_table() {
    let mut reg = RelationRegistry::new();
    let mut op = LinkOperation::begin(Relation {
        database: "shop".to_string(),
        primary_table: "Orders".to_string(),
        secondary_table: "Items".to_string(),
    });
    op.on_catalog(catalog_answer()).unwrap();
    op.on_extended(true).unwrap();
    let id = op.on_populated(true, &mut reg).unwrap();
    let (_, stmt) = unlink_relation(&mut reg, id).unwrap();
    assert_eq!(stmt, "ALTER TABLE Items DROP COLUMN orders_id");
}

#[test]
fn unlink_unknown_id_is_not_found_and_changes_nothing() {
    let mut reg = RelationRegistry::new();
    let mut op = LinkOperation::begin(relation());
    op.on_catalog(catalog_answer()).unwrap();
    op.on_extended(true).unwrap();
    let id = op.on_populated(true, &mut reg).unwrap();
    assert_eq!(unlink_relation(&mut reg, id + 1).unwrap_err(), SynthError::RelationNotFound);
    assert_eq!(reg.len(), 1);
    assert!(reg.find(id).is_some());
}

#[test]
fn registry_ids_are_fresh() {
    let mut reg = RelationRegistry::new();
    let a = reg.insert(relation());
    let b = reg.insert(relation());
    assert_ne!(a, b);
    assert_eq!(reg.len(), 2);
    assert_eq!(reg.remove(a).unwrap().primary_table, "orders");
    assert_eq!(reg.len(), 1);
    assert!(reg.find(b).is_some());
}

#[test]
fn wrap_assign_covers_every_row() {
    let assign = wrap_assign(5, 12);
    assert_eq!(assign.len(), 12);
    for &k in &assign {
        assert!(k < 5, "assignment out of range");
    }
}

#[test]
fn wrap_assign_balances_five_across_twelve() {
    let assign = wrap_assign(5, 12);
    let mut counts = [0usize; 5];
    for &k in &assign {
        counts[k] += 1;
    }
    for (k, &n) in counts.iter().enumerate() {
        assert!(n == 2 || n == 3, "primary rank {k} used {n} times");
    }
    assert_eq!(counts.iter().sum::<usize>(), 12);
}

#[test]
fn wrap_assign_exact_when_divisible() {
    let assign = wrap_assign(4, 12);
    let mut counts = [0usize; 4];
    for &k in &assign {
        counts[k] += 1;
    }
    assert_eq!(counts, [3, 3, 3, 3]);
}

#[test]
fn wrap_assign_more_primaries_than_rows() {
    let assign = wrap_assign(7, 3);
    assert_eq!(assign, vec![0, 1, 2]);
}
