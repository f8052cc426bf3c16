use datasynth::SynthError;
use datasynth::config::GenConfig;
use datasynth::ddl::compile_create_table;
use datasynth::dml::build_insert;
use datasynth::schema::{FieldAttributes, FieldSpec, TableSpec};

fn field(name: &str, kind: &str, max_length: Option<i32>) -> FieldSpec {
    let mut config = GenConfig::none();
    config.max_length = max_length;
    FieldSpec {
        name: name.to_string(),
        kind: kind.to_string(),
        config,
        attributes: FieldAttributes::none(),
    }
}

fn primary(mut f: FieldSpec) -> FieldSpec {
    f.attributes.is_primary = Some(true);
    f
}

#[test]
fn create_table_users_scenario() {
    let t = TableSpec {
        name: "users".to_string(),
        row_count: 3,
        fields: vec![primary(field("id", "Serial", None)), field("name", "Name", Some(50))],
        raw_ddl_fragment: None,
    };
    let ddl = compile_create_table(&t).unwrap();
    assert_eq!(
        ddl,
        "CREATE TABLE users (id SERIAL NOT NULL , name VARCHAR(50) NOT NULL , PRIMARY KEY(id));"
    );
}

#[test]
fn create_table_composite_key() {
    let t = TableSpec {
        name: "pairs".to_string(),
        row_count: 0,
        fields: vec![
            primary(field("a", "Int", None)),
            field("b", "Word", None),
            primary(field("c", "Bigint", None)),
        ],
        raw_ddl_fragment: None,
    };
    let ddl = compile_create_table(&t).unwrap();
    assert_eq!(
        ddl,
        "CREATE TABLE pairs (a INT NOT NULL , b VARCHAR(255) NOT NULL , c BIGINT NOT NULL , \
         PRIMARY KEY(a, c));"
    );
}

#[test]
fn nullable_only_when_explicitly_marked() {
    let mut city = field("city", "City", Some(40));
    city.attributes.is_not_null = Some(false);
    let mut region = field("region", "StateName", None);
    region.attributes.is_not_null = Some(true);
    let t = TableSpec {
        name: "places".to_string(),
        row_count: 0,
        fields: vec![city, region],
        raw_ddl_fragment: None,
    };
    let ddl = compile_create_table(&t).unwrap();
    assert_eq!(
        ddl,
        "CREATE TABLE places (city VARCHAR(40), region VARCHAR(255) NOT NULL );"
    );
}

#[test]
fn create_table_raw_fragment_first() {
    let t = TableSpec {
        name: "logs".to_string(),
        row_count: 0,
        fields: vec![field("note", "Word", None)],
        raw_ddl_fragment: Some("entry_id BIGSERIAL".to_string()),
    };
    let ddl = compile_create_table(&t).unwrap();
    assert_eq!(ddl, "CREATE TABLE logs (entry_id BIGSERIAL, note VARCHAR(255) NOT NULL );");
}

#[test]
fn create_table_column_classes() {
    let t = TableSpec {
        name: "shapes".to_string(),
        row_count: 0,
        fields: vec![
            field("lat", "Latitude", None),
            field("lon", "Longitude", None),
            field("flag", "Bool", None),
            field("body", "Paragraph", None),
            field("n", "Int", None),
            field("big", "Bigint", None),
            field("f", "Float", None),
            field("at", "Time", None),
            field("day", "Date", None),
            field("seen", "DateTimeBefore", None),
        ],
        raw_ddl_fragment: None,
    };
    let ddl = compile_create_table(&t).unwrap();
    assert_eq!(
        ddl,
        "CREATE TABLE shapes (lat DECIMAL(8,6) NOT NULL , lon DECIMAL(9,6) NOT NULL , \
         flag BOOLEAN NOT NULL , body TEXT NOT NULL , n INT NOT NULL , big BIGINT NOT NULL , \
         f FLOAT NOT NULL , at Time NOT NULL , day DATE NOT NULL , seen TIMESTAMP NOT NULL );"
    );
}

#[test]
fn create_table_unknown_kind_fails() {
    let t = TableSpec {
        name: "bad".to_string(),
        row_count: 0,
        fields: vec![field("x", "Unicorn", None)],
        raw_ddl_fragment: None,
    };
    assert_eq!(compile_create_table(&t), Err(SynthError::UnsupportedFieldKind));
}

#[test]
fn insert_statement_shape() {
    let t = TableSpec {
        name: "users".to_string(),
        row_count: 2,
        fields: vec![primary(field("id", "Serial", None)), field("name", "Name", Some(50))],
        raw_ddl_fragment: None,
    };
    let rows = vec![vec!["Ann".to_string()], vec!["Bob".to_string()]];
    let stmt = build_insert(&t, &rows).unwrap();
    assert_eq!(stmt, "INSERT INTO users (name) VALUES ('Ann'), ('Bob');");
}

#[test]
fn insert_statement_multi_column() {
    let t = TableSpec {
        name: "pairs".to_string(),
        row_count: 1,
        fields: vec![field("a", "Int", None), field("b", "Word", None)],
        raw_ddl_fragment: None,
    };
    let rows = vec![vec!["1".to_string(), "x".to_string()]];
    let stmt = build_insert(&t, &rows).unwrap();
    assert_eq!(stmt, "INSERT INTO pairs (a, b) VALUES ('1', 'x');");
}

#[test]
fn insert_statement_unknown_kind_fails() {
    let t = TableSpec {
        name: "bad".to_string(),
        row_count: 0,
        fields: vec![field("x", "Mystery", None)],
        raw_ddl_fragment: None,
    };
    assert_eq!(build_insert(&t, &vec![]), Err(SynthError::UnsupportedFieldKind));
}

#[test]
fn error_messages() {
    assert_eq!(SynthError::UnsupportedFieldKind.message(), "unsupported field kind");
    assert_eq!(SynthError::RelationNotFound.message(), "relation not found");
}

#[test]
fn existing_table_skips_compilation() {
    let t = TableSpec {
        name: "users".to_string(),
        row_count: 0,
        fields: vec![field("name", "Name", Some(50))],
        raw_ddl_fragment: None,
    };
    assert_eq!(datasynth::ddl::compile_if_missing(&t, true), Ok(None));
    assert_eq!(
        datasynth::ddl::compile_if_missing(&t, false),
        Ok(Some("CREATE TABLE users (name VARCHAR(50) NOT NULL );".to_string()))
    );
}
