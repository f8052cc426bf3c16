use datasynth::SynthError;
use datasynth::config::GenConfig;
use datasynth::config::effective_bounds;
use datasynth::kind::FieldKind;
use datasynth::rows::generate_rows;
use datasynth::rows::generate_value;
use datasynth::schema::{FieldAttributes, FieldSpec, TableSpec};
use datasynth::text::{escape_quotes, truncate_chars};

fn config() -> GenConfig {
    GenConfig::none()
}

fn field_with(name: &str, kind: &str, config: GenConfig) -> FieldSpec {
    FieldSpec {
        name: name.to_string(),
        kind: kind.to_string(),
        config,
        attributes: FieldAttributes::none(),
    }
}

/// The length a value had before its quotes were doubled.
fn unescaped_len(v: &str) -> usize {
    let chars: Vec<char> = v.chars().collect();
    let mut n = 0;
    let mut i = 0;
    while i < chars.len() {
        if chars[i] == '\'' {
            assert_eq!(chars.get(i + 1), Some(&'\''), "unescaped quote in {v:?}");
            i += 2;
        } else {
            i += 1;
        }
        n += 1;
    }
    n
}

#[test]
fn escape_doubles_each_quote() {
    let out = escape_quotes(&vec!['a', '\'', 'b', '\'', '\'']);
    assert_eq!(out, vec!['a', '\'', '\'', 'b', '\'', '\'', '\'', '\'']);
    assert_eq!(escape_quotes(&vec![]), Vec::<char>::new());
}

#[test]
fn truncate_counts_characters() {
    let out = truncate_chars(&vec!['a', 'b', 'c', 'd'], 3);
    assert_eq!(out, vec!['a', 'b', 'c']);
    assert_eq!(truncate_chars(&vec!['x'], 5), vec!['x']);
}

#[test]
fn textual_values_fit_budget_and_stay_escaped() {
    let kinds = [
        "Name", "City", "Email", "Word", "CompanyName", "CatchPhase", "Username", "StreetName",
        "FilePath", "UserAgent", "Product", "Sentence", "Words",
    ];
    for kind in kinds {
        for _ in 0..20 {
            let mut c = config();
            c.max_length = Some(8);
            let f = field_with("v", kind, c);
            let t = TableSpec {
                name: "t".to_string(),
                row_count: 1,
                fields: vec![f],
                raw_ddl_fragment: None,
            };
            let rows = generate_rows(&t).unwrap();
            let v = &rows[0][0];
            assert!(unescaped_len(v) <= 8, "{kind} gave {v:?}");
        }
    }
}

#[test]
fn plain_values_fit_budget() {
    let kinds = ["Digit", "ZipCode", "Time", "Date", "DateTime", "Latitude", "Longitude"];
    for kind in kinds {
        let mut c = config();
        c.max_length = Some(6);
        let v = generate_value(
            datasynth::kind::resolve(kind).unwrap(),
            &c,
        )
        .unwrap();
        assert!(v.chars().count() <= 6, "{kind} gave {v:?}");
    }
}

#[test]
fn swapped_bounds_are_used() {
    let mut c = config();
    c.min_length = Some(30);
    c.max_length = Some(10);
    assert_eq!(effective_bounds(&c, FieldKind::Int), (10, 30));
    let mut d = config();
    d.min_length = Some(9);
    d.max_length = Some(3);
    for _ in 0..50 {
        let v = generate_value(FieldKind::Int, &d).unwrap();
        let n: i32 = v.parse().unwrap();
        assert!((3..=9).contains(&n), "{n} out of swapped bounds");
    }
}

#[test]
fn equal_bounds_pin_the_value() {
    let mut c = config();
    c.min_length = Some(7);
    c.max_length = Some(7);
    assert_eq!(generate_value(FieldKind::StringInt, &c).unwrap(), "7");
    assert_eq!(generate_value(FieldKind::Int, &c).unwrap(), "7");
}

#[test]
fn negative_bounds_are_clamped_by_budget() {
    let mut c = config();
    c.min_length = Some(-4);
    c.max_length = Some(-4);
    // The truncation budget is floored at zero, so the rendered value is cut
    // to nothing; the swap rule still applies to the draw itself.
    assert_eq!(generate_value(FieldKind::Int, &c).unwrap(), "");
    let mut d = config();
    d.min_length = Some(-4);
    d.max_length = Some(10);
    for _ in 0..20 {
        let v = generate_value(FieldKind::Int, &d).unwrap();
        let n: i32 = v.parse().unwrap();
        assert!((-4..=10).contains(&n));
    }
}

#[test]
fn password_length_within_swapped_bounds() {
    let mut c = config();
    c.min_length = Some(12);
    c.max_length = Some(8);
    for _ in 0..20 {
        let v = generate_value(FieldKind::Password, &c).unwrap();
        let n = unescaped_len(&v);
        assert!((8..=12).contains(&n), "password length {n}");
    }
}

#[test]
fn boolean_ratio_extremes() {
    let mut c = config();
    c.ratio = Some(100);
    assert_eq!(generate_value(FieldKind::Bool, &c).unwrap(), "true");
    c.ratio = Some(0);
    assert_eq!(generate_value(FieldKind::Bool, &c).unwrap(), "false");
}

#[test]
fn generated_rows_have_row_count_and_skip_auto_increment() {
    let id = FieldSpec {
        name: "id".to_string(),
        kind: "Serial".to_string(),
        config: config(),
        attributes: FieldAttributes { is_primary: Some(true), is_not_null: None },
    };
    let t = TableSpec {
        name: "users".to_string(),
        row_count: 3,
        fields: vec![id, field_with("name", "Name", {
            let mut c = config();
            c.max_length = Some(50);
            c
        })],
        raw_ddl_fragment: None,
    };
    let rows = generate_rows(&t).unwrap();
    assert_eq!(rows.len(), 3);
    for row in &rows {
        assert_eq!(row.len(), 1, "only the name column is populated");
    }
}

#[test]
fn unsupported_kind_fails_before_rows() {
    let t = TableSpec {
        name: "bad".to_string(),
        row_count: 5,
        fields: vec![field_with("ok", "Name", config()), field_with("x", "Unicorn", config())],
        raw_ddl_fragment: None,
    };
    assert_eq!(generate_rows(&t), Err(SynthError::UnsupportedFieldKind));
}

#[test]
fn malformed_date_fails() {
    let mut c = config();
    c.date = Some("not a date".to_string());
    assert_eq!(
        generate_value(FieldKind::DateTimeBefore, &c),
        Err(SynthError::MalformedDateConfig)
    );
    assert_eq!(
        generate_value(FieldKind::DateTimeAfter, &c),
        Err(SynthError::MalformedDateConfig)
    );
}

#[test]
fn reversed_date_range_fails() {
    let mut c = config();
    c.date = Some("2023-04-14 05:05:01".to_string());
    c.date_end = Some("2001-05-05 05:05:01".to_string());
    assert_eq!(
        generate_value(FieldKind::DateTimeBetween, &c),
        Err(SynthError::MalformedDateConfig)
    );
}

#[test]
fn date_kinds_with_defaults_produce_values() {
    for kind in ["DateTimeBefore", "DateTimeAfter", "DateTimeBetween"] {
        let v = generate_value(datasynth::kind::resolve(kind).unwrap(), &config()).unwrap();
        assert!(!v.is_empty(), "{kind} gave an empty timestamp");
        assert!(v.chars().count() <= 255);
    }
}

#[test]
fn date_kinds_respect_configured_bounds() {
    let bound = chrono::NaiveDateTime::parse_from_str("1999-12-31 23:59:59", "%Y-%m-%d %H:%M:%S")
        .unwrap()
        .and_utc()
        .timestamp();
    let mut c = config();
    c.date = Some("1999-12-31 23:59:59".to_string());
    let before = generate_value(FieldKind::DateTimeBefore, &c).unwrap();
    let got = chrono::DateTime::parse_from_rfc3339(&before).unwrap().timestamp();
    assert!(got < bound, "{before} is not before the bound");
    let after = generate_value(FieldKind::DateTimeAfter, &c).unwrap();
    let got = chrono::DateTime::parse_from_rfc3339(&after).unwrap().timestamp();
    assert!(got > bound, "{after} is not after the bound");
    let mut between = config();
    between.date = Some("1999-12-31 23:59:59".to_string());
    between.date_end = Some("2000-01-01 00:30:00".to_string());
    let end = bound + 1801;
    for _ in 0..20 {
        let v = generate_value(FieldKind::DateTimeBetween, &between).unwrap();
        let got = chrono::DateTime::parse_from_rfc3339(&v).unwrap().timestamp();
        assert!(bound <= got && got < end, "{v} is outside the range");
    }
}

#[test]
fn rendered_instants_are_recognised() {
    let secs: i64 = 1_681_448_701;
    let text = chrono::DateTime::from_timestamp(secs, 0).unwrap().format("%+").to_string();
    assert!(datasynth::rows::renders_instant(&text, secs));
    assert!(!datasynth::rows::renders_instant(&text, secs + 60));
    assert!(!datasynth::rows::renders_instant("2023-04-14", secs));
}

#[test]
fn default_reference_instants_match_their_texts() {
    let single = chrono::NaiveDateTime::parse_from_str("2023-04-14 05:05:01", "%Y-%m-%d %H:%M:%S")
        .unwrap()
        .and_utc()
        .timestamp();
    assert_eq!(single, datasynth::rows::DEFAULT_STAMP_BOUND_SECS);
    assert_eq!(single, datasynth::rows::DEFAULT_RANGE_END_SECS);
    let start = chrono::NaiveDateTime::parse_from_str("2001-05-05 05:05:01", "%Y-%m-%d %H:%M:%S")
        .unwrap()
        .and_utc()
        .timestamp();
    assert_eq!(start, datasynth::rows::DEFAULT_RANGE_START_SECS);
}

#[test]
fn kind_names_resolve_exactly() {
    assert!(datasynth::kind::resolve("CatchPhase").is_ok());
    assert!(datasynth::kind::resolve("catchphase").is_err());
    assert!(datasynth::kind::resolve("UUIDv4").is_ok());
    assert!(datasynth::kind::resolve("").is_err());
    assert_eq!(
        datasynth::kind::resolve("Serial").unwrap(),
        FieldKind::Serial
    );
}
