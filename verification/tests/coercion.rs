use dbee_core::CellValue;
use dbee_core::StatementKind;
use dbee_core::build_effecting_result;
use dbee_core::build_projecting_result;
use dbee_core::classify_statement;
use dbee_core::coerce_bool;
use dbee_core::coerce_bytes;
use dbee_core::coerce_fallback;
use dbee_core::coerce_first_text;
use dbee_core::coerce_float;
use dbee_core::coerce_int;
use dbee_core::coerce_json;
use dbee_core::coerce_text;
use dbee_core::is_finite_bits;

#[test]
fn classify_select_is_projecting() {
    assert_eq!(classify_statement("SELECT 1 AS one"), StatementKind::Projecting);
}

#[test]
fn classify_is_case_insensitive_and_trims() {
    assert_eq!(classify_statement("   select * from t"), StatementKind::Projecting);
    assert_eq!(classify_statement("\n\twith x as (select 1) select * from x"), StatementKind::Projecting);
    assert_eq!(classify_statement("show tables"), StatementKind::Projecting);
    assert_eq!(classify_statement("Explain select 1"), StatementKind::Projecting);
}

#[test]
fn classify_other_statements_as_effecting() {
    assert_eq!(classify_statement("DELETE FROM t WHERE id = 1"), StatementKind::Effecting);
    assert_eq!(classify_statement("INSERT INTO t VALUES (1)"), StatementKind::Effecting);
    assert_eq!(classify_statement("UPDATE t SET a = 1"), StatementKind::Effecting);
    assert_eq!(classify_statement("CREATE TABLE t (a int)"), StatementKind::Effecting);
}

#[test]
fn classify_insert_returning_stays_effecting() {
    // The heuristic deliberately misfiles row-returning DML.
    assert_eq!(
        classify_statement("INSERT INTO t VALUES (1) RETURNING id"),
        StatementKind::Effecting
    );
}

#[test]
fn classify_empty_and_blank_as_effecting() {
    assert_eq!(classify_statement(""), StatementKind::Effecting);
    assert_eq!(classify_statement("   \n\t  "), StatementKind::Effecting);
}

#[test]
fn classify_trims_unicode_whitespace() {
    assert_eq!(classify_statement("\u{00a0}\u{2003}SELECT 1"), StatementKind::Projecting);
}

#[test]
fn classify_keyword_prefix_only_is_not_enough() {
    // No keyword at the start: effecting.
    assert_eq!(classify_statement("xSELECT 1"), StatementKind::Effecting);
}

#[test]
fn int_coercion_prefers_the_widest_decode() {
    assert!(matches!(coerce_int(Some(9), Some(2), Some(1)), CellValue::Int(9)));
    assert!(matches!(coerce_int(None, Some(-7), Some(1)), CellValue::Int(-7)));
    assert!(matches!(coerce_int(None, None, Some(3)), CellValue::Int(3)));
    assert!(matches!(coerce_int(None, None, None), CellValue::Null));
}

#[test]
fn int_coercion_preserves_the_value_across_widths() {
    let via_i64 = coerce_int(Some(42), None, None);
    let via_i32 = coerce_int(None, Some(42), None);
    let via_i16 = coerce_int(None, None, Some(42));
    for v in [via_i64, via_i32, via_i16] {
        assert!(matches!(v, CellValue::Int(42)));
    }
}

#[test]
fn float_coercion_keeps_finite_values() {
    let bits = (1.5f64).to_bits();
    match coerce_float(Some(bits), None) {
        CellValue::Float(b) => assert_eq!(f64::from_bits(b), 1.5),
        other => panic!("expected a float cell, got {:?}", kind_of(&other)),
    }
}

#[test]
fn float_coercion_widens_single_precision() {
    let bits = (0.25f32 as f64).to_bits();
    match coerce_float(None, Some(bits)) {
        CellValue::Float(b) => assert_eq!(f64::from_bits(b), 0.25),
        other => panic!("expected a float cell, got {:?}", kind_of(&other)),
    }
}

#[test]
fn non_finite_floats_coerce_to_null() {
    assert!(matches!(coerce_float(Some(f64::NAN.to_bits()), None), CellValue::Null));
    assert!(matches!(coerce_float(Some(f64::INFINITY.to_bits()), None), CellValue::Null));
    assert!(matches!(coerce_float(Some(f64::NEG_INFINITY.to_bits()), None), CellValue::Null));
    assert!(matches!(coerce_float(None, Some(f64::NAN.to_bits())), CellValue::Null));
    assert!(matches!(coerce_float(None, None), CellValue::Null));
}

#[test]
fn finite_bits_check_agrees_with_the_float() {
    assert!(is_finite_bits((123.456f64).to_bits()));
    assert!(is_finite_bits(0u64));
    assert!(!is_finite_bits(f64::NAN.to_bits()));
    assert!(!is_finite_bits(f64::INFINITY.to_bits()));
}

#[test]
fn bool_and_text_coercion_pass_through() {
    assert!(matches!(coerce_bool(Some(true)), CellValue::Bool(true)));
    assert!(matches!(coerce_bool(None), CellValue::Null));
    match coerce_text(Some("hello".to_string())) {
        CellValue::Str(s) => assert_eq!(s, "hello"),
        _ => panic!("expected a string cell"),
    }
    assert!(matches!(coerce_text(None), CellValue::Null));
}

#[test]
fn byte_arrays_become_a_length_placeholder() {
    match coerce_bytes(Some(vec![1u8, 2, 3, 4, 5])) {
        CellValue::Str(s) => assert_eq!(s, "<BLOB 5 bytes>"),
        _ => panic!("expected a placeholder string"),
    }
    match coerce_bytes(Some(Vec::new())) {
        CellValue::Str(s) => assert_eq!(s, "<BLOB 0 bytes>"),
        _ => panic!("expected a placeholder string"),
    }
    assert!(matches!(coerce_bytes(None), CellValue::Null));
}

#[test]
fn json_cells_pass_through_unchanged() {
    let v: serde_json::Value = serde_json::from_str("{\"a\":[1,2]}").unwrap();
    match coerce_json(Some(v.clone())) {
        CellValue::Json(out) => assert_eq!(out, v),
        _ => panic!("expected a json cell"),
    }
    assert!(matches!(coerce_json(None), CellValue::Null));
}

#[test]
fn timestamp_chain_takes_the_first_successful_rendering() {
    let naive = Some("2024-01-02 03:04:05".to_string());
    let zoned = Some("2024-01-02 03:04:05 UTC".to_string());
    let raw = Some("raw".to_string());
    match coerce_first_text(naive.clone(), zoned.clone(), raw.clone()) {
        CellValue::Str(s) => assert_eq!(s, "2024-01-02 03:04:05"),
        _ => panic!("expected a string cell"),
    }
    match coerce_first_text(None, zoned, raw.clone()) {
        CellValue::Str(s) => assert_eq!(s, "2024-01-02 03:04:05 UTC"),
        _ => panic!("expected a string cell"),
    }
    match coerce_first_text(None, None, raw) {
        CellValue::Str(s) => assert_eq!(s, "raw"),
        _ => panic!("expected a string cell"),
    }
    assert!(matches!(coerce_first_text(None, None, None), CellValue::Null));
}

#[test]
fn fallback_chain_tries_string_int_float_bool() {
    match coerce_fallback(Some("x".to_string()), Some(1), None, Some(true)) {
        CellValue::Str(s) => assert_eq!(s, "x"),
        _ => panic!("expected a string cell"),
    }
    assert!(matches!(coerce_fallback(None, Some(5), None, Some(true)), CellValue::Int(5)));
    match coerce_fallback(None, None, Some((2.5f64).to_bits()), Some(true)) {
        CellValue::Float(b) => assert_eq!(f64::from_bits(b), 2.5),
        _ => panic!("expected a float cell"),
    }
    // A non-finite float in the fallback chain yields null without trying bool.
    assert!(matches!(
        coerce_fallback(None, None, Some(f64::NAN.to_bits()), Some(true)),
        CellValue::Null
    ));
    assert!(matches!(coerce_fallback(None, None, None, Some(false)), CellValue::Bool(false)));
    assert!(matches!(coerce_fallback(None, None, None, None), CellValue::Null));
}

#[test]
fn effecting_result_carries_only_the_count() {
    let r = build_effecting_result(1, 12);
    assert!(r.columns.is_empty());
    assert!(r.rows.is_empty());
    assert_eq!(r.rows_affected, Some(1));
    assert_eq!(r.execution_time_ms, 12);
}

#[test]
fn projecting_result_of_no_rows_is_empty_without_count() {
    let rows: Vec<sqlx::postgres::PgRow> = Vec::new();
    let r = build_projecting_result(&rows, &Vec::new(), &Vec::new(), 3);
    assert!(r.columns.is_empty());
    assert!(r.rows.is_empty());
    assert_eq!(r.rows_affected, None);
    assert_eq!(r.execution_time_ms, 3);
}

fn kind_of(v: &CellValue) -> &'static str {
    match v {
        CellValue::Null => "null",
        CellValue::Bool(_) => "bool",
        CellValue::Int(_) => "int",
        CellValue::Float(_) => "float",
        CellValue::Str(_) => "str",
        CellValue::Json(_) => "json",
    }
}
