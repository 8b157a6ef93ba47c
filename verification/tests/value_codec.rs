use recallify::files::attachment_path;
use recallify::values::{classify_number, decode_cell, decode_table, marshal_value, BindParam, DynValue, SqlCell};
use rusqlite::types::Value;

#[test]
fn marshal_text_binds_verbatim() {
    match marshal_value(DynValue::Text("Biology".to_string())) {
        BindParam::Text(s) => assert_eq!(s, "Biology"),
        _ => panic!("a string must bind as text"),
    }
}

#[test]
fn marshal_bool_binds_as_one_and_zero() {
    match marshal_value(DynValue::Bool(true)) {
        BindParam::Integer(i) => assert_eq!(i, 1),
        _ => panic!("true must bind as the integer 1"),
    }
    match marshal_value(DynValue::Bool(false)) {
        BindParam::Integer(i) => assert_eq!(i, 0),
        _ => panic!("false must bind as the integer 0"),
    }
}

#[test]
fn marshal_null_and_structured() {
    match marshal_value(DynValue::Null) {
        BindParam::Null => {}
        _ => panic!("null must bind as the null marker"),
    }
    match marshal_value(DynValue::Structured("{\"a\":1}".to_string())) {
        BindParam::Text(s) => assert_eq!(s, "{\"a\":1}"),
        _ => panic!("a nested value must degrade to its textual form"),
    }
}

#[test]
fn decode_priority_per_storage_class() {
    match decode_cell(SqlCell::Text("10:00".to_string())) {
        DynValue::Text(s) => assert_eq!(s, "10:00"),
        _ => panic!("a text cell must decode as text"),
    }
    match decode_cell(SqlCell::Integer(900)) {
        DynValue::Int(i) => assert_eq!(i, 900),
        _ => panic!("an integer cell must decode as an integer"),
    }
    match decode_cell(SqlCell::Real(Value::Real(2.5))) {
        DynValue::Real(Value::Real(f)) => assert_eq!(f, 2.5),
        _ => panic!("a real cell must decode as a real"),
    }
    match decode_cell(SqlCell::Null) {
        DynValue::Null => {}
        _ => panic!("a null cell must decode as null"),
    }
    match decode_cell(SqlCell::Blob(vec![1u8, 2u8])) {
        DynValue::Null => {}
        _ => panic!("a blob admits no interpretation and must decode to null"),
    }
}

#[test]
fn decode_table_pairs_names_in_order() {
    let names = vec!["one".to_string(), "two".to_string()];
    let table = vec![
        vec![SqlCell::Integer(1), SqlCell::Text("x".to_string())],
        vec![SqlCell::Null, SqlCell::Integer(7)],
    ];
    let rows = decode_table(&names, table);
    assert_eq!(rows.len(), 2);
    assert_eq!(rows[0][0].0, "one");
    assert_eq!(rows[0][1].0, "two");
    assert!(matches!(rows[0][0].1, DynValue::Int(1)));
    match &rows[0][1].1 {
        DynValue::Text(s) => assert_eq!(s, "x"),
        _ => panic!("wrong decode for a text cell"),
    }
    assert!(matches!(rows[1][0].1, DynValue::Null));
    assert!(matches!(rows[1][1].1, DynValue::Int(7)));
}

#[test]
fn number_classification_priority() {
    match classify_number(Some(5), None, "5".to_string()) {
        DynValue::Int(i) => assert_eq!(i, 5),
        _ => panic!("an exact 64-bit reading must win"),
    }
    match classify_number(Some(3), Some(Value::Real(3.0)), "3".to_string()) {
        DynValue::Int(i) => assert_eq!(i, 3),
        _ => panic!("the integer reading has priority over the real one"),
    }
    match classify_number(None, Some(Value::Real(0.5)), "0.5".to_string()) {
        DynValue::Real(Value::Real(f)) => assert_eq!(f, 0.5),
        _ => panic!("without an integer reading the real one must win"),
    }
    match classify_number(None, None, "1e999".to_string()) {
        DynValue::Text(s) => assert_eq!(s, "1e999"),
        _ => panic!("a number with no representable form degrades to text"),
    }
}

#[test]
fn attachment_path_joins_directory_and_name() {
    assert_eq!(attachment_path("/data/app/pdfs", "notes.pdf"), "/data/app/pdfs/notes.pdf");
    assert_eq!(attachment_path("", "a"), "/a");
}
