use fimo::column::{column_kind, eq_ignore_ascii_case, read_bool, read_bool_lowered, ColumnKind};

#[test]
fn declared_types_name_their_kind() {
    assert_eq!(column_kind("int"), ColumnKind::Int);
    assert_eq!(column_kind("long"), ColumnKind::Long);
    assert_eq!(column_kind("double"), ColumnKind::Double);
    assert_eq!(column_kind("decimal"), ColumnKind::Decimal);
    assert_eq!(column_kind("bool"), ColumnKind::Bool);
    assert_eq!(column_kind("objectId"), ColumnKind::ObjectId);
    assert_eq!(column_kind("date"), ColumnKind::Date);
    assert_eq!(column_kind("timestamp"), ColumnKind::Timestamp);
    assert_eq!(column_kind("regex"), ColumnKind::Regex);
    assert_eq!(column_kind("string"), ColumnKind::Text);
    assert_eq!(column_kind("Int"), ColumnKind::Text);
}

#[test]
fn default_boolean_texts_in_any_case() {
    for t in ["true", "T", "Yes", "1", "y"] {
        assert_eq!(read_bool(t, &None, &None), Some(true), "{}", t);
    }
    for t in ["FALSE", "f", "No", "0", "N"] {
        assert_eq!(read_bool(t, &None, &None), Some(false), "{}", t);
    }
    assert_eq!(read_bool("maybe", &None, &None), None);
    assert_eq!(read_bool("", &None, &None), None);
}

#[test]
fn listed_boolean_texts_replace_defaults() {
    let truthy = Some(vec!["on".to_string(), "ja".to_string()]);
    let falsy = Some(vec!["off".to_string()]);
    assert_eq!(read_bool("ON", &truthy, &falsy), Some(true));
    assert_eq!(read_bool("Off", &truthy, &falsy), Some(false));
    assert_eq!(read_bool("true", &truthy, &falsy), None);
    assert_eq!(read_bool("no", &truthy, &None), Some(false));
}

#[test]
fn lowered_form_decides_defaults() {
    assert_eq!(read_bool_lowered("X", "yes", &None, &None), Some(true));
    assert_eq!(read_bool_lowered("X", "x", &None, &None), None);
}

#[test]
fn ascii_case_matching() {
    assert!(eq_ignore_ascii_case("HeLLo", "hello"));
    assert!(!eq_ignore_ascii_case("hello", "hell"));
    assert!(!eq_ignore_ascii_case("[", "{"));
    assert!(eq_ignore_ascii_case("Ünï", "Ünï"));
    assert!(!eq_ignore_ascii_case("Ü", "ü"));
}
