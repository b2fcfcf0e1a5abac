use ut_verification::roles::{
    get_role_config, role_table, RoleEntry, RoleMapping, AFFILIATION_ROLES, MAJOR_ROLES,
    SCHOOL_ROLES,
};

fn entry(tag: &str, role: u64) -> RoleEntry {
    RoleEntry { tag: tag.to_string(), role }
}

#[test]
fn table_is_read_from_json() {
    let table = role_table(Some(r#"{"student": 2322324243, "member": 4089904238094}"#));
    assert_eq!(table, vec![entry("member", 4089904238094), entry("student", 2322324243)]);
}

#[test]
fn missing_or_unreadable_table_is_empty() {
    assert!(role_table(None).is_empty());
    assert!(role_table(Some("")).is_empty());
    assert!(role_table(Some("not json")).is_empty());
    assert!(role_table(Some(r#"{"student": "eleven"}"#)).is_empty());
    assert!(role_table(Some(r#"{"student": -1}"#)).is_empty());
    assert!(role_table(Some(r#"["student"]"#)).is_empty());
    assert!(role_table(Some("{}")).is_empty());
}

#[test]
fn last_duplicate_in_a_table_counts() {
    let table = role_table(Some(r#"{"a": 1, "a": 2}"#));
    assert_eq!(table, vec![entry("a", 2)]);
}

#[test]
fn three_tables_are_merged() {
    let mapping = get_role_config(
        Some(r#"{"student": 1, "staff": 2}"#),
        Some(r#"{"College of Natural Science": 3}"#),
        Some(r#"{"Computer Science, Entry-Level": 4, "Computer Science": 5}"#),
    );
    assert_eq!(mapping.role_for(&"student".to_string()), Some(1));
    assert_eq!(mapping.role_for(&"staff".to_string()), Some(2));
    assert_eq!(mapping.role_for(&"College of Natural Science".to_string()), Some(3));
    assert_eq!(mapping.role_for(&"Computer Science, Entry-Level".to_string()), Some(4));
    assert_eq!(mapping.role_for(&"Computer Science".to_string()), Some(5));
    assert_eq!(mapping.role_for(&"faculty".to_string()), None);
    assert_eq!(mapping.entries.len(), 5);
}

#[test]
fn later_table_overrides_earlier() {
    let mapping =
        get_role_config(Some(r#"{"x": 1, "y": 1}"#), Some(r#"{"x": 2}"#), Some(r#"{"y": 3}"#));
    assert_eq!(mapping.role_for(&"x".to_string()), Some(2));
    assert_eq!(mapping.role_for(&"y".to_string()), Some(3));
}

#[test]
fn bad_table_does_not_spoil_the_others() {
    let mapping = get_role_config(Some("oops"), None, Some(r#"{"cs": 9}"#));
    assert_eq!(mapping.entries, vec![entry("cs", 9)]);
    let mapping = get_role_config(None, None, None);
    assert!(mapping.entries.is_empty());
}

#[test]
fn insert_and_extend() {
    let mut mapping = RoleMapping::new();
    assert_eq!(mapping.role_for(&"a".to_string()), None);
    mapping.insert("a".to_string(), 1);
    mapping.insert("b".to_string(), 2);
    mapping.insert("a".to_string(), 3);
    assert_eq!(mapping.role_for(&"a".to_string()), Some(3));
    assert_eq!(mapping.role_for(&"b".to_string()), Some(2));
    mapping.extend(vec![entry("b", 4), entry("c", 5)]);
    assert_eq!(mapping.role_for(&"b".to_string()), Some(4));
    assert_eq!(mapping.role_for(&"c".to_string()), Some(5));
    assert_eq!(mapping.entries.len(), 5);
}

#[test]
fn table_attributes_are_named() {
    assert_eq!(AFFILIATION_ROLES, "affiliation_roles");
    assert_eq!(SCHOOL_ROLES, "school_roles");
    assert_eq!(MAJOR_ROLES, "major_roles");
}
