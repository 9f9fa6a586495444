use pg_harness::fixtures::{fixture_list, fixture_path, unquote_token, MIGRATION_PATH};
use pg_harness::sql::{create_database_sql, CREATE_SCHEMA_SQL, DROP_SCHEMA_SQL, TERMINATE_BACKENDS_SQL};

#[test]
fn unquote_removes_all_quotes() {
    assert_eq!(unquote_token("\"a.sql\""), "a.sql");
    assert_eq!(unquote_token("a\"b\"c"), "abc");
    assert_eq!(unquote_token("\"\""), "");
    assert_eq!(unquote_token(""), "");
}

#[test]
fn unquote_keeps_unquoted_text() {
    assert_eq!(unquote_token("users.sql"), "users.sql");
}

#[test]
fn fixture_list_keeps_order_and_skips_separators() {
    let tokens = vec![
        "\"a.sql\"".to_string(),
        ",".to_string(),
        "\"b.sql\"".to_string(),
    ];
    assert_eq!(fixture_list(&tokens), vec!["a.sql".to_string(), "b.sql".to_string()]);
}

#[test]
fn fixture_list_reversed_order() {
    let tokens = vec![
        "\"b.sql\"".to_string(),
        ",".to_string(),
        "\"a.sql\"".to_string(),
    ];
    assert_eq!(fixture_list(&tokens), vec!["b.sql".to_string(), "a.sql".to_string()]);
}

#[test]
fn fixture_list_of_nothing_is_empty() {
    assert!(fixture_list(&vec![]).is_empty());
    assert!(fixture_list(&vec![",".to_string()]).is_empty());
}

#[test]
fn fixture_path_is_under_fixtures() {
    assert_eq!(fixture_path("a.sql"), "fixtures/a.sql");
    assert_eq!(fixture_path(""), "fixtures/");
}

#[test]
fn migration_path_is_fixed() {
    assert!(MIGRATION_PATH.starts_with("migrations/"));
    assert!(MIGRATION_PATH.ends_with(".up.sql"));
}

#[test]
fn create_database_statement() {
    assert_eq!(create_database_sql("test_abcdwxyz"), "CREATE DATABASE test_abcdwxyz;");
}

#[test]
fn teardown_statements() {
    assert_eq!(DROP_SCHEMA_SQL, "DROP SCHEMA PUBLIC CASCADE");
    assert_eq!(CREATE_SCHEMA_SQL, "CREATE SCHEMA PUBLIC");
    assert!(TERMINATE_BACKENDS_SQL.contains("pg_terminate_backend(pid)"));
    assert!(TERMINATE_BACKENDS_SQL.contains("pid <> pg_backend_pid()"));
}
