use auth_lib::setup::{
    classify_client_connection_error, classify_connection_error, confirms_drop, line_label,
    line_label_cuttable_at_72, create_database_sql, dotenv_assignments, managed_table,
    parse_env_file,
    postgres_url, scan_start, scan_step, setup_settings, sql_statements, statement_label,
    table_has_rows_sql, label_cuttable_at_80, ConnectionProblem, DataScan, SetupError,
    MANAGED_TABLE_COUNT,
};

#[test]
fn env_file_assignments() {
    let content = "# comment\n\nDB_HOST = localhost \r\nDB_PASSWORD=\"se=cret\"\nJWT='x'\nnot an assignment\n  # also comment\nEMPTY=\n";
    let got = parse_env_file(content);
    let want: Vec<(String, String)> = vec![
        ("DB_HOST".into(), "localhost".into()),
        ("DB_PASSWORD".into(), "se=cret".into()),
        ("JWT".into(), "x".into()),
        ("EMPTY".into(), "".into()),
    ];
    assert_eq!(got, want);
    assert!(parse_env_file("").is_empty());
}

#[test]
fn migration_is_split_into_statements() {
    let raw = "-- schema\nDROP TABLE IF EXISTS users; -- old\r\nCREATE TABLE users (\n  id uuid -- key\n);\n\n;  ;\nCREATE INDEX i ON users (id)";
    let got = sql_statements(raw);
    assert_eq!(
        got,
        vec![
            "DROP TABLE IF EXISTS users".to_string(),
            "CREATE TABLE users (\n  id uuid \n)".to_string(),
            "CREATE INDEX i ON users (id)".to_string(),
        ]
    );
    assert!(sql_statements("-- only a comment\n").is_empty());
}

#[test]
fn statement_labels() {
    assert_eq!(statement_label("CREATE   TABLE\n  x (\tid int )"), "CREATE TABLE x ( id int )");
    let long = "SELECT ".repeat(20);
    let label = statement_label(&long);
    assert_eq!(label.len(), 80 + "…".len());
    assert!(label.ends_with('…'));
    assert!(label.starts_with("SELECT SELECT"));
}

#[test]
fn connection_errors_are_classified() {
    assert_eq!(classify_connection_error("error: Connection refused (os error 111)"), ConnectionProblem::Unreachable);
    assert_eq!(classify_connection_error("No such file or directory"), ConnectionProblem::Unreachable);
    assert_eq!(
        classify_connection_error("password authentication failed for user"),
        ConnectionProblem::AuthenticationFailed
    );
    assert_eq!(classify_connection_error("role \"x\" does not exist"), ConnectionProblem::AuthenticationFailed);
    assert_eq!(classify_connection_error("database \"auth\" does not exist"), ConnectionProblem::MissingDatabase);
    assert_eq!(classify_connection_error("timeout"), ConnectionProblem::Other);
}

#[test]
fn drop_confirmation() {
    for yes in ["y", "Y", "yes", " YES \n", "Yes"] {
        assert!(confirms_drop(yes), "{yes:?}");
    }
    for no in ["", "n", "no", "yess", "y e s"] {
        assert!(!confirms_drop(no), "{no:?}");
    }
}

#[test]
fn generated_urls_and_sql() {
    assert_eq!(postgres_url("u", "p", "h", 5432, "postgres"), "postgres://u:p@h:5432/postgres");
    assert_eq!(create_database_sql("auth"), "CREATE DATABASE \"auth\"");
    assert_eq!(table_has_rows_sql("users"), "SELECT EXISTS(SELECT 1 FROM \"public\".\"users\" LIMIT 1)");
}

fn vars(pairs: &[(&str, &str)]) -> Vec<(String, String)> {
    pairs.iter().map(|(k, v)| (k.to_string(), v.to_string())).collect()
}

#[test]
fn setup_settings_defaults_and_errors() {
    let s = setup_settings(&vars(&[("DB_HOST", "h"), ("DB_USER", "u"), ("DB_PASSWORD", "p")])).unwrap();
    assert_eq!((s.host.as_str(), s.port, s.user.as_str(), s.password.as_str(), s.name.as_str()), ("h", 5432, "u", "p", "auth"));
    assert!(matches!(setup_settings(&vars(&[])), Err(SetupError::Missing(ref k)) if k == "DB_HOST"));
    assert!(matches!(setup_settings(&vars(&[("DB_HOST", "h"), ("DB_PORT", "x")])), Err(SetupError::BadPort)));
    assert!(matches!(setup_settings(&vars(&[("DB_HOST", "h")])), Err(SetupError::Missing(ref k)) if k == "DB_USER"));
}

fn scan(exists: [bool; 4], rows: [bool; 4]) -> DataScan {
    let mut s = scan_start();
    loop {
        s = match s {
            DataScan::CheckTable(i) => scan_step(s, exists[i]),
            DataScan::CheckRows(i) => scan_step(s, rows[i]),
            done => return done,
        };
    }
}

#[test]
fn existing_data_scan() {
    assert_eq!(MANAGED_TABLE_COUNT, 4);
    assert_eq!(managed_table(0), "sessions");
    assert_eq!(managed_table(3), "roles");
    assert_eq!(scan([false; 4], [true; 4]), DataScan::Clean);
    assert_eq!(scan([true; 4], [false; 4]), DataScan::Clean);
    assert_eq!(scan([true, false, true, true], [false, true, true, true]), DataScan::Found(2));
}

#[test]
fn label_cut_needs_a_character_boundary() {
    assert!(label_cuttable_at_80("short"));
    assert!(label_cuttable_at_80(&"a".repeat(200)));
    let s = format!("{}é", "a".repeat(79));
    assert!(!label_cuttable_at_80(&s));
    assert!(label_cuttable_at_80(&format!("{}é", "a".repeat(78))));
}

#[test]
fn dotenv_keeps_the_environment_and_the_first_assignment() {
    let file = parse_env_file("DB_HOST=filehost\nDB_USER=alice\nDB_USER=bob\nJWT_SECRET='s'\n");
    let already = vec!["DB_HOST".to_string()];
    let got = dotenv_assignments(&file, &already);
    let want: Vec<(String, String)> = vec![
        ("DB_USER".into(), "alice".into()),
        ("JWT_SECRET".into(), "s".into()),
    ];
    assert_eq!(got, want);
    assert!(dotenv_assignments(&file, &vec![
        "DB_HOST".to_string(),
        "DB_USER".to_string(),
        "JWT_SECRET".to_string(),
    ])
    .is_empty());
    assert_eq!(dotenv_assignments(&file, &Vec::new()).len(), 3);
}

#[test]
fn client_setup_labels_and_diagnosis() {
    assert_eq!(line_label("CREATE TABLE t (\n  id INT\n)"), "CREATE TABLE t (   id INT )");
    let long = format!("SELECT\n{}", "x".repeat(80));
    let label = line_label(&long);
    assert_eq!(label, format!("SELECT {}…", "x".repeat(65)));
    assert!(line_label_cuttable_at_72(&long));
    assert!(!line_label_cuttable_at_72(&format!("{}é", "a".repeat(71))));
    assert_eq!(
        classify_client_connection_error("error connecting: Connection refused (os error 111)"),
        ConnectionProblem::Unreachable
    );
    assert_eq!(classify_client_connection_error("No such file"), ConnectionProblem::Other);
    assert_eq!(
        classify_client_connection_error("password authentication failed for user \"x\""),
        ConnectionProblem::AuthenticationFailed
    );
    assert_eq!(
        classify_client_connection_error("database \"auth\" does not exist"),
        ConnectionProblem::MissingDatabase
    );
    assert_eq!(classify_client_connection_error("table t does not exist"), ConnectionProblem::Other);
}
