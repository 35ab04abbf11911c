use db_access::connection::DatabaseConnection;
use db_access::factory::{create_connection, engine_from_lowercase, resolve_engine, AnyConnection, EngineKind};

#[test]
fn test_mariadb_case_insensitive() {
    let test_cases = vec!["mariadb", "MariaDB", "MARIADB", "MaRiAdB"];

    for db_type in test_cases {
        let result = create_connection(
            db_type,
            "localhost",
            3306,
            "root",
            "password",
            "test",
            "disabled",
        );

        if let Err(e) = &result {
            assert_ne!(
                e.code.as_deref(),
                Some("INVALID_DB_TYPE"),
                "Case '{}' should be recognized as valid",
                db_type
            );
            assert_ne!(
                e.code.as_deref(),
                Some("NOT_IMPLEMENTED"),
                "Case '{}' should not return NOT_IMPLEMENTED",
                db_type
            );
        }
        assert!(matches!(result, Ok(AnyConnection::MariaDb(_))));
    }
}

#[test]
fn test_mysql_alias() {
    let test_cases = vec!["mysql", "MySQL", "MYSQL"];

    for db_type in test_cases {
        let result = create_connection(
            db_type,
            "localhost",
            3306,
            "root",
            "password",
            "test",
            "disabled",
        );

        if let Err(e) = &result {
            assert_ne!(
                e.code.as_deref(),
                Some("INVALID_DB_TYPE"),
                "Case '{}' should be recognized as valid MySQL alias",
                db_type
            );
            assert_ne!(
                e.code.as_deref(),
                Some("NOT_IMPLEMENTED"),
                "Case '{}' should not return NOT_IMPLEMENTED",
                db_type
            );
        }
        assert!(matches!(result, Ok(AnyConnection::MariaDb(_))));
    }
}

#[test]
fn test_postgresql_alias() {
    let test_cases = vec!["postgresql", "PostgreSQL", "POSTGRESQL", "postgres", "Postgres"];

    for db_type in test_cases {
        let result = create_connection(
            db_type,
            "localhost",
            5432,
            "postgres",
            "password",
            "test",
            "disabled",
        );

        if let Err(e) = &result {
            assert_ne!(
                e.code.as_deref(),
                Some("INVALID_DB_TYPE"),
                "Case '{}' should be recognized as valid PostgreSQL type",
                db_type
            );
            assert!(
                e.code.as_deref() == Some("CONNECTION_ERROR")
                    || e.code.as_deref() == Some("SSL_ERROR")
                    || e.code.as_deref() == Some("TLS_ERROR"),
                "Case '{}' should return connection error, got: {:?}",
                db_type,
                e.code
            );
        }
        assert!(matches!(result, Ok(AnyConnection::Postgres(_))));
    }
}

#[test]
fn test_invalid_db_type() {
    let invalid_types = vec!["mongodb", "redis", "sqlite", "oracle", "mssql", ""];

    for db_type in invalid_types {
        let result = create_connection(
            db_type,
            "localhost",
            3306,
            "user",
            "password",
            "test",
            "disabled",
        );

        match result {
            Ok(_) => panic!("Invalid type '{}' should return an error", db_type),
            Err(err) => {
                assert_eq!(
                    err.code.as_deref(),
                    Some("INVALID_DB_TYPE"),
                    "Invalid type '{}' should return INVALID_DB_TYPE error code",
                    db_type
                );
                assert!(
                    err.message.contains("Unsupported database type"),
                    "Error message should indicate unsupported type for '{}'",
                    db_type
                );
            }
        }
    }
}

#[test]
fn engine_names_resolve_to_their_variant() {
    for name in ["MySQL", "mariadb", "MARIADB"] {
        assert_eq!(resolve_engine(name).ok(), Some(EngineKind::MariaDb));
    }
    for name in ["Postgres", "postgresql"] {
        assert_eq!(resolve_engine(name).ok(), Some(EngineKind::Postgres));
    }
}

#[test]
fn unsupported_engine_is_reported_with_its_name() {
    let err = resolve_engine("Oracle").unwrap_err();
    assert_eq!(
        err.message,
        "Unsupported database type: 'Oracle'. Supported types: mariadb, mysql, postgresql, postgres"
    );
    assert_eq!(err.code.as_deref(), Some("INVALID_DB_TYPE"));
    assert_eq!(err.detail, None);
    assert_eq!(err.hint, None);
}

#[test]
fn near_misses_are_not_engines() {
    for name in ["maria", "mysql ", " postgres", "postgre", "pg", "mariadb2"] {
        let err = resolve_engine(name).unwrap_err();
        assert_eq!(err.code.as_deref(), Some("INVALID_DB_TYPE"));
    }
}

#[test]
fn lowercase_names_only_are_taken_as_lowercase() {
    assert_eq!(engine_from_lowercase("mysql"), Some(EngineKind::MariaDb));
    assert_eq!(engine_from_lowercase("mariadb"), Some(EngineKind::MariaDb));
    assert_eq!(engine_from_lowercase("postgres"), Some(EngineKind::Postgres));
    assert_eq!(engine_from_lowercase("postgresql"), Some(EngineKind::Postgres));
    assert_eq!(engine_from_lowercase("MySQL"), None);
    assert_eq!(engine_from_lowercase(""), None);
}

#[test]
fn created_connection_starts_in_the_given_database() {
    let conn = create_connection("MySQL", "db.local", 3307, "u", "p", "shop", "preferred").unwrap();
    assert_eq!(conn.engine(), EngineKind::MariaDb);
    assert_eq!(conn.get_current_database().unwrap(), "shop");
    assert_eq!(conn.list_tables(), "SHOW TABLES");
    assert_eq!(conn.list_databases(), "SHOW DATABASES");

    let conn = create_connection("Postgres", "db.local", 5432, "u", "p", "ledger", "required").unwrap();
    assert_eq!(conn.engine(), EngineKind::Postgres);
    assert_eq!(conn.get_current_database().unwrap(), "ledger");
    assert_eq!(
        conn.list_databases(),
        "SELECT datname FROM pg_database WHERE datistemplate = false ORDER BY datname"
    );
}

fn case_variants(name: &str) -> Vec<String> {
    let letters: Vec<char> = name.chars().collect();
    (0..(1u32 << letters.len()))
        .map(|mask| {
            letters
                .iter()
                .enumerate()
                .map(|(i, c)| if mask >> i & 1 == 1 { c.to_ascii_uppercase() } else { *c })
                .collect()
        })
        .collect()
}

#[test]
fn every_letter_case_of_an_engine_name_resolves() {
    for name in ["mariadb", "mysql"] {
        for variant in case_variants(name) {
            assert_eq!(resolve_engine(&variant).ok(), Some(EngineKind::MariaDb), "{variant}");
        }
    }
    for name in ["postgresql", "postgres"] {
        for variant in case_variants(name) {
            assert_eq!(resolve_engine(&variant).ok(), Some(EngineKind::Postgres), "{variant}");
        }
    }
}

#[test]
fn names_outside_ascii_are_not_engines() {
    for name in ["mÿsql", "MYSQ\u{212a}", "postgrés", "ｍｙｓｑｌ", "mariadb\u{0307}"] {
        let err = resolve_engine(name).unwrap_err();
        assert_eq!(err.code.as_deref(), Some("INVALID_DB_TYPE"));
        assert!(err.message.contains(name));
    }
}
