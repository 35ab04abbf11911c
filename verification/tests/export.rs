use db_access::connection::DatabaseConnection;
use db_access::export::{copy_texts, push_page, ExportJob, ExportRequest, ExportStage};
use db_access::factory::EngineKind;
use db_access::mariadb::{MariaDbConnection, MysqlValue};
use db_access::postgresql::{PgCell, PgCreateRow, PgDatum, PgType, PostgresConnection};

fn mariadb() -> MariaDbConnection {
    MariaDbConnection::new("localhost", 3306, "root", "", "shop", "disabled")
}

fn postgres() -> PostgresConnection {
    PostgresConnection::new("localhost", 5432, "postgres", "", "ledger", "disabled")
}

fn numbers(from: i64, count: i64) -> Vec<Vec<MysqlValue>> {
    (from..from + count).map(|i| vec![MysqlValue::Int(i)]).collect()
}

fn sql_of(request: &ExportRequest) -> &str {
    match request {
        ExportRequest::ListTables { sql } => sql,
        ExportRequest::DescribeTable { sql, .. } => sql,
        ExportRequest::FetchPage { sql } => sql,
        ExportRequest::Finished => "",
    }
}

#[test]
fn seven_rows_in_batches_of_three() {
    let columns = vec!["id".to_string()];
    let rows: Vec<Vec<String>> = (1..=7).map(|i| vec![i.to_string()]).collect();
    let mut out = String::new();
    push_page(&mut out, EngineKind::MariaDb, "t", &columns, &[], &rows, "insert", 3);
    assert_eq!(
        out,
        "INSERT INTO `t` (`id`) VALUES\n  (1),\n  (2),\n  (3);\n\
         INSERT INTO `t` (`id`) VALUES\n  (4),\n  (5),\n  (6);\n\
         INSERT INTO `t` (`id`) VALUES\n  (7);\n"
    );
    let sizes: Vec<usize> = out
        .split("INSERT INTO")
        .skip(1)
        .map(|statement| statement.matches("\n  (").count())
        .collect();
    assert_eq!(sizes, vec![3, 3, 1]);
}

#[test]
fn batches_at_the_edges_of_the_batch_size() {
    let columns = vec!["id".to_string()];
    let rows: Vec<Vec<String>> = (1..=6).map(|i| vec![i.to_string()]).collect();
    let count = |max: usize, n: usize| {
        let mut out = String::new();
        push_page(&mut out, EngineKind::Postgres, "t", &columns, &[], &rows[..n], "insert", max);
        out.matches("INSERT INTO").count()
    };
    assert_eq!(count(3, 0), 0);
    assert_eq!(count(3, 1), 1);
    assert_eq!(count(3, 3), 1);
    assert_eq!(count(3, 4), 2);
    assert_eq!(count(3, 6), 2);
    assert_eq!(count(1, 6), 6);
    assert_eq!(count(0, 6), 6);
    assert_eq!(count(6, 6), 1);
    assert_eq!(count(100, 6), 1);
    assert_eq!(count(usize::MAX, 6), 1);
}

#[test]
fn batch_size_zero_writes_one_row_per_statement() {
    let columns = vec!["id".to_string()];
    let rows: Vec<Vec<String>> = (1..=2).map(|i| vec![i.to_string()]).collect();
    let mut out = String::from("-- data\n");
    push_page(&mut out, EngineKind::Postgres, "t", &columns, &[], &rows, "insert_ignore", 0);
    assert_eq!(
        out,
        "-- data\nINSERT INTO \"t\" (\"id\") VALUES\n  (1) ON CONFLICT DO NOTHING;\n\
         INSERT INTO \"t\" (\"id\") VALUES\n  (2) ON CONFLICT DO NOTHING;\n"
    );
}

#[test]
fn every_batch_of_a_page_names_the_conflict_target() {
    let columns = vec!["id".to_string(), "v".to_string()];
    let keys = vec!["id".to_string()];
    let rows: Vec<Vec<String>> = (1..=3).map(|i| vec![i.to_string(), "'x'".to_string()]).collect();
    let mut out = String::new();
    push_page(&mut out, EngineKind::Postgres, "t", &columns, &keys, &rows, "replace", 2);
    assert_eq!(
        out,
        "INSERT INTO \"t\" (\"id\", \"v\") VALUES\n  (1, 'x'),\n  (2, 'x') ON CONFLICT (\"id\") DO UPDATE SET \"id\" = EXCLUDED.\"id\", \"v\" = EXCLUDED.\"v\";\n\
         INSERT INTO \"t\" (\"id\", \"v\") VALUES\n  (3, 'x') ON CONFLICT (\"id\") DO UPDATE SET \"id\" = EXCLUDED.\"id\", \"v\" = EXCLUDED.\"v\";\n"
    );
    let mut out = String::new();
    push_page(&mut out, EngineKind::MariaDb, "t", &columns, &keys, &rows[..1], "replace", 2);
    assert_eq!(out, "REPLACE INTO `t` (`id`, `v`) VALUES\n  (1, 'x');\n");
}

fn export_users(max_insert_size: usize) -> String {
    let (mut job, request) =
        mariadb().export_database_with_options(true, true, "insert", &[], max_insert_size);
    assert!(matches!(request, ExportRequest::ListTables { .. }));
    let request = job.tables_listed(vec!["users".to_string()]);
    assert!(matches!(request, ExportRequest::DescribeTable { .. }));
    let request = job.create_statement_shown(Some("CREATE TABLE `users` (`id` int)".to_string()));
    assert!(matches!(request, ExportRequest::FetchPage { .. }));
    let request =
        db_access::mariadb::export_page_fetched(&mut job, &["id".to_string()], &numbers(1, 7));
    assert!(matches!(request, ExportRequest::Finished));
    job.finish()
}

#[test]
fn mariadb_export_writes_each_part_in_order() {
    let (mut job, request) = mariadb().export_database_with_options(true, true, "insert", &[], 3);
    assert_eq!(job.stage(), ExportStage::AwaitTables);
    match &request {
        ExportRequest::ListTables { sql } => assert_eq!(sql, "SHOW TABLES"),
        other => panic!("unexpected request {:?}", other),
    }

    let request = job.tables_listed(vec!["users".to_string()]);
    assert_eq!(job.stage(), ExportStage::AwaitCreate);
    match &request {
        ExportRequest::DescribeTable { sql, parameters } => {
            assert_eq!(sql, "SHOW CREATE TABLE `users`");
            assert!(parameters.is_empty());
        }
        other => panic!("unexpected request {:?}", other),
    }

    let request = job.create_statement_shown(Some("CREATE TABLE `users` (`id` int)".to_string()));
    assert_eq!(job.stage(), ExportStage::AwaitPage);
    assert_eq!(job.offset(), 0);
    assert_eq!(sql_of(&request), "SELECT * FROM `users` LIMIT 10000 OFFSET 0");

    let request =
        db_access::mariadb::export_page_fetched(&mut job, &["id".to_string()], &numbers(1, 7));
    assert!(matches!(request, ExportRequest::Finished));
    assert_eq!(job.stage(), ExportStage::Done);
    assert_eq!(
        job.finish(),
        "\n-- Table: users\n\
         DROP TABLE IF EXISTS `users`;\n\
         CREATE TABLE `users` (`id` int);\n\n\
         INSERT INTO `users` (`id`) VALUES\n  (1),\n  (2),\n  (3);\n\
         INSERT INTO `users` (`id`) VALUES\n  (4),\n  (5),\n  (6);\n\
         INSERT INTO `users` (`id`) VALUES\n  (7);\n\
         \n"
    );
}

#[test]
fn exporting_twice_gives_the_same_bytes() {
    assert_eq!(export_users(3), export_users(3));
    assert_eq!(export_users(0), export_users(0));
    assert_ne!(export_users(3), export_users(4));
}

#[test]
fn full_page_asks_for_the_next_page() {
    let tables = vec!["big`one".to_string()];
    let (mut job, request) =
        mariadb().export_database_with_options(false, false, "replace", &tables, 5_000);
    assert_eq!(job.stage(), ExportStage::AwaitPage);
    assert_eq!(sql_of(&request), "SELECT * FROM `big``one` LIMIT 10000 OFFSET 0");

    let columns = vec!["n".to_string()];
    let request = db_access::mariadb::export_page_fetched(&mut job, &columns, &numbers(0, 10_000));
    assert_eq!(job.stage(), ExportStage::AwaitPage);
    assert_eq!(job.offset(), 10_000);
    assert_eq!(sql_of(&request), "SELECT * FROM `big``one` LIMIT 10000 OFFSET 10000");

    let request = db_access::mariadb::export_page_fetched(&mut job, &columns, &numbers(10_000, 10_000));
    assert_eq!(job.offset(), 20_000);
    assert_eq!(sql_of(&request), "SELECT * FROM `big``one` LIMIT 10000 OFFSET 20000");

    let request = db_access::mariadb::export_page_fetched(&mut job, &columns, &[]);
    assert!(matches!(request, ExportRequest::Finished));
    let dump = job.finish();
    assert!(dump.starts_with("\n-- Table: big`one\nREPLACE INTO `big``one` (`n`) VALUES\n  (0),\n  (1),"));
    assert!(dump.ends_with("  (19999);\n\n"));
    assert_eq!(dump.matches("REPLACE INTO").count(), 4);
    assert_eq!(dump.matches("\n  (").count(), 20_000);
}

#[test]
fn empty_table_writes_no_statement() {
    let tables = vec!["empty".to_string()];
    let (mut job, _) = mariadb().export_database_with_options(false, false, "insert", &tables, 100);
    let request = db_access::mariadb::export_page_fetched(&mut job, &[], &[]);
    assert!(matches!(request, ExportRequest::Finished));
    assert_eq!(job.finish(), "\n-- Table: empty\n\n");
}

#[test]
fn no_data_mode_asks_for_no_page() {
    let tables = vec!["a".to_string(), "b".to_string()];
    let (mut job, request) =
        mariadb().export_database_with_options(true, true, "no_data", &tables, 100);
    assert_eq!(sql_of(&request), "SHOW CREATE TABLE `a`");
    let request = job.create_statement_shown(Some("CREATE TABLE `a` (x int)".to_string()));
    assert_eq!(sql_of(&request), "SHOW CREATE TABLE `b`");
    let request = job.create_statement_shown(None);
    assert!(matches!(request, ExportRequest::Finished));
    assert_eq!(
        job.finish(),
        "\n-- Table: a\nDROP TABLE IF EXISTS `a`;\nCREATE TABLE `a` (x int);\n\n\
         \n-- Table: b\nDROP TABLE IF EXISTS `b`;\n"
    );
}

#[test]
fn tables_without_requests_are_written_at_once() {
    let tables = vec!["a".to_string(), "b".to_string(), "c".to_string()];
    let (job, request) = mariadb().export_database_with_options(true, false, "no_data", &tables, 1);
    assert!(matches!(request, ExportRequest::Finished));
    assert_eq!(job.stage(), ExportStage::Done);
    assert_eq!(
        job.finish(),
        "\n-- Table: a\nDROP TABLE IF EXISTS `a`;\n\
         \n-- Table: b\nDROP TABLE IF EXISTS `b`;\n\
         \n-- Table: c\nDROP TABLE IF EXISTS `c`;\n"
    );

    let (job, request) = mariadb().export_database_with_options(false, false, "no_data", &tables[..1], 1);
    assert!(matches!(request, ExportRequest::Finished));
    assert_eq!(job.finish(), "\n-- Table: a\n");
}

#[test]
fn listing_no_tables_finishes_with_an_empty_dump() {
    let (mut job, _) = mariadb().export_database_with_options(true, true, "insert", &[], 1);
    let request = job.tables_listed(vec![]);
    assert!(matches!(request, ExportRequest::Finished));
    assert_eq!(job.finish(), "");
}

#[test]
fn selected_tables_are_written_in_the_order_given() {
    let tables = vec!["zebra".to_string(), "apple".to_string()];
    let (mut job, request) =
        mariadb().export_database_with_options(false, false, "insert", &tables, 10);
    assert_eq!(sql_of(&request), "SELECT * FROM `zebra` LIMIT 10000 OFFSET 0");
    assert_eq!(job.current_table(), "zebra");
    let request = db_access::mariadb::export_page_fetched(&mut job, &["id".to_string()], &numbers(1, 1));
    assert_eq!(sql_of(&request), "SELECT * FROM `apple` LIMIT 10000 OFFSET 0");
    assert_eq!(job.current_table(), "apple");
    let request = db_access::mariadb::export_page_fetched(&mut job, &["id".to_string()], &numbers(2, 1));
    assert!(matches!(request, ExportRequest::Finished));
    assert_eq!(
        job.finish(),
        "\n-- Table: zebra\nINSERT INTO `zebra` (`id`) VALUES\n  (1);\n\n\
         \n-- Table: apple\nINSERT INTO `apple` (`id`) VALUES\n  (2);\n\n"
    );
}

const DESCRIBE_SQL: &str = "SELECT c.column_name, c.data_type, c.character_maximum_length, c.is_nullable, c.column_default, CASE WHEN pk.column_name IS NOT NULL THEN true ELSE false END AS is_primary FROM information_schema.columns c LEFT JOIN (SELECT ku.column_name FROM information_schema.table_constraints tc JOIN information_schema.key_column_usage ku ON tc.constraint_name = ku.constraint_name AND tc.table_schema = ku.table_schema WHERE tc.constraint_type = 'PRIMARY KEY' AND tc.table_name = $1 AND tc.table_schema = 'public') pk ON c.column_name = pk.column_name WHERE c.table_name = $1 AND c.table_schema = 'public' ORDER BY c.ordinal_position";

fn catalog_row(name: &str, primary: bool) -> PgCreateRow {
    PgCreateRow {
        name: Some(name.to_string()),
        data_type: Some("integer".to_string()),
        character_maximum_length: Some(None),
        is_nullable: Some(if primary { "NO" } else { "YES" }.to_string()),
        column_default: Some(None),
        is_primary_key: Some(primary),
    }
}

fn int_cell(value: Option<i32>) -> PgCell {
    PgCell {
        column_type: PgType::Int4,
        datum: value.map(PgDatum::Int4).unwrap_or(PgDatum::Absent),
    }
}

#[test]
fn postgres_export_rebuilds_create_and_cascades_drop() {
    let (mut job, request) = postgres().export_database_with_options(true, true, "replace", &[], 2);
    assert_eq!(
        sql_of(&request),
        "SELECT table_name FROM information_schema.tables WHERE table_schema = 'public' AND table_type = 'BASE TABLE' ORDER BY table_name"
    );
    let request = job.tables_listed(vec!["us\"ers".to_string()]);
    match &request {
        ExportRequest::DescribeTable { sql, parameters } => {
            assert_eq!(sql, DESCRIBE_SQL);
            assert_eq!(parameters, &vec!["us\"ers".to_string()]);
        }
        other => panic!("unexpected request {:?}", other),
    }
    let catalog = vec![catalog_row("id", true), catalog_row("n", false)];
    let request = db_access::postgresql::export_columns_described(&mut job, &catalog);
    assert_eq!(sql_of(&request), "SELECT * FROM \"us\"\"ers\" LIMIT 10000 OFFSET 0");
    let columns = vec!["id".to_string(), "n".to_string()];
    let rows = vec![
        vec![int_cell(Some(1)), int_cell(Some(10))],
        vec![int_cell(Some(2)), int_cell(None)],
        vec![int_cell(Some(3)), int_cell(Some(-30))],
    ];
    let request = db_access::postgresql::export_page_fetched(&mut job, &columns, &rows);
    assert!(matches!(request, ExportRequest::Finished));
    assert_eq!(
        job.finish(),
        "\n-- Table: us\"ers\n\
         DROP TABLE IF EXISTS \"us\"\"ers\" CASCADE;\n\
         CREATE TABLE \"us\"\"ers\" (\n  \"id\" INTEGER NOT NULL,\n  \"n\" INTEGER\n);\n\n\
         INSERT INTO \"us\"\"ers\" (\"id\", \"n\") VALUES\n  (1, 10),\n  (2, NULL) ON CONFLICT (\"id\") DO UPDATE SET \"id\" = EXCLUDED.\"id\", \"n\" = EXCLUDED.\"n\";\n\
         INSERT INTO \"us\"\"ers\" (\"id\", \"n\") VALUES\n  (3, -30) ON CONFLICT (\"id\") DO UPDATE SET \"id\" = EXCLUDED.\"id\", \"n\" = EXCLUDED.\"n\";\n\
         \n"
    );
}

#[test]
fn postgres_replace_asks_for_the_key_even_without_create() {
    let tables = vec!["a".to_string(), "b".to_string()];
    let (mut job, request) = postgres().export_database_with_options(false, false, "replace", &tables, 10);
    assert_eq!(job.stage(), ExportStage::AwaitCreate);
    assert!(!job.include_create());
    match &request {
        ExportRequest::DescribeTable { sql, parameters } => {
            assert_eq!(sql, DESCRIBE_SQL);
            assert_eq!(parameters, &vec!["a".to_string()]);
        }
        other => panic!("unexpected request {:?}", other),
    }
    let request = db_access::postgresql::export_columns_described(
        &mut job,
        &[catalog_row("x", true), catalog_row("y", true), catalog_row("z", false)],
    );
    assert_eq!(sql_of(&request), "SELECT * FROM \"a\" LIMIT 10000 OFFSET 0");
    let columns = vec!["x".to_string(), "y".to_string(), "z".to_string()];
    let request = db_access::postgresql::export_page_fetched(
        &mut job,
        &columns,
        &[vec![int_cell(Some(1)), int_cell(Some(2)), int_cell(Some(3))]],
    );
    assert!(matches!(request, ExportRequest::DescribeTable { .. }));

    let request = db_access::postgresql::export_columns_described(&mut job, &[catalog_row("k", false)]);
    assert_eq!(sql_of(&request), "SELECT * FROM \"b\" LIMIT 10000 OFFSET 0");
    let request = db_access::postgresql::export_page_fetched(
        &mut job,
        &["k".to_string()],
        &[vec![int_cell(Some(7))]],
    );
    assert!(matches!(request, ExportRequest::Finished));
    assert_eq!(
        job.finish(),
        "\n-- Table: a\n\
         INSERT INTO \"a\" (\"x\", \"y\", \"z\") VALUES\n  (1, 2, 3) ON CONFLICT (\"x\", \"y\") DO UPDATE SET \"x\" = EXCLUDED.\"x\", \"y\" = EXCLUDED.\"y\", \"z\" = EXCLUDED.\"z\";\n\
         \n\
         \n-- Table: b\n\
         INSERT INTO \"b\" (\"k\") VALUES\n  (7);\n\
         \n"
    );
}

#[test]
fn other_modes_need_no_description_without_create() {
    let tables = vec!["a".to_string()];
    for mode in ["insert", "insert_ignore"] {
        let (job, request) = postgres().export_database_with_options(false, false, mode, &tables, 10);
        assert_eq!(job.stage(), ExportStage::AwaitPage);
        assert_eq!(sql_of(&request), "SELECT * FROM \"a\" LIMIT 10000 OFFSET 0");
    }
    let (job, request) = mariadb().export_database_with_options(false, false, "replace", &tables, 10);
    assert_eq!(job.stage(), ExportStage::AwaitPage);
    assert_eq!(sql_of(&request), "SELECT * FROM `a` LIMIT 10000 OFFSET 0");
}

#[test]
fn job_can_be_started_for_either_engine() {
    let (job, request) = ExportJob::begin(EngineKind::Postgres, false, false, "insert", &[], 1);
    assert_eq!(job.stage(), ExportStage::AwaitTables);
    assert!(matches!(request, ExportRequest::ListTables { .. }));
    assert_eq!(job.finish(), "");
    assert_eq!(copy_texts(&["a".to_string(), "b".to_string()]), vec!["a", "b"]);
}

#[test]
fn failed_request_ends_the_export_with_the_error() {
    let tables = vec!["users".to_string()];
    let (mut job, _) = mariadb().export_database_with_options(true, false, "insert", &tables, 10);
    let request = db_access::mariadb::export_page_fetched(&mut job, &["id".to_string()], &numbers(0, 10_000));
    assert!(matches!(request, ExportRequest::FetchPage { .. }));
    let error = job.abort("Table 'shop.users' doesn't exist".to_string());
    assert_eq!(error.message, "Table 'shop.users' doesn't exist");
    assert_eq!(error.code.as_deref(), Some("QUERY_ERROR"));
    assert_eq!(error.detail, None);
    assert_eq!(error.hint, None);
}
