use db_access::connection::{DatabaseConnection, Failure, RealValue};
use db_access::mariadb::{
    column_from_row, columns_from_rows, escape_identifier, escape_string,
    format_insert_statement, mysql_page_to_literals, mysql_row_to_json, mysql_row_to_literals,
    mysql_value_json, mysql_value_sql, mysql_value_to_json, mysql_value_to_sql,
    relationship_from_row, MariaDbConnection, MysqlValue, RowCollector,
};

fn text(s: &str) -> MysqlValue {
    MysqlValue::Bytes(s.as_bytes().to_vec())
}

fn real_value(value: f64) -> RealValue {
    RealValue { json: serde_json::Value::from(value), text: value.to_string() }
}

fn connection() -> MariaDbConnection {
    MariaDbConnection::new("localhost", 3306, "root", "secret", "shop", "preferred")
}

#[test]
fn mariadb_identifiers_have_backticks_doubled() {
    assert_eq!(escape_identifier("users"), "users");
    assert_eq!(escape_identifier("odd`name"), "odd``name");
    assert_eq!(escape_identifier("`"), "``");
    assert_eq!(escape_identifier("a\"b'c"), "a\"b'c");
}

#[test]
fn mariadb_strings_have_quotes_and_backslashes_doubled() {
    assert_eq!(escape_string("plain"), "plain");
    assert_eq!(escape_string("it's"), "it''s");
    assert_eq!(escape_string("a\\b"), "a\\\\b");
    assert_eq!(escape_string("'\\'"), "''\\\\''");
    for s in ["", "x", "O'Brien \\ co", "\\\\", "''"] {
        assert_eq!(escape_string(s), s.replace('\'', "''").replace('\\', "\\\\"));
    }
}

#[test]
fn mariadb_null_maps_to_json_null_and_sql_null() {
    assert_eq!(mysql_value_to_json(MysqlValue::Null), serde_json::Value::Null);
    assert_eq!(mysql_value_to_sql(MysqlValue::Null), "NULL");
}

#[test]
fn mariadb_bytes_map_to_text() {
    assert_eq!(mysql_value_to_json(text("héllo")), serde_json::Value::String("héllo".to_string()));
    assert_eq!(mysql_value_to_sql(text("it's")), "'it''s'");
    assert_eq!(mysql_value_to_sql(text("")), "''");
    assert_eq!(mysql_value_to_sql(text("null")), "'null'");
}

#[test]
fn mariadb_malformed_bytes_are_repaired() {
    let bytes = MysqlValue::Bytes(vec![0x61, 0xff, 0x62]);
    assert_eq!(
        mysql_value_to_json(bytes.clone()),
        serde_json::Value::String("a\u{fffd}b".to_string())
    );
    assert_eq!(mysql_value_to_sql(bytes), "'a\u{fffd}b'");
}

#[test]
fn mariadb_integers_map_to_numbers() {
    assert_eq!(mysql_value_to_json(MysqlValue::Int(-5)), serde_json::Value::from(-5i64));
    assert_eq!(mysql_value_to_json(MysqlValue::Int(i64::MIN)), serde_json::Value::from(i64::MIN));
    assert_eq!(mysql_value_to_json(MysqlValue::UInt(u64::MAX)), serde_json::Value::from(u64::MAX));
    assert_eq!(mysql_value_to_json(MysqlValue::UInt(7)), serde_json::Value::from(7i64));
    assert_eq!(mysql_value_to_sql(MysqlValue::Int(-5)), "-5");
    assert_eq!(mysql_value_to_sql(MysqlValue::Int(i64::MIN)), "-9223372036854775808");
    assert_eq!(mysql_value_to_sql(MysqlValue::UInt(u64::MAX)), "18446744073709551615");
}

#[test]
fn mariadb_reals_pass_on_their_renderings() {
    assert_eq!(mysql_value_to_json(MysqlValue::Double(real_value(1.5))), serde_json::Value::from(1.5f64));
    assert_eq!(mysql_value_to_sql(MysqlValue::Double(real_value(1.5))), "1.5");
    let not_finite = RealValue { json: serde_json::Value::from(f64::NAN), text: f64::NAN.to_string() };
    assert_eq!(mysql_value_to_json(MysqlValue::Float(not_finite.clone())), serde_json::Value::Null);
    assert_eq!(mysql_value_to_sql(MysqlValue::Float(not_finite)), "NaN");
}

#[test]
fn mariadb_dates_and_times_are_fixed_width() {
    let date = MysqlValue::Date(2024, 1, 5, 7, 8, 9, 123_456);
    assert_eq!(
        mysql_value_to_json(date.clone()),
        serde_json::Value::String("2024-01-05 07:08:09".to_string())
    );
    assert_eq!(mysql_value_to_sql(date), "'2024-01-05 07:08:09'");
    let early = MysqlValue::Date(5, 12, 31, 23, 59, 59, 0);
    assert_eq!(mysql_value_to_sql(early), "'0005-12-31 23:59:59'");
    let zero = MysqlValue::Date(0, 0, 0, 0, 0, 0, 0);
    assert_eq!(mysql_value_to_sql(zero), "'0000-00-00 00:00:00'");
    let time = MysqlValue::Time(true, 2, 7, 8, 9, 5);
    assert_eq!(mysql_value_to_json(time.clone()), serde_json::Value::String("07:08:09".to_string()));
    assert_eq!(mysql_value_to_sql(time), "'07:08:09'");
    let long = MysqlValue::Time(false, 0, 255, 0, 0, 0);
    assert_eq!(mysql_value_to_sql(long), "'255:00:00'");
}

#[test]
fn mariadb_codec_by_reference_agrees_with_codec_by_value() {
    let values = vec![
        MysqlValue::Null,
        text("a'b"),
        MysqlValue::Int(-1),
        MysqlValue::UInt(1),
        MysqlValue::Double(real_value(0.25)),
        MysqlValue::Date(1999, 12, 31, 1, 2, 3, 0),
        MysqlValue::Time(false, 0, 1, 2, 3, 0),
    ];
    for v in values {
        assert_eq!(mysql_value_json(&v), mysql_value_to_json(v.clone()));
        assert_eq!(mysql_value_sql(&v), mysql_value_to_sql(v));
    }
}

#[test]
fn mariadb_insert_statement_follows_the_data_mode() {
    let columns = vec!["id".to_string(), "na`me".to_string()];
    let rows = vec![
        vec!["1".to_string(), "'a'".to_string()],
        vec!["2".to_string(), "NULL".to_string()],
    ];
    assert_eq!(
        format_insert_statement("users", &columns, &rows, "insert"),
        "INSERT INTO `users` (`id`, `na``me`) VALUES\n  (1, 'a'),\n  (2, NULL);\n"
    );
    assert_eq!(
        format_insert_statement("users", &columns, &rows, "replace"),
        "REPLACE INTO `users` (`id`, `na``me`) VALUES\n  (1, 'a'),\n  (2, NULL);\n"
    );
    assert_eq!(
        format_insert_statement("users", &columns, &rows, "insert_ignore"),
        "INSERT IGNORE INTO `users` (`id`, `na``me`) VALUES\n  (1, 'a'),\n  (2, NULL);\n"
    );
    assert_eq!(
        format_insert_statement("us`ers", &columns, &rows[..1], "anything else"),
        "INSERT INTO `us``ers` (`id`, `na``me`) VALUES\n  (1, 'a');\n"
    );
}

#[test]
fn mariadb_row_literals_fill_missing_cells_with_null() {
    let row = vec![MysqlValue::Int(1), text("x")];
    assert_eq!(mysql_row_to_literals(3, &row), vec!["1", "'x'", "NULL"]);
    assert_eq!(mysql_row_to_literals(1, &row), vec!["1"]);
    assert_eq!(mysql_row_to_literals(0, &row), Vec::<String>::new());
    let page = vec![row, vec![MysqlValue::Null, MysqlValue::UInt(2)]];
    assert_eq!(
        mysql_page_to_literals(2, &page),
        vec![vec!["1".to_string(), "'x'".to_string()], vec!["NULL".to_string(), "2".to_string()]]
    );
}

#[test]
fn mariadb_row_becomes_an_object_keyed_by_column() {
    let columns = vec!["id".to_string(), "name".to_string(), "extra".to_string()];
    let row = vec![MysqlValue::Int(7), text("Ann")];
    let json = mysql_row_to_json(&columns, &row);
    let mut expected = serde_json::Map::new();
    expected.insert("id".to_string(), serde_json::Value::from(7));
    expected.insert("name".to_string(), serde_json::Value::from("Ann"));
    expected.insert("extra".to_string(), serde_json::Value::Null);
    assert_eq!(json, serde_json::Value::Object(expected));
}

#[test]
fn mariadb_later_column_of_the_same_name_wins() {
    let columns = vec!["a".to_string(), "a".to_string()];
    let row = vec![MysqlValue::Int(1), MysqlValue::Int(2)];
    let json = mysql_row_to_json(&columns, &row);
    let object = json.as_object().unwrap();
    assert_eq!(object.len(), 1);
    assert_eq!(object.get("a"), Some(&serde_json::Value::from(2)));
}

#[test]
fn mariadb_rows_up_to_the_cap_are_all_kept() {
    let mut collector = RowCollector::new(vec!["n".to_string()]);
    for i in 0..10_000i64 {
        collector.push_row(&[MysqlValue::Int(i)]);
    }
    assert_eq!(collector.row_count(), 10_000);
    let result = collector.finish(12);
    assert_eq!(result.row_count, 10_000);
    assert_eq!(result.rows.len(), 10_000);
    assert!(!result.truncated);
    assert_eq!(result.execution_time, 12);
    assert_eq!(result.columns, vec!["n"]);
    assert_eq!(result.rows[0]["n"], serde_json::Value::from(0));
    assert_eq!(result.rows[9_999]["n"], serde_json::Value::from(9_999));
}

#[test]
fn mariadb_rows_beyond_the_cap_are_counted_only() {
    let mut collector = RowCollector::new(vec!["n".to_string()]);
    for i in 0..10_003i64 {
        collector.push_row(&[MysqlValue::Int(i)]);
    }
    let result = collector.finish(0);
    assert_eq!(result.row_count, 10_003);
    assert_eq!(result.rows.len(), 10_000);
    assert!(result.truncated);
    assert_eq!(result.rows[9_999]["n"], serde_json::Value::from(9_999));
}

#[test]
fn mariadb_empty_result_is_not_truncated() {
    let result = RowCollector::new(vec![]).finish(3);
    assert_eq!(result.row_count, 0);
    assert!(result.rows.is_empty());
    assert!(!result.truncated);
}

#[test]
fn mariadb_catalog_row_describes_a_column() {
    let row = vec![
        text("id"),
        text("int(11)"),
        text("NO"),
        text("PRI"),
        MysqlValue::Null,
        MysqlValue::Null,
        MysqlValue::UInt(10),
    ];
    let column = column_from_row(&row);
    assert_eq!(column.name, "id");
    assert_eq!(column.data_type, "int(11)");
    assert!(!column.is_nullable);
    assert!(column.is_primary_key);
    assert_eq!(column.column_default, None);
    assert_eq!(column.character_maximum_length, None);
    assert_eq!(column.numeric_precision, Some(10));

    let row = vec![
        text("name"),
        text("varchar(255)"),
        text("YES"),
        text(""),
        text("'x'"),
        MysqlValue::Int(255),
        MysqlValue::Null,
    ];
    let column = column_from_row(&row);
    assert_eq!(column.name, "name");
    assert!(column.is_nullable);
    assert!(!column.is_primary_key);
    assert_eq!(column.column_default.as_deref(), Some("'x'"));
    assert_eq!(column.character_maximum_length, Some(255));
    assert_eq!(column.numeric_precision, None);
}

#[test]
fn mariadb_catalog_cells_of_another_kind_read_as_nothing() {
    let row = vec![MysqlValue::Int(1), MysqlValue::Null, text("yes")];
    let column = column_from_row(&row);
    assert_eq!(column.name, "");
    assert_eq!(column.data_type, "");
    assert!(!column.is_nullable);
    assert!(!column.is_primary_key);
    assert_eq!(column.column_default, None);
    assert_eq!(column.character_maximum_length, None);

    let row = vec![
        text("n"),
        text("bigint"),
        text("NO"),
        text("MUL"),
        MysqlValue::Int(5),
        MysqlValue::UInt(u64::MAX),
        text("10"),
    ];
    let column = column_from_row(&row);
    assert_eq!(column.column_default, None);
    assert_eq!(column.character_maximum_length, Some(-1));
    assert_eq!(column.numeric_precision, None);
}

#[test]
fn mariadb_only_the_key_column_is_flagged_as_primary_key() {
    let rows = vec![
        vec![text("a"), text("int"), text("NO"), text("")],
        vec![text("b"), text("int"), text("NO"), text("PRI")],
        vec![text("c"), text("int"), text("YES"), text("UNI")],
        vec![text("d"), text("int"), text("YES"), text("pri")],
    ];
    let columns = columns_from_rows(&rows);
    let flags: Vec<bool> = columns.iter().map(|c| c.is_primary_key).collect();
    assert_eq!(flags, vec![false, true, false, false]);
    let names: Vec<&str> = columns.iter().map(|c| c.name.as_str()).collect();
    assert_eq!(names, vec!["a", "b", "c", "d"]);
}

#[test]
fn mariadb_relationship_row_describes_an_edge() {
    let edge = relationship_from_row(
        Some("orders".to_string()),
        Some("user_id".to_string()),
        Some("users".to_string()),
        Some("id".to_string()),
        None,
    );
    assert_eq!(edge.from_table, "orders");
    assert_eq!(edge.from_column, "user_id");
    assert_eq!(edge.to_table, "users");
    assert_eq!(edge.to_column, "id");
    assert_eq!(edge.constraint_name, "");
}

#[test]
fn mariadb_update_binds_the_value_and_the_key() {
    let update = connection().update_cell("t`x", "c", Some("it's"), "id", "7");
    assert_eq!(update.statement, "UPDATE `t``x` SET `c` = ? WHERE `id` = ?");
    assert_eq!(update.parameters, vec!["it's", "7"]);
    assert_eq!(update.logged_query, "UPDATE `t``x` SET `c` = 'it''s' WHERE `id` = '7'");
}

#[test]
fn mariadb_update_to_null_sets_null_in_the_statement() {
    let update = connection().update_cell("t", "c", None, "id", "7");
    assert_eq!(update.statement, "UPDATE `t` SET `c` = NULL WHERE `id` = ?");
    assert_eq!(update.parameters, vec!["7"]);
    assert_eq!(update.logged_query, "UPDATE `t` SET `c` = NULL WHERE `id` = '7'");
    assert!(!update.parameters.iter().any(|p| p.eq_ignore_ascii_case("null")));
}

#[test]
fn mariadb_update_with_the_text_null_binds_it_as_data() {
    let update = connection().update_cell("t", "c", Some("null"), "id", "7");
    assert_eq!(update.statement, "UPDATE `t` SET `c` = ? WHERE `id` = ?");
    assert_eq!(update.parameters, vec!["null", "7"]);
    assert_eq!(update.logged_query, "UPDATE `t` SET `c` = 'null' WHERE `id` = '7'");
}

#[test]
fn mariadb_update_outcome_is_the_logged_statement_or_the_error() {
    let update = connection().update_cell("t", "c", Some("v"), "id", "1");
    let logged = update.logged_query.clone();
    assert_eq!(MariaDbConnection::update_cell_outcome(update.clone(), Ok(())).unwrap(), logged);

    let err = MariaDbConnection::update_cell_outcome(
        update.clone(),
        Err(Failure::Error("Duplicate entry".to_string())),
    )
    .unwrap_err();
    assert_eq!(err.message, "Duplicate entry");
    assert_eq!(err.code.as_deref(), Some("QUERY_ERROR"));

    let err = MariaDbConnection::update_cell_outcome(update, Err(Failure::Timeout)).unwrap_err();
    assert_eq!(err.message, "Update timed out");
    assert_eq!(err.code.as_deref(), Some("TIMEOUT_ERROR"));
}

#[test]
fn mariadb_change_of_database_is_seen_by_later_operations() {
    let mut conn = connection();
    assert_eq!(conn.get_current_database().unwrap(), "shop");
    assert_eq!(conn.use_current_database(), "USE `shop`");
    assert_eq!(MariaDbConnection::use_database("new`db"), "USE `new``db`");

    assert!(conn.change_database("archive", Ok(())).is_ok());
    assert_eq!(conn.get_current_database().unwrap(), "archive");
    assert_eq!(conn.use_current_database(), "USE `archive`");
}

#[test]
fn mariadb_failed_change_of_database_changes_nothing() {
    let mut conn = connection();
    let err = conn
        .change_database("missing", Err(Failure::Error("Unknown database 'missing'".to_string())))
        .unwrap_err();
    assert_eq!(err.message, "Unknown database 'missing'");
    assert_eq!(err.code.as_deref(), Some("QUERY_ERROR"));
    assert_eq!(conn.get_current_database().unwrap(), "shop");

    let err = conn.change_database("slow", Err(Failure::Timeout)).unwrap_err();
    assert_eq!(err.message, "Query timed out");
    assert_eq!(err.code.as_deref(), Some("TIMEOUT_ERROR"));
    assert_eq!(conn.use_current_database(), "USE `shop`");
}
