//! The MariaDB / MySQL dialect: escaping, the value codec and the statements
//! that the driver sends.

use vstd::prelude::*;
use crate::connection::{
    failure_view, optional_text, CellUpdate, CellUpdateView, DatabaseConnection, DbResult,
    Failure, QueryResult, RealValue, TableColumn, TableColumnView, TableRelationship,
    TableRelationshipView, MAX_QUERY_ROWS,
};
use crate::error_codes::QUERY_ERROR;
use crate::export::{
    job_is_sound, page_received, ExportJob, ExportRequest, ExportStage, EXPORT_PAGE_ROWS,
};
use crate::factory::EngineKind;
use crate::json::{
    json_map_insert, json_map_with_capacity, json_members, json_null, json_object, json_shape,
    json_signed, json_text, json_unsigned, JsonShape,
};
use crate::text::{
    clock_text, decimal, decimal_string, join, lemma_join_push, lossy_text, optional_str,
    push_replaced, push_values_list, push_zero_padded, replace_char, replace_char_in, row_texts,
    same_text, signed_decimal, signed_decimal_string, texts, timestamp_text, utf8_lossy,
    values_list,
};

verus! {

/// The statement that lists the tables of the current database.
pub const LIST_TABLES_SQL: &'static str = "SHOW TABLES";

/// The statement that lists the databases of the server.
pub const LIST_DATABASES_SQL: &'static str = "SHOW DATABASES";

/// The statement that names the current database.
pub const CURRENT_DATABASE_SQL: &'static str = "SELECT DATABASE()";

/// The statement that describes the columns of a table; its parameters are
/// the database and the table.
pub const TABLE_COLUMNS_SQL: &'static str =
    "SELECT c.COLUMN_NAME, c.COLUMN_TYPE, c.IS_NULLABLE, c.COLUMN_KEY, c.COLUMN_DEFAULT, c.CHARACTER_MAXIMUM_LENGTH, c.NUMERIC_PRECISION FROM information_schema.COLUMNS c WHERE c.TABLE_SCHEMA = ? AND c.TABLE_NAME = ? ORDER BY c.ORDINAL_POSITION";

/// The statement that lists the foreign-key columns of a database; its
/// parameter is the database.
pub const TABLE_RELATIONSHIPS_SQL: &'static str =
    "SELECT kcu.TABLE_NAME, kcu.COLUMN_NAME, kcu.REFERENCED_TABLE_NAME, kcu.REFERENCED_COLUMN_NAME, kcu.CONSTRAINT_NAME FROM information_schema.KEY_COLUMN_USAGE kcu WHERE kcu.TABLE_SCHEMA = ? AND kcu.REFERENCED_TABLE_NAME IS NOT NULL ORDER BY kcu.TABLE_NAME, kcu.ORDINAL_POSITION";

/// Message of a cell update that timed out.
pub const UPDATE_TIMED_OUT: &'static str = "Update timed out";

/// A column value as the MariaDB driver reports it.
#[derive(Debug, Clone)]
pub enum MysqlValue {
    Null,
    /// Text and binary columns alike arrive as bytes.
    Bytes(Vec<u8>),
    Int(i64),
    UInt(u64),
    Float(RealValue),
    Double(RealValue),
    /// Year, month, day, hour, minutes, seconds, microseconds.
    Date(u16, u8, u8, u8, u8, u8, u32),
    /// Whether negative, days, hours, minutes, seconds, microseconds.
    Time(bool, u32, u8, u8, u8, u32),
}

/// `name` with every backtick doubled.
pub open spec fn escaped_identifier(name: Seq<char>) -> Seq<char> {
    replace_char(name, '`', seq!['`', '`'])
}

/// `value` with every single quote doubled and then every backslash doubled.
pub open spec fn escaped_string(value: Seq<char>) -> Seq<char> {
    replace_char(replace_char(value, '\'', seq!['\'', '\'']), '\\', seq!['\\', '\\'])
}

/// `name` as an identifier in backticks.
pub open spec fn quoted_identifier(name: Seq<char>) -> Seq<char> {
    seq!['`'] + escaped_identifier(name) + seq!['`']
}

/// `value` as a string literal in single quotes.
pub open spec fn quoted_string(value: Seq<char>) -> Seq<char> {
    seq!['\''] + escaped_string(value) + seq!['\'']
}

/// The JSON scalar that stands for a column value.
pub open spec fn mysql_json_shape(value: MysqlValue) -> JsonShape {
    match value {
        MysqlValue::Null => JsonShape::Null,
        MysqlValue::Bytes(b) => JsonShape::Text(utf8_lossy(b@)),
        MysqlValue::Int(i) => JsonShape::Integer(i as int),
        MysqlValue::UInt(u) => JsonShape::Integer(u as int),
        MysqlValue::Float(r) => json_shape(r.json),
        MysqlValue::Double(r) => json_shape(r.json),
        MysqlValue::Date(y, m, d, h, min, s, _) => JsonShape::Text(
            timestamp_text(y as nat, m as nat, d as nat, h as nat, min as nat, s as nat),
        ),
        MysqlValue::Time(_, _, h, m, s, _) => JsonShape::Text(
            clock_text(h as nat, m as nat, s as nat),
        ),
    }
}

/// The SQL literal that stands for a column value in a dump.
pub open spec fn mysql_sql_literal(value: MysqlValue) -> Seq<char> {
    match value {
        MysqlValue::Null => seq!['N', 'U', 'L', 'L'],
        MysqlValue::Bytes(b) => quoted_string(utf8_lossy(b@)),
        MysqlValue::Int(i) => signed_decimal(i as int),
        MysqlValue::UInt(u) => decimal(u as nat),
        MysqlValue::Float(r) => r.text@,
        MysqlValue::Double(r) => r.text@,
        MysqlValue::Date(y, m, d, h, min, s, _) => seq!['\''] + timestamp_text(
            y as nat,
            m as nat,
            d as nat,
            h as nat,
            min as nat,
            s as nat,
        ) + seq!['\''],
        MysqlValue::Time(_, _, h, m, s, _) => seq!['\''] + clock_text(
            h as nat,
            m as nat,
            s as nat,
        ) + seq!['\''],
    }
}

/// Appends `name` with every backtick doubled.
pub fn push_escaped_identifier(out: &mut String, name: &str)
    ensures
        final(out)@ == old(out)@ + escaped_identifier(name@),
{
    proof {
        reveal_strlit("``");
        assert("``"@ =~= seq!['`', '`']);
    }
    push_replaced(out, name, '`', "``");
}

/// Appends `name` in backticks, escaped.
pub fn push_quoted_identifier(out: &mut String, name: &str)
    ensures
        final(out)@ == old(out)@ + quoted_identifier(name@),
{
    out.push('`');
    push_escaped_identifier(out, name);
    out.push('`');
    proof {
        assert(final(out)@ =~= old(out)@ + quoted_identifier(name@));
    }
}

/// Appends `HH:MM:SS`.
pub fn push_clock(out: &mut String, hour: u8, minute: u8, second: u8)
    ensures
        final(out)@ == old(out)@ + clock_text(hour as nat, minute as nat, second as nat),
{
    push_zero_padded(out, hour as u64, 2);
    out.push(':');
    push_zero_padded(out, minute as u64, 2);
    out.push(':');
    push_zero_padded(out, second as u64, 2);
    proof {
        assert(final(out)@ =~= old(out)@ + clock_text(hour as nat, minute as nat, second as nat));
    }
}

/// Appends `YYYY-MM-DD HH:MM:SS`.
pub fn push_timestamp(
    out: &mut String,
    year: u16,
    month: u8,
    day: u8,
    hour: u8,
    minute: u8,
    second: u8,
)
    ensures
        final(out)@ == old(out)@ + timestamp_text(
            year as nat,
            month as nat,
            day as nat,
            hour as nat,
            minute as nat,
            second as nat,
        ),
{
    push_zero_padded(out, year as u64, 4);
    out.push('-');
    push_zero_padded(out, month as u64, 2);
    out.push('-');
    push_zero_padded(out, day as u64, 2);
    out.push(' ');
    push_clock(out, hour, minute, second);
    proof {
        assert(final(out)@ =~= old(out)@ + timestamp_text(
            year as nat,
            month as nat,
            day as nat,
            hour as nat,
            minute as nat,
            second as nat,
        ));
    }
}

/// Escapes an identifier (table or column name) for use inside backticks.
pub fn escape_identifier(name: &str) -> (out: String)
    ensures
        out@ == escaped_identifier(name@),
{
    let mut out = String::new();
    push_escaped_identifier(&mut out, name);
    out
}

/// Escapes a string value for use inside single quotes.
pub fn escape_string(value: &str) -> (out: String)
    ensures
        out@ == escaped_string(value@),
{
    proof {
        reveal_strlit("''");
        reveal_strlit("\\\\");
        assert("''"@ =~= seq!['\'', '\'']);
        assert("\\\\"@ =~= seq!['\\', '\\']);
    }
    let doubled = replace_char_in(value, '\'', "''");
    replace_char_in(doubled.as_str(), '\\', "\\\\")
}

/// Appends `value` as a string literal in single quotes.
pub fn push_quoted_string(out: &mut String, value: &str)
    ensures
        final(out)@ == old(out)@ + quoted_string(value@),
{
    out.push('\'');
    let escaped = escape_string(value);
    out.append(escaped.as_str());
    out.push('\'');
    proof {
        assert(final(out)@ =~= old(out)@ + quoted_string(value@));
    }
}

/// The column names as identifiers in backticks.
pub open spec fn quoted_identifiers(columns: Seq<Seq<char>>) -> Seq<Seq<char>> {
    columns.map_values(|c: Seq<char>| quoted_identifier(c))
}

/// The column names as a comma-separated list of identifiers.
pub open spec fn column_list(columns: Seq<Seq<char>>) -> Seq<char> {
    join(quoted_identifiers(columns), ", "@)
}

/// The statement keyword for a data mode: `REPLACE` for `replace`,
/// `INSERT IGNORE` for `insert_ignore`, and `INSERT` for anything else.
pub open spec fn statement_verb(data_mode: Seq<char>) -> Seq<char> {
    if data_mode == "replace"@ {
        "REPLACE"@
    } else if data_mode == "insert_ignore"@ {
        "INSERT IGNORE"@
    } else {
        "INSERT"@
    }
}

/// One statement that writes `rows`, a list of rows of SQL literals, into
/// `table`.
pub open spec fn insert_statement(
    table: Seq<char>,
    columns: Seq<Seq<char>>,
    rows: Seq<Seq<Seq<char>>>,
    data_mode: Seq<char>,
) -> Seq<char> {
    statement_verb(data_mode) + " INTO "@ + quoted_identifier(table) + " ("@ + column_list(columns)
        + ") VALUES\n  "@ + values_list(rows) + ";\n"@
}

/// Appends the column names as a comma-separated list of identifiers.
pub fn push_column_list(out: &mut String, columns: &[String])
    ensures
        final(out)@ == old(out)@ + column_list(texts(columns@)),
{
    let ghost start = out@;
    let ghost quoted = quoted_identifiers(texts(columns@));
    let mut i: usize = 0;
    while i < columns.len()
        invariant
            i <= columns.len(),
            quoted == quoted_identifiers(texts(columns@)),
            out@ == start + join(quoted.take(i as int), ", "@),
        decreases columns.len() - i,
    {
        let ghost before = out@;
        if i > 0 {
            out.append(", ");
        }
        push_quoted_identifier(out, columns[i].as_str());
        proof {
            let item = quoted_identifier(columns@[i as int]@);
            assert(quoted[i as int] == item);
            assert(quoted.take(i + 1) =~= quoted.take(i as int).push(item));
            lemma_join_push(quoted.take(i as int), ", "@, item);
            if i > 0 {
                assert(out@ =~= before + ", "@ + item);
            }
        }
        i = i + 1;
    }
    proof {
        assert(quoted.take(columns.len() as int) =~= quoted);
    }
}

/// Appends one statement that writes `rows` into `table_name`.
pub fn push_insert_statement(
    out: &mut String,
    table_name: &str,
    columns: &[String],
    rows: &[Vec<String>],
    data_mode: &str,
)
    ensures
        final(out)@ == old(out)@ + insert_statement(
            table_name@,
            texts(columns@),
            row_texts(rows@),
            data_mode@,
        ),
{
    if same_text(data_mode, "replace") {
        out.append("REPLACE");
    } else if same_text(data_mode, "insert_ignore") {
        out.append("INSERT IGNORE");
    } else {
        out.append("INSERT");
    }
    out.append(" INTO ");
    push_quoted_identifier(out, table_name);
    out.append(" (");
    push_column_list(out, columns);
    out.append(") VALUES\n  ");
    push_values_list(out, rows);
    out.append(";\n");
    proof {
        assert(final(out)@ =~= old(out)@ + insert_statement(
            table_name@,
            texts(columns@),
            row_texts(rows@),
            data_mode@,
        ));
    }
}

/// One statement that writes `rows`, a list of rows of SQL literals, into
/// `table_name`. The data mode picks the keyword.
pub fn format_insert_statement(
    table_name: &str,
    columns: &[String],
    rows: &[Vec<String>],
    data_mode: &str,
) -> (sql: String)
    ensures
        sql@ == insert_statement(table_name@, texts(columns@), row_texts(rows@), data_mode@),
{
    let mut sql = String::new();
    push_insert_statement(&mut sql, table_name, columns, rows, data_mode);
    sql
}

/// The JSON scalar that stands for a column value.
pub fn mysql_value_json(value: &MysqlValue) -> (json: serde_json::Value)
    ensures
        json_shape(json) == mysql_json_shape(*value),
{
    match value {
        MysqlValue::Null => json_null(),
        MysqlValue::Bytes(b) => json_text(lossy_text(b.as_slice())),
        MysqlValue::Int(i) => json_signed(*i),
        MysqlValue::UInt(u) => json_unsigned(*u),
        MysqlValue::Float(r) => r.json.clone(),
        MysqlValue::Double(r) => r.json.clone(),
        MysqlValue::Date(y, m, d, h, min, s, _) => {
            let mut text = String::new();
            push_timestamp(&mut text, *y, *m, *d, *h, *min, *s);
            json_text(text)
        },
        MysqlValue::Time(_, _, h, m, s, _) => {
            let mut text = String::new();
            push_clock(&mut text, *h, *m, *s);
            json_text(text)
        },
    }
}

/// The SQL literal that stands for a column value in a dump.
pub fn mysql_value_sql(value: &MysqlValue) -> (sql: String)
    ensures
        sql@ == mysql_sql_literal(*value),
{
    match value {
        MysqlValue::Null => {
            proof {
                reveal_strlit("NULL");
                assert("NULL"@ =~= seq!['N', 'U', 'L', 'L']);
            }
            "NULL".to_owned()
        },
        MysqlValue::Bytes(b) => {
            let text = lossy_text(b.as_slice());
            let mut out = String::new();
            push_quoted_string(&mut out, text.as_str());
            out
        },
        MysqlValue::Int(i) => signed_decimal_string(*i),
        MysqlValue::UInt(u) => decimal_string(*u),
        MysqlValue::Float(r) => r.text.clone(),
        MysqlValue::Double(r) => r.text.clone(),
        MysqlValue::Date(y, m, d, h, min, s, _) => {
            let mut out = String::new();
            out.push('\'');
            push_timestamp(&mut out, *y, *m, *d, *h, *min, *s);
            out.push('\'');
            out
        },
        MysqlValue::Time(_, _, h, m, s, _) => {
            let mut out = String::new();
            out.push('\'');
            push_clock(&mut out, *h, *m, *s);
            out.push('\'');
            out
        },
    }
}

/// Maps a column value to the JSON scalar that stands for it.
pub fn mysql_value_to_json(value: MysqlValue) -> (json: serde_json::Value)
    ensures
        json_shape(json) == mysql_json_shape(value),
{
    mysql_value_json(&value)
}

/// Maps a column value to the SQL literal that stands for it in a dump.
pub fn mysql_value_to_sql(value: MysqlValue) -> (sql: String)
    ensures
        sql@ == mysql_sql_literal(value),
{
    mysql_value_sql(&value)
}

/// The cell at index `i` of a row; a cell that the row does not have reads
/// as NULL.
pub open spec fn cell(row: Seq<MysqlValue>, i: int) -> MysqlValue {
    if 0 <= i < row.len() {
        row[i]
    } else {
        MysqlValue::Null
    }
}

/// The SQL literals of the first `width` cells of a row.
pub open spec fn mysql_row_literals(width: nat, row: Seq<MysqlValue>) -> Seq<Seq<char>> {
    Seq::new(width, |i: int| mysql_sql_literal(cell(row, i)))
}

/// The SQL literals of the rows of a page.
pub open spec fn mysql_page_literals(
    width: nat,
    rows: Seq<Vec<MysqlValue>>,
) -> Seq<Seq<Seq<char>>> {
    rows.map_values(|r: Vec<MysqlValue>| mysql_row_literals(width, r@))
}

/// The SQL literals of the first `width` cells of a row.
pub fn mysql_row_to_literals(width: usize, row: &[MysqlValue]) -> (literals: Vec<String>)
    ensures
        texts(literals@) == mysql_row_literals(width as nat, row@),
{
    let mut literals: Vec<String> = Vec::new();
    let mut i: usize = 0;
    while i < width
        invariant
            i <= width,
            texts(literals@) =~= mysql_row_literals(width as nat, row@).take(i as int),
        decreases width - i,
    {
        let literal = if i < row.len() {
            mysql_value_sql(&row[i])
        } else {
            mysql_value_sql(&MysqlValue::Null)
        };
        proof {
            assert(texts(literals@.push(literal)) =~= texts(literals@).push(literal@));
        }
        literals.push(literal);
        i = i + 1;
    }
    literals
}

/// The SQL literals of the rows of a page.
pub fn mysql_page_to_literals(
    width: usize,
    rows: &[Vec<MysqlValue>],
) -> (literals: Vec<Vec<String>>)
    ensures
        row_texts(literals@) == mysql_page_literals(width as nat, rows@),
{
    let mut literals: Vec<Vec<String>> = Vec::new();
    let mut i: usize = 0;
    while i < rows.len()
        invariant
            i <= rows.len(),
            row_texts(literals@) =~= mysql_page_literals(width as nat, rows@).take(i as int),
        decreases rows.len() - i,
    {
        let row = mysql_row_to_literals(width, rows[i].as_slice());
        proof {
            assert(row_texts(literals@.push(row)) =~= row_texts(literals@).push(texts(row@)));
        }
        literals.push(row);
        i = i + 1;
    }
    literals
}

/// The members of the JSON object for a row, after the first `n` columns
/// were entered: each column name stands for the JSON scalar of its cell, and
/// of two columns of one name the later one stays.
pub open spec fn mysql_row_members(
    columns: Seq<Seq<char>>,
    row: Seq<MysqlValue>,
    n: nat,
) -> Map<Seq<char>, JsonShape>
    decreases n,
{
    if n == 0 {
        Map::empty()
    } else {
        mysql_row_members(columns, row, (n - 1) as nat).insert(
            columns[n - 1],
            mysql_json_shape(cell(row, n - 1)),
        )
    }
}

/// The JSON object for a row.
pub open spec fn mysql_row_shape(columns: Seq<Seq<char>>, row: Seq<MysqlValue>) -> JsonShape {
    JsonShape::Object(mysql_row_members(columns, row, columns.len()))
}

/// The JSON object for a row, keyed by column name.
pub fn mysql_row_to_json(columns: &[String], row: &[MysqlValue]) -> (json: serde_json::Value)
    ensures
        json_shape(json) == mysql_row_shape(texts(columns@), row@),
{
    let mut members = json_map_with_capacity(columns.len());
    let mut i: usize = 0;
    while i < columns.len()
        invariant
            i <= columns.len(),
            json_members(members) == mysql_row_members(texts(columns@), row@, i as nat),
        decreases columns.len() - i,
    {
        let value = if i < row.len() {
            mysql_value_json(&row[i])
        } else {
            json_null()
        };
        json_map_insert(&mut members, columns[i].clone(), value);
        i = i + 1;
    }
    json_object(members)
}

/// The mathematical content of a `RowCollector`.
pub struct RowCollectorView {
    pub columns: Seq<Seq<char>>,
    /// The content of the rows that are kept.
    pub rows: Seq<JsonShape>,
    /// Rows seen, kept or not.
    pub row_count: nat,
}

/// The content of a list of JSON values.
pub open spec fn json_shapes(values: Seq<serde_json::Value>) -> Seq<JsonShape> {
    values.map_values(|v: serde_json::Value| json_shape(v))
}

/// The rows of a query as they stream in: the first `MAX_QUERY_ROWS` are
/// kept as JSON objects, the rest are counted only.
#[derive(Debug)]
pub struct RowCollector {
    columns: Vec<String>,
    rows: Vec<serde_json::Value>,
    row_count: usize,
}

impl View for RowCollector {
    type V = RowCollectorView;

    closed spec fn view(&self) -> RowCollectorView {
        RowCollectorView {
            columns: texts(self.columns@),
            rows: json_shapes(self.rows@),
            row_count: self.row_count as nat,
        }
    }
}

/// As many rows are kept as were seen, up to `MAX_QUERY_ROWS`.
pub open spec fn rows_are_capped(collected: RowCollectorView) -> bool {
    collected.rows.len() == (if collected.row_count <= MAX_QUERY_ROWS {
        collected.row_count
    } else {
        MAX_QUERY_ROWS as nat
    })
}

impl RowCollector {
    /// A collector for a result with the given columns, before any row.
    pub fn new(columns: Vec<String>) -> (collector: Self)
        ensures
            collector@ == (RowCollectorView {
                columns: texts(columns@),
                rows: Seq::empty(),
                row_count: 0,
            }),
            rows_are_capped(collector@),
    {
        let collector = RowCollector { columns, rows: Vec::new(), row_count: 0 };
        proof {
            assert(json_shapes(collector.rows@) =~= Seq::<JsonShape>::empty());
        }
        collector
    }

    /// Rows seen so far.
    pub fn row_count(&self) -> (n: usize)
        ensures
            n == self@.row_count,
    {
        self.row_count
    }

    /// Takes the next row: it is counted, and kept as a JSON object unless
    /// `MAX_QUERY_ROWS` rows are kept already.
    pub fn push_row(&mut self, row: &[MysqlValue])
        requires
            rows_are_capped(old(self)@),
            old(self)@.row_count < usize::MAX,
        ensures
            final(self)@.columns == old(self)@.columns,
            final(self)@.row_count == old(self)@.row_count + 1,
            final(self)@.rows == (if old(self)@.row_count < MAX_QUERY_ROWS {
                old(self)@.rows.push(mysql_row_shape(old(self)@.columns, row@))
            } else {
                old(self)@.rows
            }),
            rows_are_capped(final(self)@),
    {
        let ghost kept = json_shapes(self.rows@);
        self.row_count = self.row_count + 1;
        if self.row_count <= MAX_QUERY_ROWS {
            let json = mysql_row_to_json(self.columns.as_slice(), row);
            proof {
                assert(json_shapes(self.rows@.push(json)) =~= kept.push(json_shape(json)));
            }
            self.rows.push(json);
        }
    }

    /// The result of the query, with the time it took in milliseconds.
    pub fn finish(self, execution_time: u128) -> (result: QueryResult)
        requires
            rows_are_capped(self@),
        ensures
            result.is_capped(),
            texts(result.columns@) == self@.columns,
            json_shapes(result.rows@) == self@.rows,
            result.row_count == self@.row_count,
            result.execution_time == execution_time,
    {
        let truncated = self.row_count > MAX_QUERY_ROWS;
        QueryResult {
            columns: self.columns,
            rows: self.rows,
            row_count: self.row_count,
            execution_time,
            truncated,
        }
    }
}

/// The text of a catalog cell: what a text cell holds, and nothing for any
/// other cell.
pub open spec fn cell_text(value: MysqlValue) -> Seq<char> {
    match value {
        MysqlValue::Bytes(b) => utf8_lossy(b@),
        _ => Seq::empty(),
    }
}

/// The text of a catalog cell that may be NULL.
pub open spec fn cell_optional_text(value: MysqlValue) -> Option<Seq<char>> {
    match value {
        MysqlValue::Bytes(b) => Some(utf8_lossy(b@)),
        _ => None,
    }
}

/// An unsigned number read as a signed one of the same bits.
pub open spec fn wrapped_signed(u: u64) -> i64 {
    if u <= i64::MAX {
        u as i64
    } else {
        (u - 0x1_0000_0000_0000_0000) as i64
    }
}

/// The number in a catalog cell that may be NULL.
pub open spec fn cell_optional_integer(value: MysqlValue) -> Option<i64> {
    match value {
        MysqlValue::Int(i) => Some(i),
        MysqlValue::UInt(u) => Some(wrapped_signed(u)),
        _ => None,
    }
}

/// The column that a row of the catalog describes: name, type, `YES` where
/// nullable, `PRI` where part of the primary key, default, length, precision.
pub open spec fn mysql_column(row: Seq<MysqlValue>) -> TableColumnView {
    TableColumnView {
        name: cell_text(cell(row, 0)),
        data_type: cell_text(cell(row, 1)),
        is_nullable: cell_text(cell(row, 2)) == "YES"@,
        is_primary_key: cell_text(cell(row, 3)) == "PRI"@,
        column_default: cell_optional_text(cell(row, 4)),
        character_maximum_length: cell_optional_integer(cell(row, 5)),
        numeric_precision: cell_optional_integer(cell(row, 6)),
    }
}

fn text_of_cell(row: &[MysqlValue], i: usize) -> (text: String)
    ensures
        text@ == cell_text(cell(row@, i as int)),
{
    if i < row.len() {
        match &row[i] {
            MysqlValue::Bytes(b) => lossy_text(b.as_slice()),
            _ => String::new(),
        }
    } else {
        String::new()
    }
}

fn optional_text_of_cell(row: &[MysqlValue], i: usize) -> (text: Option<String>)
    ensures
        optional_text(text) == cell_optional_text(cell(row@, i as int)),
{
    if i < row.len() {
        match &row[i] {
            MysqlValue::Bytes(b) => Some(lossy_text(b.as_slice())),
            _ => None,
        }
    } else {
        None
    }
}

fn optional_integer_of_cell(row: &[MysqlValue], i: usize) -> (number: Option<i64>)
    ensures
        number == cell_optional_integer(cell(row@, i as int)),
{
    if i < row.len() {
        match &row[i] {
            MysqlValue::Int(n) => Some(*n),
            MysqlValue::UInt(u) => {
                if *u <= 0x7fff_ffff_ffff_ffff {
                    Some(*u as i64)
                } else {
                    let above: u64 = *u - 0x8000_0000_0000_0000;
                    Some(above as i64 + i64::MIN)
                }
            },
            _ => None,
        }
    } else {
        None
    }
}

/// The column that a row of the catalog describes.
pub fn column_from_row(row: &[MysqlValue]) -> (column: TableColumn)
    ensures
        column@ == mysql_column(row@),
{
    let nullable = text_of_cell(row, 2);
    let key = text_of_cell(row, 3);
    TableColumn {
        name: text_of_cell(row, 0),
        data_type: text_of_cell(row, 1),
        is_nullable: same_text(nullable.as_str(), "YES"),
        is_primary_key: same_text(key.as_str(), "PRI"),
        column_default: optional_text_of_cell(row, 4),
        character_maximum_length: optional_integer_of_cell(row, 5),
        numeric_precision: optional_integer_of_cell(row, 6),
    }
}

/// The columns that the rows of the catalog describe, in order.
pub fn columns_from_rows(rows: &[Vec<MysqlValue>]) -> (columns: Vec<TableColumn>)
    ensures
        columns@.len() == rows@.len(),
        forall|i: int| 0 <= i < rows@.len() ==> (#[trigger] columns@[i])@ == mysql_column(rows@[i]@),
{
    let mut columns: Vec<TableColumn> = Vec::new();
    let mut i: usize = 0;
    while i < rows.len()
        invariant
            i <= rows.len(),
            columns@.len() == i,
            forall|j: int| 0 <= j < i ==> (#[trigger] columns@[j])@ == mysql_column(rows@[j]@),
        decreases rows.len() - i,
    {
        columns.push(column_from_row(rows[i].as_slice()));
        i = i + 1;
    }
    columns
}

/// Where exactly one row of the catalog carries the key marker `PRI`, the
/// column of that row is the one flagged as primary key, and no other is.
pub proof fn lemma_primary_key_is_flagged(rows: Seq<Seq<MysqlValue>>, k: int)
    requires
        0 <= k < rows.len(),
        cell_text(cell(rows[k], 3)) == "PRI"@,
        forall|i: int| 0 <= i < rows.len() && i != k ==> cell_text(cell(#[trigger] rows[i], 3)) != "PRI"@,
    ensures
        mysql_column(rows[k]).is_primary_key,
        forall|i: int| 0 <= i < rows.len() && i != k ==> !mysql_column(#[trigger] rows[i]).is_primary_key,
{
}

/// The text of an optional catalog name; a missing one reads as empty.
pub open spec fn name_or_empty(name: Option<String>) -> Seq<char> {
    match name {
        Some(s) => s@,
        None => Seq::empty(),
    }
}

fn take_name(name: Option<String>) -> (text: String)
    ensures
        text@ == name_or_empty(name),
{
    match name {
        Some(s) => s,
        None => String::new(),
    }
}

/// The foreign-key edge that a row of the catalog describes: source table
/// and column, target table and column, constraint.
pub fn relationship_from_row(
    from_table: Option<String>,
    from_column: Option<String>,
    to_table: Option<String>,
    to_column: Option<String>,
    constraint_name: Option<String>,
) -> (edge: TableRelationship)
    ensures
        edge@ == (TableRelationshipView {
            from_table: name_or_empty(from_table),
            from_column: name_or_empty(from_column),
            to_table: name_or_empty(to_table),
            to_column: name_or_empty(to_column),
            constraint_name: name_or_empty(constraint_name),
        }),
{
    TableRelationship {
        from_table: take_name(from_table),
        from_column: take_name(from_column),
        to_table: take_name(to_table),
        to_column: take_name(to_column),
        constraint_name: take_name(constraint_name),
    }
}

/// Fewest connections that the pool keeps.
pub const POOL_MIN_CONNECTIONS: usize = 1;

/// Most connections that the pool opens.
pub const POOL_MAX_CONNECTIONS: usize = 5;

/// The statement that switches a session to `database`.
pub open spec fn use_statement(database: Seq<char>) -> Seq<char> {
    "USE "@ + quoted_identifier(database)
}

/// The statement that updates one cell, with a placeholder for the key and,
/// where a value is given, one for the value. Without a value the cell is set
/// to NULL in the statement itself.
pub open spec fn update_statement(
    table: Seq<char>,
    column: Seq<char>,
    has_value: bool,
    key_column: Seq<char>,
) -> Seq<char> {
    "UPDATE "@ + quoted_identifier(table) + " SET "@ + quoted_identifier(column) + (if has_value {
        " = ? WHERE "@
    } else {
        " = NULL WHERE "@
    }) + quoted_identifier(key_column) + " = ?"@
}

/// The update of one cell with the values written in, for display.
pub open spec fn logged_update(
    table: Seq<char>,
    column: Seq<char>,
    new_value: Option<Seq<char>>,
    key_column: Seq<char>,
    key_value: Seq<char>,
) -> Seq<char> {
    "UPDATE "@ + quoted_identifier(table) + " SET "@ + quoted_identifier(column) + " = "@ + (
    match new_value {
        Some(v) => quoted_string(v),
        None => "NULL"@,
    }) + " WHERE "@ + quoted_identifier(key_column) + " = "@ + quoted_string(key_value)
}

/// The update of one cell: the values travel as bound parameters, the new
/// value first, and a NULL is part of the statement and no parameter.
pub open spec fn cell_update(
    table: Seq<char>,
    column: Seq<char>,
    new_value: Option<Seq<char>>,
    key_column: Seq<char>,
    key_value: Seq<char>,
) -> CellUpdateView {
    CellUpdateView {
        statement: update_statement(table, column, new_value is Some, key_column),
        parameters: match new_value {
            Some(v) => seq![v, key_value],
            None => seq![key_value],
        },
        logged_query: logged_update(table, column, new_value, key_column, key_value),
    }
}

/// The mathematical content of a `MariaDbConnection`.
pub struct MariaDbConnectionView {
    pub current_database: Seq<char>,
    pub host: Seq<char>,
    pub port: u16,
    pub username: Seq<char>,
    pub password: Seq<char>,
    pub ssl_mode: Seq<char>,
}

/// What the driver knows of a MariaDB connection besides the pool: the
/// parameters it was made with and the database that statements run in.
#[derive(Debug)]
pub struct MariaDbConnection {
    current_database: String,
    host: String,
    port: u16,
    username: String,
    password: String,
    ssl_mode: String,
}

impl View for MariaDbConnection {
    type V = MariaDbConnectionView;

    closed spec fn view(&self) -> MariaDbConnectionView {
        MariaDbConnectionView {
            current_database: self.current_database@,
            host: self.host@,
            port: self.port,
            username: self.username@,
            password: self.password@,
            ssl_mode: self.ssl_mode@,
        }
    }
}

impl MariaDbConnection {
    /// The state of a fresh connection to `dbname`.
    pub fn new(
        host: &str,
        port: u16,
        user: &str,
        password: &str,
        dbname: &str,
        ssl_mode: &str,
    ) -> (conn: Self)
        ensures
            conn@ == (MariaDbConnectionView {
                current_database: dbname@,
                host: host@,
                port,
                username: user@,
                password: password@,
                ssl_mode: ssl_mode@,
            }),
    {
        MariaDbConnection {
            current_database: dbname.to_owned(),
            host: host.to_owned(),
            port,
            username: user.to_owned(),
            password: password.to_owned(),
            ssl_mode: ssl_mode.to_owned(),
        }
    }

    /// The statement that a pooled connection runs first, so that it works
    /// in the current database.
    pub fn use_current_database(&self) -> (sql: String)
        ensures
            sql@ == use_statement(self@.current_database),
    {
        Self::use_database(self.current_database.as_str())
    }

    /// The statement that switches a session to `database_name`.
    pub fn use_database(database_name: &str) -> (sql: String)
        ensures
            sql@ == use_statement(database_name@),
    {
        let mut sql = String::new();
        sql.append("USE ");
        push_quoted_identifier(&mut sql, database_name);
        sql
    }

    /// Concludes a change of database, given how the statement of
    /// `use_database` went: on success `database_name` is the current
    /// database from now on, on failure nothing changes.
    pub fn change_database(
        &mut self,
        database_name: &str,
        outcome: Result<(), Failure>,
    ) -> (r: DbResult<()>)
        ensures
            match outcome {
                Ok(_) => r is Ok && final(self)@ == database_changed(old(self)@, database_name@),
                Err(failure) => final(self)@ == old(self)@ && (r matches Err(e) && e@
                    == failure_view(failure, QUERY_ERROR@, crate::connection::QUERY_TIMED_OUT@)),
            },
    {
        match outcome {
            Ok(_) => {
                self.current_database = database_name.to_owned();
                Ok(())
            },
            Err(failure) => Err(
                failure.into_error(QUERY_ERROR, crate::connection::QUERY_TIMED_OUT),
            ),
        }
    }

    /// Concludes the update of a cell, given how the statement went: on
    /// success the statement as it is displayed, else the error.
    pub fn update_cell_outcome(
        update: CellUpdate,
        outcome: Result<(), Failure>,
    ) -> (r: DbResult<String>)
        ensures
            match outcome {
                Ok(_) => r matches Ok(sql) && sql@ == update@.logged_query,
                Err(failure) => r matches Err(e) && e@ == failure_view(
                    failure,
                    QUERY_ERROR@,
                    UPDATE_TIMED_OUT@,
                ),
            },
    {
        match outcome {
            Ok(_) => Ok(update.logged_query),
            Err(failure) => Err(failure.into_error(QUERY_ERROR, UPDATE_TIMED_OUT)),
        }
    }

}

impl DatabaseConnection for MariaDbConnection {
    open spec fn engine_kind(&self) -> EngineKind {
        EngineKind::MariaDb
    }

    closed spec fn current_database(&self) -> Seq<char> {
        self.current_database@
    }

    fn engine(&self) -> (kind: EngineKind) {
        EngineKind::MariaDb
    }

    fn list_tables(&self) -> (sql: String) {
        LIST_TABLES_SQL.to_owned()
    }

    fn list_databases(&self) -> (sql: String) {
        LIST_DATABASES_SQL.to_owned()
    }

    fn get_current_database(&self) -> (name: DbResult<String>) {
        Ok(self.current_database.clone())
    }

    fn update_cell(
        &self,
        table_name: &str,
        column_name: &str,
        new_value: Option<&str>,
        primary_key_column: &str,
        primary_key_value: &str,
    ) -> (update: CellUpdate)
    {
        let mut statement = String::new();
        statement.append("UPDATE ");
        push_quoted_identifier(&mut statement, table_name);
        statement.append(" SET ");
        push_quoted_identifier(&mut statement, column_name);
        let mut logged_query = statement.clone();
        logged_query.append(" = ");
        let mut parameters: Vec<String> = Vec::new();
        match new_value {
            Some(value) => {
                statement.append(" = ? WHERE ");
                push_quoted_string(&mut logged_query, value);
                parameters.push(value.to_owned());
            },
            None => {
                statement.append(" = NULL WHERE ");
                logged_query.append("NULL");
            },
        }
        push_quoted_identifier(&mut statement, primary_key_column);
        statement.append(" = ?");
        logged_query.append(" WHERE ");
        push_quoted_identifier(&mut logged_query, primary_key_column);
        logged_query.append(" = ");
        push_quoted_string(&mut logged_query, primary_key_value);
        parameters.push(primary_key_value.to_owned());
        proof {
            let expected = cell_update(
                table_name@,
                column_name@,
                optional_str(new_value),
                primary_key_column@,
                primary_key_value@,
            );
            assert(statement@ =~= expected.statement);
            assert(logged_query@ =~= expected.logged_query);
            assert(texts(parameters@) =~= expected.parameters);
        }
        CellUpdate { statement, parameters, logged_query }
    }

    fn export_database_with_options(
        &self,
        include_drop: bool,
        include_create: bool,
        data_mode: &str,
        selected_tables: &[String],
        max_insert_size: usize,
    ) -> (started: (ExportJob, ExportRequest))
    {
        ExportJob::begin(
            EngineKind::MariaDb,
            include_drop,
            include_create,
            data_mode,
            selected_tables,
            max_insert_size,
        )
    }
}

/// The view of a connection names the database that its statements run in.
pub proof fn lemma_current_database_is_viewed(conn: MariaDbConnection)
    ensures
        conn.current_database() == conn@.current_database,
{
}

/// Takes one page of the current table as the MariaDB driver read it, and
/// writes its rows as SQL literals, one per column.
pub fn export_page_fetched(
    job: &mut ExportJob,
    columns: &[String],
    rows: &[Vec<MysqlValue>],
) -> (request: ExportRequest)
    requires
        old(job)@.stage == ExportStage::AwaitPage,
        job_is_sound(old(job)@),
        rows@.len() >= EXPORT_PAGE_ROWS ==> old(job)@.offset + EXPORT_PAGE_ROWS <= u64::MAX,
    ensures
        (final(job)@, request@) == page_received(
            old(job)@,
            texts(columns@),
            mysql_page_literals(columns@.len(), rows@),
        ),
        job_is_sound(final(job)@),
{
    let literals = mysql_page_to_literals(columns.len(), rows);
    job.page_fetched(columns, literals.as_slice())
}

/// The state of a connection after a change of database has succeeded.
pub open spec fn database_changed(
    before: MariaDbConnectionView,
    database_name: Seq<char>,
) -> MariaDbConnectionView {
    MariaDbConnectionView { current_database: database_name, ..before }
}

/// After a change of database has succeeded, the new database is the
/// current one, the statement that every later operation runs first switches
/// to it, and nothing else of the connection has changed. A second change
/// overrides the first.
pub proof fn lemma_change_database_is_seen(
    before: MariaDbConnectionView,
    first: Seq<char>,
    second: Seq<char>,
)
    ensures
        database_changed(before, first).current_database == first,
        use_statement(database_changed(before, first).current_database) == "USE "@
            + quoted_identifier(first),
        database_changed(before, first).host == before.host,
        database_changed(before, first).port == before.port,
        database_changed(before, first).username == before.username,
        database_changed(before, first).password == before.password,
        database_changed(before, first).ssl_mode == before.ssl_mode,
        database_changed(database_changed(before, first), second) == database_changed(
            before,
            second,
        ),
{
}

/// An update without a value sets the cell to NULL in the statement, and
/// binds the key only: no text travels as the cell's value.
pub proof fn lemma_null_update_binds_no_value(
    table: Seq<char>,
    column: Seq<char>,
    key_column: Seq<char>,
    key_value: Seq<char>,
)
    ensures
        cell_update(table, column, None, key_column, key_value).parameters == seq![key_value],
        cell_update(table, column, None, key_column, key_value).statement == "UPDATE "@
            + quoted_identifier(table) + " SET "@ + quoted_identifier(column) + " = NULL WHERE "@
            + quoted_identifier(key_column) + " = ?"@,
{
}

} // verus!
