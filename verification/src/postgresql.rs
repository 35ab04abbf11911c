//! The PostgreSQL dialect: escaping, the value codec and the statements that
//! the driver sends.

use vstd::prelude::*;
use crate::connection::{
    optional_text, plain_error, CellUpdate, CellUpdateView, DatabaseConnection, DbResult,
    QueryError, QueryErrorView, QueryResult, RealValue, TableColumn, TableColumnView,
    TableRelationship, TableRelationshipView, MAX_QUERY_ROWS,
};
use crate::encoding::{base64_encode, base64_encoding};
use crate::error_codes::{QUERY_ERROR, TIMEOUT_ERROR};
use crate::export::{
    job_is_sound, page_received, table_described, ExportJob, ExportRequest, ExportStage,
    EXPORT_PAGE_ROWS,
};
use crate::factory::EngineKind;
use crate::json::{
    json_bool, json_map_insert, json_map_with_capacity, json_members, json_null, json_object,
    json_rendering, json_shape, json_signed, json_text, json_to_text, JsonShape,
};
use crate::text::{
    calendar_text, clock_text, decimal, digit_char, join, lemma_join_push, optional_str,
    push_decimal, push_replaced, push_signed_decimal, push_values_list, replace_char,
    replace_char_in, row_texts, same_text, signed_decimal, signed_decimal_string, texts,
    uppercase, uppercase_of, values_list,
};

verus! {

/// The statement that lists the tables of the public schema.
pub const LIST_TABLES_SQL: &'static str =
    "SELECT table_name FROM information_schema.tables WHERE table_schema = 'public' AND table_type = 'BASE TABLE' ORDER BY table_name";

/// The statement that lists the databases of the server.
pub const LIST_DATABASES_SQL: &'static str =
    "SELECT datname FROM pg_database WHERE datistemplate = false ORDER BY datname";

/// The statement that describes the columns of the table bound to `$1`, for
/// rebuilding its CREATE statement and for finding its primary key.
pub const DESCRIBE_COLUMNS_SQL: &'static str =
    "SELECT c.column_name, c.data_type, c.character_maximum_length, c.is_nullable, c.column_default, CASE WHEN pk.column_name IS NOT NULL THEN true ELSE false END AS is_primary FROM information_schema.columns c LEFT JOIN (SELECT ku.column_name FROM information_schema.table_constraints tc JOIN information_schema.key_column_usage ku ON tc.constraint_name = ku.constraint_name AND tc.table_schema = ku.table_schema WHERE tc.constraint_type = 'PRIMARY KEY' AND tc.table_name = $1 AND tc.table_schema = 'public') pk ON c.column_name = pk.column_name WHERE c.table_name = $1 AND c.table_schema = 'public' ORDER BY c.ordinal_position";

/// `name` with every double quote doubled.
pub open spec fn escaped_identifier(name: Seq<char>) -> Seq<char> {
    replace_char(name, '"', seq!['"', '"'])
}

/// `value` with every single quote doubled.
pub open spec fn escaped_string(value: Seq<char>) -> Seq<char> {
    replace_char(value, '\'', seq!['\'', '\''])
}

/// `name` as an identifier in double quotes.
pub open spec fn quoted_identifier(name: Seq<char>) -> Seq<char> {
    seq!['"'] + escaped_identifier(name) + seq!['"']
}

/// `value` as a string literal in single quotes.
pub open spec fn quoted_string(value: Seq<char>) -> Seq<char> {
    seq!['\''] + escaped_string(value) + seq!['\'']
}

/// Appends `name` with every double quote doubled.
pub fn push_escaped_identifier(out: &mut String, name: &str)
    ensures
        final(out)@ == old(out)@ + escaped_identifier(name@),
{
    proof {
        reveal_strlit("\"\"");
        assert("\"\""@ =~= seq!['"', '"']);
    }
    push_replaced(out, name, '"', "\"\"");
}

/// Appends `name` in double quotes, escaped.
pub fn push_quoted_identifier(out: &mut String, name: &str)
    ensures
        final(out)@ == old(out)@ + quoted_identifier(name@),
{
    out.push('"');
    push_escaped_identifier(out, name);
    out.push('"');
    proof {
        assert(final(out)@ =~= old(out)@ + quoted_identifier(name@));
    }
}

/// Escapes an identifier (table or column name) for use inside double quotes.
pub fn escape_identifier(name: &str) -> (out: String)
    ensures
        out@ == escaped_identifier(name@),
{
    let mut out = String::new();
    push_escaped_identifier(&mut out, name);
    out
}

/// Escapes a string value for use inside single quotes.
pub fn escape_string(value: &str) -> (out: String)
    ensures
        out@ == escaped_string(value@),
{
    proof {
        reveal_strlit("''");
        assert("''"@ =~= seq!['\'', '\'']);
    }
    replace_char_in(value, '\'', "''")
}

/// Appends `value` as a string literal in single quotes.
pub fn push_quoted_string(out: &mut String, value: &str)
    ensures
        final(out)@ == old(out)@ + quoted_string(value@),
{
    proof {
        reveal_strlit("''");
        assert("''"@ =~= seq!['\'', '\'']);
    }
    out.push('\'');
    push_replaced(out, value, '\'', "''");
    out.push('\'');
    proof {
        assert(final(out)@ =~= old(out)@ + quoted_string(value@));
    }
}

/// The column names as identifiers in double quotes.
pub open spec fn quoted_identifiers(columns: Seq<Seq<char>>) -> Seq<Seq<char>> {
    columns.map_values(|c: Seq<char>| quoted_identifier(c))
}

/// The column names as a comma-separated list of identifiers.
pub open spec fn column_list(columns: Seq<Seq<char>>) -> Seq<char> {
    join(quoted_identifiers(columns), ", "@)
}

/// The assignment that overwrites one column with the value that was to be
/// inserted.
pub open spec fn excluded_assignment(column: Seq<char>) -> Seq<char> {
    quoted_identifier(column) + " = EXCLUDED."@ + quoted_identifier(column)
}

/// The assignments for all columns.
pub open spec fn excluded_assignments(columns: Seq<Seq<char>>) -> Seq<Seq<char>> {
    columns.map_values(|c: Seq<char>| excluded_assignment(c))
}

/// What follows the values for a data mode. For `replace` it is an overwrite
/// of every column where a row of the same primary key exists; the key
/// columns are the conflict target, and a table without primary key has no
/// row to overwrite and gets no clause. For `insert_ignore` it is nothing to
/// do on any conflict. Any other mode has no clause.
pub open spec fn conflict_clause(
    columns: Seq<Seq<char>>,
    key_columns: Seq<Seq<char>>,
    data_mode: Seq<char>,
) -> Seq<char> {
    if data_mode == "replace"@ {
        if key_columns.len() > 0 {
            " ON CONFLICT ("@ + column_list(key_columns) + ") DO UPDATE SET "@ + join(
                excluded_assignments(columns),
                ", "@,
            )
        } else {
            Seq::empty()
        }
    } else if data_mode == "insert_ignore"@ {
        " ON CONFLICT DO NOTHING"@
    } else {
        Seq::empty()
    }
}

/// One statement that writes `rows`, a list of rows of SQL literals, into
/// `table`, whose primary key is made of `key_columns`.
pub open spec fn insert_statement(
    table: Seq<char>,
    columns: Seq<Seq<char>>,
    key_columns: Seq<Seq<char>>,
    rows: Seq<Seq<Seq<char>>>,
    data_mode: Seq<char>,
) -> Seq<char> {
    "INSERT INTO "@ + quoted_identifier(table) + " ("@ + column_list(columns) + ") VALUES\n  "@
        + values_list(rows) + conflict_clause(columns, key_columns, data_mode) + ";\n"@
}

/// Appends the column names as a comma-separated list of identifiers.
pub fn push_column_list(out: &mut String, columns: &[String])
    ensures
        final(out)@ == old(out)@ + column_list(texts(columns@)),
{
    let ghost start = out@;
    let ghost quoted = quoted_identifiers(texts(columns@));
    let mut i: usize = 0;
    while i < columns.len()
        invariant
            i <= columns.len(),
            quoted == quoted_identifiers(texts(columns@)),
            out@ == start + join(quoted.take(i as int), ", "@),
        decreases columns.len() - i,
    {
        let ghost before = out@;
        if i > 0 {
            out.append(", ");
        }
        push_quoted_identifier(out, columns[i].as_str());
        proof {
            let item = quoted_identifier(columns@[i as int]@);
            assert(quoted[i as int] == item);
            assert(quoted.take(i + 1) =~= quoted.take(i as int).push(item));
            lemma_join_push(quoted.take(i as int), ", "@, item);
            if i > 0 {
                assert(out@ =~= before + ", "@ + item);
            }
        }
        i = i + 1;
    }
    proof {
        assert(quoted.take(columns.len() as int) =~= quoted);
    }
}

/// Appends the clause that follows the values for a data mode.
pub fn push_conflict_clause(
    out: &mut String,
    columns: &[String],
    key_columns: &[String],
    data_mode: &str,
)
    ensures
        final(out)@ == old(out)@ + conflict_clause(
            texts(columns@),
            texts(key_columns@),
            data_mode@,
        ),
{
    if same_text(data_mode, "replace") {
        if key_columns.len() > 0 {
            out.append(" ON CONFLICT (");
            push_column_list(out, key_columns);
            out.append(") DO UPDATE SET ");
            let ghost start = out@;
            let ghost items = excluded_assignments(texts(columns@));
            let mut i: usize = 0;
            while i < columns.len()
                invariant
                    i <= columns.len(),
                    items == excluded_assignments(texts(columns@)),
                    out@ == start + join(items.take(i as int), ", "@),
                decreases columns.len() - i,
            {
                let ghost before = out@;
                if i > 0 {
                    out.append(", ");
                }
                push_quoted_identifier(out, columns[i].as_str());
                out.append(" = EXCLUDED.");
                push_quoted_identifier(out, columns[i].as_str());
                proof {
                    let item = excluded_assignment(columns@[i as int]@);
                    assert(items[i as int] == item);
                    assert(items.take(i + 1) =~= items.take(i as int).push(item));
                    lemma_join_push(items.take(i as int), ", "@, item);
                    if i > 0 {
                        assert(out@ =~= before + ", "@ + item);
                    } else {
                        assert(out@ =~= before + item);
                    }
                }
                i = i + 1;
            }
            proof {
                assert(items.take(columns.len() as int) =~= items);
                assert(texts(key_columns@).len() > 0);
                assert(out@ =~= old(out)@ + conflict_clause(
                    texts(columns@),
                    texts(key_columns@),
                    data_mode@,
                ));
            }
        } else {
            proof {
                assert(texts(key_columns@).len() == 0);
                assert(out@ =~= old(out)@ + Seq::<char>::empty());
            }
        }
    } else if same_text(data_mode, "insert_ignore") {
        out.append(" ON CONFLICT DO NOTHING");
    } else {
        proof {
            assert(out@ =~= old(out)@ + Seq::<char>::empty());
        }
    }
}

/// Appends one statement that writes `rows` into `table_name`.
pub fn push_insert_statement(
    out: &mut String,
    table_name: &str,
    columns: &[String],
    key_columns: &[String],
    rows: &[Vec<String>],
    data_mode: &str,
)
    ensures
        final(out)@ == old(out)@ + insert_statement(
            table_name@,
            texts(columns@),
            texts(key_columns@),
            row_texts(rows@),
            data_mode@,
        ),
{
    out.append("INSERT INTO ");
    push_quoted_identifier(out, table_name);
    out.append(" (");
    push_column_list(out, columns);
    out.append(") VALUES\n  ");
    push_values_list(out, rows);
    push_conflict_clause(out, columns, key_columns, data_mode);
    out.append(";\n");
    proof {
        assert(final(out)@ =~= old(out)@ + insert_statement(
            table_name@,
            texts(columns@),
            texts(key_columns@),
            row_texts(rows@),
            data_mode@,
        ));
    }
}

/// One statement that writes `rows`, a list of rows of SQL literals, into
/// `table_name`, whose primary key is made of `key_columns`. The statement
/// is always an INSERT; the data mode picks the conflict clause.
pub fn format_insert_statement(
    table_name: &str,
    columns: &[String],
    key_columns: &[String],
    rows: &[Vec<String>],
    data_mode: &str,
) -> (sql: String)
    ensures
        sql@ == insert_statement(
            table_name@,
            texts(columns@),
            texts(key_columns@),
            row_texts(rows@),
            data_mode@,
        ),
{
    let mut sql = String::new();
    push_insert_statement(&mut sql, table_name, columns, key_columns, rows, data_mode);
    sql
}

/// In `replace` mode a statement for a table with a primary key names the
/// key columns as the conflict target, between `ON CONFLICT` and `DO UPDATE`.
pub proof fn lemma_replace_names_its_target(
    table: Seq<char>,
    columns: Seq<Seq<char>>,
    key_columns: Seq<Seq<char>>,
    rows: Seq<Seq<Seq<char>>>,
)
    requires
        key_columns.len() > 0,
    ensures
        insert_statement(table, columns, key_columns, rows, "replace"@) == "INSERT INTO "@
            + quoted_identifier(table) + " ("@ + column_list(columns) + ") VALUES\n  "@
            + values_list(rows) + (" ON CONFLICT ("@ + column_list(key_columns)
            + ") DO UPDATE SET "@ + join(excluded_assignments(columns), ", "@)) + ";\n"@,
{
}

/// The type of a column, as far as the codec tells types apart.
#[derive(Debug, Clone, Copy, PartialEq, Eq, Structural)]
pub enum PgType {
    Bool,
    Int2,
    Int4,
    Int8,
    Float4,
    Float8,
    Varchar,
    Text,
    Char,
    Bpchar,
    Name,
    Bytea,
    Timestamp,
    Timestamptz,
    Date,
    Time,
    Timetz,
    Json,
    Jsonb,
    Uuid,
    /// Any other type.
    Other,
}

/// What the driver is asked to read a cell as.
#[derive(Debug, Clone, Copy, PartialEq, Eq, Structural)]
pub enum PgDecode {
    Bool,
    Int2,
    Int4,
    Int8,
    Float4,
    Float8,
    Text,
    Bytes,
    Timestamp,
    Date,
    Time,
    Json,
    Uuid,
}

/// A calendar date in plain numbers.
#[derive(Debug, Clone, Copy, PartialEq, Eq, Structural)]
pub struct PgDate {
    pub year: i32,
    pub month: u32,
    pub day: u32,
}

/// A time of day in plain numbers.
#[derive(Debug, Clone, Copy, PartialEq, Eq, Structural)]
pub struct PgTime {
    pub hour: u32,
    pub minute: u32,
    pub second: u32,
    pub nanosecond: u32,
}

/// What the driver read a cell as.
#[derive(Debug, Clone)]
pub enum PgDatum {
    /// The cell is NULL, or could not be read as asked.
    Absent,
    Bool(bool),
    Int2(i16),
    Int4(i32),
    Int8(i64),
    /// A `Float4` or `Float8` cell.
    Real(RealValue),
    Text(String),
    Bytes(Vec<u8>),
    Timestamp(PgDate, PgTime),
    Date(PgDate),
    Time(PgTime),
    Json(serde_json::Value),
    Uuid([u8; 16]),
}

/// A cell of a row: the type of its column and what the driver read.
#[derive(Debug, Clone)]
pub struct PgCell {
    pub column_type: PgType,
    pub datum: PgDatum,
}

/// What a cell is read as: the type of its column where the codec has a
/// form for it, and text for every other type.
pub open spec fn decoding(column_type: PgType) -> PgDecode {
    match column_type {
        PgType::Bool => PgDecode::Bool,
        PgType::Int2 => PgDecode::Int2,
        PgType::Int4 => PgDecode::Int4,
        PgType::Int8 => PgDecode::Int8,
        PgType::Float4 => PgDecode::Float4,
        PgType::Float8 => PgDecode::Float8,
        PgType::Bytea => PgDecode::Bytes,
        PgType::Timestamp | PgType::Timestamptz => PgDecode::Timestamp,
        PgType::Date => PgDecode::Date,
        PgType::Time | PgType::Timetz => PgDecode::Time,
        PgType::Json | PgType::Jsonb => PgDecode::Json,
        PgType::Uuid => PgDecode::Uuid,
        _ => PgDecode::Text,
    }
}

/// What a cell is read as.
pub fn decode_for(column_type: PgType) -> (decode: PgDecode)
    ensures
        decode == decoding(column_type),
{
    match column_type {
        PgType::Bool => PgDecode::Bool,
        PgType::Int2 => PgDecode::Int2,
        PgType::Int4 => PgDecode::Int4,
        PgType::Int8 => PgDecode::Int8,
        PgType::Float4 => PgDecode::Float4,
        PgType::Float8 => PgDecode::Float8,
        PgType::Bytea => PgDecode::Bytes,
        PgType::Timestamp | PgType::Timestamptz => PgDecode::Timestamp,
        PgType::Date => PgDecode::Date,
        PgType::Time | PgType::Timetz => PgDecode::Time,
        PgType::Json | PgType::Jsonb => PgDecode::Json,
        PgType::Uuid => PgDecode::Uuid,
        _ => PgDecode::Text,
    }
}

/// What `chrono` writes for a date and time under `%Y-%m-%d %H:%M:%S`, where
/// the numbers form a date and a time.
pub uninterp spec fn chrono_timestamp_text(year: int, month: int, day: int, hour: int, minute: int, second: int, nanosecond: int) -> Option<Seq<char>>;

/// What `chrono` writes for a date under `%Y-%m-%d`, where the numbers form
/// a date.
pub uninterp spec fn chrono_date_text(year: int, month: int, day: int) -> Option<Seq<char>>;

/// What `chrono` writes for a time under `%H:%M:%S`, where the numbers form
/// a time.
pub uninterp spec fn chrono_time_text(hour: int, minute: int, second: int, nanosecond: int) -> Option<Seq<char>>;

/// Whether a year has a 29th of February in the proleptic Gregorian calendar.
pub open spec fn is_leap_year(year: int) -> bool {
    year % 4 == 0 && (year % 100 != 0 || year % 400 == 0)
}

/// The number of days of a month.
pub open spec fn days_in_month(year: int, month: int) -> int {
    if month == 2 {
        if is_leap_year(year) {
            29
        } else {
            28
        }
    } else if month == 4 || month == 6 || month == 9 || month == 11 {
        30
    } else {
        31
    }
}

/// Whether the numbers form a day of the calendar.
pub open spec fn is_calendar_date(date: PgDate) -> bool {
    1 <= date.month <= 12 && 1 <= date.day <= days_in_month(date.year as int, date.month as int)
}

/// Whether the numbers form a time of day, leap seconds aside.
pub open spec fn is_clock_time(time: PgTime) -> bool {
    time.hour < 24 && time.minute < 60 && time.second < 60
}

/// Whether a year is written with four digits and no sign.
pub open spec fn is_four_digit_year(year: i32) -> bool {
    0 <= year <= 9999
}

/// Whether a time lies outside a leap second.
pub open spec fn is_plain_second(time: PgTime) -> bool {
    time.nanosecond < 1_000_000_000
}

/// The text of a date: `YYYY-MM-DD` for a day of the calendar in a year of
/// four digits, nothing for numbers that form no day, and what `chrono`
/// writes in other years.
pub open spec fn date_text(date: PgDate) -> Option<Seq<char>> {
    if is_four_digit_year(date.year) {
        if is_calendar_date(date) {
            Some(calendar_text(date.year as nat, date.month as nat, date.day as nat))
        } else {
            None
        }
    } else {
        chrono_date_text(date.year as int, date.month as int, date.day as int)
    }
}

/// The text of a time of day: `HH:MM:SS` for a time outside a leap second,
/// nothing for numbers that form no time, and what `chrono` writes within a
/// leap second.
pub open spec fn time_text(time: PgTime) -> Option<Seq<char>> {
    if is_plain_second(time) {
        if is_clock_time(time) {
            Some(clock_text(time.hour as nat, time.minute as nat, time.second as nat))
        } else {
            None
        }
    } else {
        chrono_time_text(
            time.hour as int,
            time.minute as int,
            time.second as int,
            time.nanosecond as int,
        )
    }
}

/// The text of a timestamp: `YYYY-MM-DD HH:MM:SS` for a day of the calendar
/// in a year of four digits and a time outside a leap second, nothing for
/// numbers that form no day or no time, and what `chrono` writes otherwise.
pub open spec fn timestamp_text(date: PgDate, time: PgTime) -> Option<Seq<char>> {
    if is_four_digit_year(date.year) && is_plain_second(time) {
        if is_calendar_date(date) && is_clock_time(time) {
            Some(
                calendar_text(date.year as nat, date.month as nat, date.day as nat) + seq![' ']
                    + clock_text(time.hour as nat, time.minute as nat, time.second as nat),
            )
        } else {
            None
        }
    } else {
        chrono_timestamp_text(
            date.year as int,
            date.month as int,
            date.day as int,
            time.hour as int,
            time.minute as int,
            time.second as int,
            time.nanosecond as int,
        )
    }
}

/// Builds a `chrono::NaiveDateTime` with `NaiveDate::from_ymd_opt` and
/// `NaiveDate::and_hms_nano_opt` and writes it with `NaiveDateTime::format`
/// under `%Y-%m-%d %H:%M:%S`. Numbers that form no date and time give
/// nothing. In a year from 0 to 9999 and outside a leap second, the fields
/// are written as they are given, zero-padded to four and to two digits.
#[verifier::external_body]
fn format_timestamp(date: PgDate, time: PgTime) -> (text: Option<String>)
    ensures
        crate::connection::optional_text(text) == timestamp_text(date, time),
        !(is_four_digit_year(date.year) && is_plain_second(time))
            ==> crate::connection::optional_text(text) == chrono_timestamp_text(
            date.year as int,
            date.month as int,
            date.day as int,
            time.hour as int,
            time.minute as int,
            time.second as int,
            time.nanosecond as int,
        ),
{
    let day = chrono::NaiveDate::from_ymd_opt(date.year, date.month, date.day)?;
    let stamp = day.and_hms_nano_opt(time.hour, time.minute, time.second, time.nanosecond)?;
    Some(stamp.format("%Y-%m-%d %H:%M:%S").to_string())
}

/// Builds a `chrono::NaiveDate` with `NaiveDate::from_ymd_opt` and writes it
/// with `NaiveDate::format` under `%Y-%m-%d`. Numbers that form no date give
/// nothing. In a year from 0 to 9999 the fields are written as they are
/// given, zero-padded to four and to two digits.
#[verifier::external_body]
fn format_date(date: PgDate) -> (text: Option<String>)
    ensures
        crate::connection::optional_text(text) == date_text(date),
        !is_four_digit_year(date.year) ==> crate::connection::optional_text(text)
            == chrono_date_text(date.year as int, date.month as int, date.day as int),
{
    let day = chrono::NaiveDate::from_ymd_opt(date.year, date.month, date.day)?;
    Some(day.format("%Y-%m-%d").to_string())
}

/// Builds a `chrono::NaiveTime` with `NaiveTime::from_hms_nano_opt` and
/// writes it with `NaiveTime::format` under `%H:%M:%S`. Numbers that form no
/// time give nothing. Outside a leap second the fields are written as they
/// are given, zero-padded to two digits.
#[verifier::external_body]
fn format_time(time: PgTime) -> (text: Option<String>)
    ensures
        crate::connection::optional_text(text) == time_text(time),
        !is_plain_second(time) ==> crate::connection::optional_text(text) == chrono_time_text(
            time.hour as int,
            time.minute as int,
            time.second as int,
            time.nanosecond as int,
        ),
{
    let clock = chrono::NaiveTime::from_hms_nano_opt(
        time.hour,
        time.minute,
        time.second,
        time.nanosecond,
    )?;
    Some(clock.format("%H:%M:%S").to_string())
}

/// The character that writes the hexadecimal digit `n`, for `0 <= n <= 15`,
/// in lower case.
pub open spec fn hex_digit(n: int) -> char {
    if n < 10 {
        digit_char(n)
    } else if n == 10 {
        'a'
    } else if n == 11 {
        'b'
    } else if n == 12 {
        'c'
    } else if n == 13 {
        'd'
    } else if n == 14 {
        'e'
    } else {
        'f'
    }
}

/// The two hexadecimal digits of each byte, in order.
pub open spec fn hex_text(bytes: Seq<u8>) -> Seq<char>
    decreases bytes.len(),
{
    if bytes.len() == 0 {
        Seq::empty()
    } else {
        hex_text(bytes.drop_last()).push(hex_digit(bytes.last() as int / 16)).push(
            hex_digit(bytes.last() as int % 16),
        )
    }
}

/// The hyphenated form of a UUID: its 16 bytes in hexadecimal, in groups of
/// 4, 2, 2, 2 and 6 bytes.
pub open spec fn uuid_text(bytes: Seq<u8>) -> Seq<char> {
    hex_text(bytes.subrange(0, 4)) + seq!['-'] + hex_text(bytes.subrange(4, 6)) + seq!['-']
        + hex_text(bytes.subrange(6, 8)) + seq!['-'] + hex_text(bytes.subrange(8, 10)) + seq!['-']
        + hex_text(bytes.subrange(10, 16))
}

/// Writes a UUID through `Display` of `uuid::Uuid`, which gives the
/// hyphenated lower-case form of its bytes.
#[verifier::external_body]
fn format_uuid(bytes: &[u8; 16]) -> (text: String)
    ensures
        text@ == uuid_text(bytes@),
{
    uuid::Uuid::from_bytes(*bytes).to_string()
}

/// The JSON text for an optional text; nothing becomes JSON null.
pub open spec fn text_or_null(text: Option<Seq<char>>) -> JsonShape {
    match text {
        Some(t) => JsonShape::Text(t),
        None => JsonShape::Null,
    }
}

/// The JSON value that stands for a cell. A cell that was not read as its
/// column's type asks for is JSON null, as is a NULL cell.
pub open spec fn pg_json_shape(column_type: PgType, datum: PgDatum) -> JsonShape {
    match (decoding(column_type), datum) {
        (PgDecode::Bool, PgDatum::Bool(b)) => JsonShape::Bool(b),
        (PgDecode::Int2, PgDatum::Int2(v)) => JsonShape::Integer(v as int),
        (PgDecode::Int4, PgDatum::Int4(v)) => JsonShape::Integer(v as int),
        (PgDecode::Int8, PgDatum::Int8(v)) => JsonShape::Integer(v as int),
        (PgDecode::Float4, PgDatum::Real(r)) => json_shape(r.json),
        (PgDecode::Float8, PgDatum::Real(r)) => json_shape(r.json),
        (PgDecode::Text, PgDatum::Text(s)) => JsonShape::Text(s@),
        (PgDecode::Bytes, PgDatum::Bytes(b)) => JsonShape::Text(base64_encoding(b@)),
        (PgDecode::Timestamp, PgDatum::Timestamp(d, t)) => text_or_null(timestamp_text(d, t)),
        (PgDecode::Date, PgDatum::Date(d)) => text_or_null(date_text(d)),
        (PgDecode::Time, PgDatum::Time(t)) => text_or_null(time_text(t)),
        (PgDecode::Json, PgDatum::Json(v)) => json_shape(v),
        (PgDecode::Uuid, PgDatum::Uuid(b)) => JsonShape::Text(uuid_text(b@)),
        _ => JsonShape::Null,
    }
}

/// A text in single quotes, or `NULL` for no text. The text is not escaped.
pub open spec fn quoted_or_null(text: Option<Seq<char>>) -> Seq<char> {
    match text {
        Some(t) => seq!['\''] + t + seq!['\''],
        None => "NULL"@,
    }
}

/// A byte string as a `bytea` literal in hexadecimal form.
pub open spec fn bytes_literal(bytes: Seq<u8>) -> Seq<char> {
    "'\\x"@ + hex_text(bytes) + seq!['\'']
}

/// The SQL literal that stands for a cell in a dump: `TRUE` or `FALSE`,
/// numbers unquoted, text quoted and escaped, bytes in hexadecimal, dates
/// and times quoted, JSON and UUIDs as quoted text. A cell that was not
/// read as its column's type asks for is `NULL`, as is a NULL cell.
pub open spec fn pg_sql_literal(column_type: PgType, datum: PgDatum) -> Seq<char> {
    match (decoding(column_type), datum) {
        (PgDecode::Bool, PgDatum::Bool(b)) => if b {
            "TRUE"@
        } else {
            "FALSE"@
        },
        (PgDecode::Int2, PgDatum::Int2(v)) => signed_decimal(v as int),
        (PgDecode::Int4, PgDatum::Int4(v)) => signed_decimal(v as int),
        (PgDecode::Int8, PgDatum::Int8(v)) => signed_decimal(v as int),
        (PgDecode::Float4, PgDatum::Real(r)) => r.text@,
        (PgDecode::Float8, PgDatum::Real(r)) => r.text@,
        (PgDecode::Text, PgDatum::Text(s)) => quoted_string(s@),
        (PgDecode::Bytes, PgDatum::Bytes(b)) => bytes_literal(b@),
        (PgDecode::Timestamp, PgDatum::Timestamp(d, t)) => quoted_or_null(timestamp_text(d, t)),
        (PgDecode::Date, PgDatum::Date(d)) => quoted_or_null(date_text(d)),
        (PgDecode::Time, PgDatum::Time(t)) => quoted_or_null(time_text(t)),
        (PgDecode::Json, PgDatum::Json(v)) => quoted_string(json_rendering(v)),
        (PgDecode::Uuid, PgDatum::Uuid(b)) => seq!['\''] + uuid_text(b@) + seq!['\''],
        _ => "NULL"@,
    }
}

fn hex_digit_of(n: u8) -> (c: char)
    requires
        n < 16,
    ensures
        c == hex_digit(n as int),
{
    if n == 0 {
        '0'
    } else if n == 1 {
        '1'
    } else if n == 2 {
        '2'
    } else if n == 3 {
        '3'
    } else if n == 4 {
        '4'
    } else if n == 5 {
        '5'
    } else if n == 6 {
        '6'
    } else if n == 7 {
        '7'
    } else if n == 8 {
        '8'
    } else if n == 9 {
        '9'
    } else if n == 10 {
        'a'
    } else if n == 11 {
        'b'
    } else if n == 12 {
        'c'
    } else if n == 13 {
        'd'
    } else if n == 14 {
        'e'
    } else {
        'f'
    }
}

/// Appends the two hexadecimal digits of each byte, in order.
pub fn push_hex(out: &mut String, bytes: &[u8])
    ensures
        final(out)@ == old(out)@ + hex_text(bytes@),
{
    let ghost start = out@;
    let mut i: usize = 0;
    while i < bytes.len()
        invariant
            i <= bytes.len(),
            out@ == start + hex_text(bytes@.take(i as int)),
        decreases bytes.len() - i,
    {
        proof {
            assert(bytes@.take(i + 1).drop_last() =~= bytes@.take(i as int));
            assert(bytes@.take(i + 1).last() == bytes@[i as int]);
        }
        let b = bytes[i];
        out.push(hex_digit_of(b / 16));
        out.push(hex_digit_of(b % 16));
        i = i + 1;
    }
    proof {
        assert(bytes@.take(bytes@.len() as int) =~= bytes@);
    }
}

fn json_text_or_null(text: Option<String>) -> (json: serde_json::Value)
    ensures
        json_shape(json) == text_or_null(crate::connection::optional_text(text)),
{
    match text {
        Some(t) => json_text(t),
        None => json_null(),
    }
}

fn sql_quoted_or_null(text: Option<String>) -> (sql: String)
    ensures
        sql@ == quoted_or_null(crate::connection::optional_text(text)),
{
    match text {
        Some(t) => {
            let mut sql = String::new();
            sql.push('\'');
            sql.append(t.as_str());
            sql.push('\'');
            proof {
                assert(sql@ =~= seq!['\''] + t@ + seq!['\'']);
            }
            sql
        },
        None => "NULL".to_owned(),
    }
}

/// Maps a cell to the JSON value that stands for it.
pub fn pg_value_to_json(column_type: PgType, datum: &PgDatum) -> (json: serde_json::Value)
    ensures
        json_shape(json) == pg_json_shape(column_type, *datum),
{
    let decode = decode_for(column_type);
    match datum {
        PgDatum::Bool(b) => if decode == PgDecode::Bool {
            json_bool(*b)
        } else {
            json_null()
        },
        PgDatum::Int2(v) => if decode == PgDecode::Int2 {
            json_signed(*v as i64)
        } else {
            json_null()
        },
        PgDatum::Int4(v) => if decode == PgDecode::Int4 {
            json_signed(*v as i64)
        } else {
            json_null()
        },
        PgDatum::Int8(v) => if decode == PgDecode::Int8 {
            json_signed(*v)
        } else {
            json_null()
        },
        PgDatum::Real(r) => if decode == PgDecode::Float4 || decode == PgDecode::Float8 {
            r.json.clone()
        } else {
            json_null()
        },
        PgDatum::Text(s) => if decode == PgDecode::Text {
            json_text(s.clone())
        } else {
            json_null()
        },
        PgDatum::Bytes(b) => if decode == PgDecode::Bytes {
            json_text(base64_encode(b.as_slice()))
        } else {
            json_null()
        },
        PgDatum::Timestamp(d, t) => if decode == PgDecode::Timestamp {
            json_text_or_null(format_timestamp(*d, *t))
        } else {
            json_null()
        },
        PgDatum::Date(d) => if decode == PgDecode::Date {
            json_text_or_null(format_date(*d))
        } else {
            json_null()
        },
        PgDatum::Time(t) => if decode == PgDecode::Time {
            json_text_or_null(format_time(*t))
        } else {
            json_null()
        },
        PgDatum::Json(v) => if decode == PgDecode::Json {
            v.clone()
        } else {
            json_null()
        },
        PgDatum::Uuid(b) => if decode == PgDecode::Uuid {
            json_text(format_uuid(b))
        } else {
            json_null()
        },
        PgDatum::Absent => json_null(),
    }
}

/// Maps a cell to the SQL literal that stands for it in a dump.
pub fn pg_value_to_sql(column_type: PgType, datum: &PgDatum) -> (sql: String)
    ensures
        sql@ == pg_sql_literal(column_type, *datum),
{
    let decode = decode_for(column_type);
    match datum {
        PgDatum::Bool(b) => if decode == PgDecode::Bool {
            if *b {
                "TRUE".to_owned()
            } else {
                "FALSE".to_owned()
            }
        } else {
            "NULL".to_owned()
        },
        PgDatum::Int2(v) => if decode == PgDecode::Int2 {
            signed_decimal_string(*v as i64)
        } else {
            "NULL".to_owned()
        },
        PgDatum::Int4(v) => if decode == PgDecode::Int4 {
            signed_decimal_string(*v as i64)
        } else {
            "NULL".to_owned()
        },
        PgDatum::Int8(v) => if decode == PgDecode::Int8 {
            signed_decimal_string(*v)
        } else {
            "NULL".to_owned()
        },
        PgDatum::Real(r) => if decode == PgDecode::Float4 || decode == PgDecode::Float8 {
            r.text.clone()
        } else {
            "NULL".to_owned()
        },
        PgDatum::Text(s) => if decode == PgDecode::Text {
            let mut sql = String::new();
            push_quoted_string(&mut sql, s.as_str());
            sql
        } else {
            "NULL".to_owned()
        },
        PgDatum::Bytes(b) => if decode == PgDecode::Bytes {
            let mut sql = String::new();
            sql.append("'\\x");
            push_hex(&mut sql, b.as_slice());
            sql.push('\'');
            proof {
                assert(sql@ =~= bytes_literal(b@));
            }
            sql
        } else {
            "NULL".to_owned()
        },
        PgDatum::Timestamp(d, t) => if decode == PgDecode::Timestamp {
            sql_quoted_or_null(format_timestamp(*d, *t))
        } else {
            "NULL".to_owned()
        },
        PgDatum::Date(d) => if decode == PgDecode::Date {
            sql_quoted_or_null(format_date(*d))
        } else {
            "NULL".to_owned()
        },
        PgDatum::Time(t) => if decode == PgDecode::Time {
            sql_quoted_or_null(format_time(*t))
        } else {
            "NULL".to_owned()
        },
        PgDatum::Json(v) => if decode == PgDecode::Json {
            let text = json_to_text(v);
            let mut sql = String::new();
            push_quoted_string(&mut sql, text.as_str());
            sql
        } else {
            "NULL".to_owned()
        },
        PgDatum::Uuid(b) => if decode == PgDecode::Uuid {
            let mut sql = String::new();
            sql.push('\'');
            sql.append(format_uuid(b).as_str());
            sql.push('\'');
            proof {
                assert(sql@ =~= seq!['\''] + uuid_text(b@) + seq!['\'']);
            }
            sql
        } else {
            "NULL".to_owned()
        },
        PgDatum::Absent => "NULL".to_owned(),
    }
}

/// What the engine itself said of a failed statement.
#[derive(Debug, Clone)]
pub struct PgDatabaseError {
    pub message: String,
    /// The SQLSTATE code.
    pub code: String,
    pub detail: Option<String>,
    pub hint: Option<String>,
}

/// A failure that the PostgreSQL driver reported.
#[derive(Debug, Clone)]
pub struct PgError {
    /// What the engine said, where the failure came from the engine.
    pub database: Option<PgDatabaseError>,
    /// The failure in the driver's own words.
    pub text: String,
}

/// Message of a cell update that timed out.
pub const UPDATE_TIMED_OUT: &'static str = "Update operation timed out";

/// Advice for a cell update that timed out.
pub const UPDATE_TIMED_OUT_HINT: &'static str =
    "The database took too long to respond. Try again or check database load.";

/// Advice for the common SQLSTATE codes: bad format, out of range, NOT NULL
/// violated, foreign key violated, unique constraint violated, unknown column
/// and unknown table.
pub open spec fn sqlstate_hint(code: Seq<char>) -> Option<Seq<char>> {
    if code == "22P02"@ {
        Some("Value has invalid format for the target column type"@)
    } else if code == "22003"@ {
        Some("Value is out of range for the target column type"@)
    } else if code == "23502"@ {
        Some("Column does not allow NULL values"@)
    } else if code == "23503"@ {
        Some("Referenced value does not exist (foreign key violation)"@)
    } else if code == "23505"@ {
        Some("Value already exists (unique constraint violation)"@)
    } else if code == "42703"@ {
        Some("Check column name spelling"@)
    } else if code == "42P01"@ {
        Some("Check table name spelling"@)
    } else {
        None
    }
}

/// The error that a driver failure is reported as. What the engine said is
/// passed on with its SQLSTATE code as the code; where it gave no hint, the
/// hint for its code is filled in. A failure outside the engine is reported
/// under `code` in the driver's words.
pub open spec fn pg_error_view(err: PgError, code: Seq<char>) -> QueryErrorView {
    match err.database {
        Some(db) => QueryErrorView {
            message: db.message@,
            code: Some(db.code@),
            detail: optional_text(db.detail),
            hint: match db.hint {
                Some(h) => Some(h@),
                None => sqlstate_hint(db.code@),
            },
        },
        None => plain_error(err.text@, code),
    }
}

/// Advice for a SQLSTATE code, where there is any.
pub fn hint_for_sqlstate(code: &str) -> (hint: Option<&'static str>)
    ensures
        optional_str(hint) == sqlstate_hint(code@),
{
    if same_text(code, "22P02") {
        Some("Value has invalid format for the target column type")
    } else if same_text(code, "22003") {
        Some("Value is out of range for the target column type")
    } else if same_text(code, "23502") {
        Some("Column does not allow NULL values")
    } else if same_text(code, "23503") {
        Some("Referenced value does not exist (foreign key violation)")
    } else if same_text(code, "23505") {
        Some("Value already exists (unique constraint violation)")
    } else if same_text(code, "42703") {
        Some("Check column name spelling")
    } else if same_text(code, "42P01") {
        Some("Check table name spelling")
    } else {
        None
    }
}

/// Reports a driver failure with all that the engine said of it.
pub fn pg_error_to_query_error(err: PgError, code: &str) -> (e: QueryError)
    ensures
        e@ == pg_error_view(err, code@),
{
    match err.database {
        Some(db) => {
            let hint = match db.hint {
                Some(h) => Some(h),
                None => match hint_for_sqlstate(db.code.as_str()) {
                    Some(h) => Some(h.to_owned()),
                    None => None,
                },
            };
            QueryError { message: db.message, code: Some(db.code), detail: db.detail, hint }
        },
        None => QueryError::with_code(err.text, code),
    }
}

/// How a statement sent to PostgreSQL went wrong.
#[derive(Debug, Clone)]
pub enum PgFailure {
    /// The driver reported an error.
    Error(PgError),
    /// The deadline passed first.
    Timeout,
}

/// The error that a failed cell update is reported as.
pub open spec fn update_failure_view(failure: PgFailure) -> QueryErrorView {
    match failure {
        PgFailure::Error(err) => pg_error_view(err, QUERY_ERROR@),
        PgFailure::Timeout => QueryErrorView {
            message: UPDATE_TIMED_OUT@,
            code: Some(TIMEOUT_ERROR@),
            detail: None,
            hint: Some(UPDATE_TIMED_OUT_HINT@),
        },
    }
}

/// The parameters of a client connection, as one text.
pub open spec fn connection_config(
    host: Seq<char>,
    port: u16,
    username: Seq<char>,
    password: Seq<char>,
    database: Seq<char>,
) -> Seq<char> {
    "host="@ + host + " port="@ + decimal(port as nat) + " user="@ + username + " password="@
        + password + " dbname="@ + database
}

/// The statement that updates one cell, with numbered placeholders for the
/// values. Without a value the cell is set to NULL in the statement itself.
pub open spec fn update_statement(
    table: Seq<char>,
    column: Seq<char>,
    has_value: bool,
    key_column: Seq<char>,
) -> Seq<char> {
    "UPDATE "@ + quoted_identifier(table) + " SET "@ + quoted_identifier(column) + (if has_value {
        " = $1 WHERE "@
    } else {
        " = NULL WHERE "@
    }) + quoted_identifier(key_column) + (if has_value {
        " = $2"@
    } else {
        " = $1"@
    })
}

/// The update of one cell with the values written in, for display.
pub open spec fn logged_update(
    table: Seq<char>,
    column: Seq<char>,
    new_value: Option<Seq<char>>,
    key_column: Seq<char>,
    key_value: Seq<char>,
) -> Seq<char> {
    "UPDATE "@ + quoted_identifier(table) + " SET "@ + quoted_identifier(column) + " = "@ + (
    match new_value {
        Some(v) => quoted_string(v),
        None => "NULL"@,
    }) + " WHERE "@ + quoted_identifier(key_column) + " = "@ + quoted_string(key_value)
}

/// The update of one cell: the values travel as bound parameters, the new
/// value first, and a NULL is part of the statement and no parameter.
pub open spec fn cell_update(
    table: Seq<char>,
    column: Seq<char>,
    new_value: Option<Seq<char>>,
    key_column: Seq<char>,
    key_value: Seq<char>,
) -> CellUpdateView {
    CellUpdateView {
        statement: update_statement(table, column, new_value is Some, key_column),
        parameters: match new_value {
            Some(v) => seq![v, key_value],
            None => seq![key_value],
        },
        logged_query: logged_update(table, column, new_value, key_column, key_value),
    }
}

/// The mathematical content of a `PostgresConnection`.
pub struct PostgresConnectionView {
    pub host: Seq<char>,
    pub port: u16,
    pub username: Seq<char>,
    pub password: Seq<char>,
    pub current_database: Seq<char>,
    pub ssl_mode: Seq<char>,
}

/// The state of a connection after a change of database has succeeded.
pub open spec fn database_changed(
    before: PostgresConnectionView,
    database_name: Seq<char>,
) -> PostgresConnectionView {
    PostgresConnectionView { current_database: database_name, ..before }
}

/// After a change of database has succeeded, the new database is the
/// current one, a client made for it connects to it with the parameters of
/// the connection, and nothing else of the connection has changed.
pub proof fn lemma_change_database_is_seen(before: PostgresConnectionView, database_name: Seq<char>)
    ensures
        database_changed(before, database_name).current_database == database_name,
        connection_config(
            database_changed(before, database_name).host,
            database_changed(before, database_name).port,
            database_changed(before, database_name).username,
            database_changed(before, database_name).password,
            database_changed(before, database_name).current_database,
        ) == connection_config(
            before.host,
            before.port,
            before.username,
            before.password,
            database_name,
        ),
        database_changed(before, database_name).ssl_mode == before.ssl_mode,
{
}

/// An update without a value sets the cell to NULL in the statement, and
/// binds the key only: no text travels as the cell's value.
pub proof fn lemma_null_update_binds_no_value(
    table: Seq<char>,
    column: Seq<char>,
    key_column: Seq<char>,
    key_value: Seq<char>,
)
    ensures
        cell_update(table, column, None, key_column, key_value).parameters == seq![key_value],
        cell_update(table, column, None, key_column, key_value).statement == "UPDATE "@
            + quoted_identifier(table) + " SET "@ + quoted_identifier(column) + " = NULL WHERE "@
            + quoted_identifier(key_column) + " = $1"@,
{
}

/// What the driver knows of a PostgreSQL connection besides the client: the
/// parameters it was made with and the database that the client is
/// connected to.
#[derive(Debug)]
pub struct PostgresConnection {
    host: String,
    port: u16,
    username: String,
    password: String,
    current_database: String,
    ssl_mode: String,
}

impl View for PostgresConnection {
    type V = PostgresConnectionView;

    closed spec fn view(&self) -> PostgresConnectionView {
        PostgresConnectionView {
            host: self.host@,
            port: self.port,
            username: self.username@,
            password: self.password@,
            current_database: self.current_database@,
            ssl_mode: self.ssl_mode@,
        }
    }
}

impl PostgresConnection {
    /// The state of a fresh connection to `database`.
    pub fn new(
        host: &str,
        port: u16,
        username: &str,
        password: &str,
        database: &str,
        ssl_mode: &str,
    ) -> (conn: Self)
        ensures
            conn@ == (PostgresConnectionView {
                host: host@,
                port,
                username: username@,
                password: password@,
                current_database: database@,
                ssl_mode: ssl_mode@,
            }),
    {
        PostgresConnection {
            host: host.to_owned(),
            port,
            username: username.to_owned(),
            password: password.to_owned(),
            current_database: database.to_owned(),
            ssl_mode: ssl_mode.to_owned(),
        }
    }

    /// The parameters of a client connection to `database`, as one text.
    pub fn client_config(
        host: &str,
        port: u16,
        username: &str,
        password: &str,
        database: &str,
    ) -> (config: String)
        ensures
            config@ == connection_config(host@, port, username@, password@, database@),
    {
        let mut config = String::new();
        config.append("host=");
        config.append(host);
        config.append(" port=");
        push_decimal(&mut config, port as u64);
        config.append(" user=");
        config.append(username);
        config.append(" password=");
        config.append(password);
        config.append(" dbname=");
        config.append(database);
        proof {
            assert(config@ =~= connection_config(host@, port, username@, password@, database@));
        }
        config
    }

    /// The parameters of a new client of this connection to `database_name`.
    /// PostgreSQL cannot switch a session to another database; a change of
    /// database is a new client.
    pub fn config_for(&self, database_name: &str) -> (config: String)
        ensures
            config@ == connection_config(
                self@.host,
                self@.port,
                self@.username,
                self@.password,
                database_name@,
            ),
    {
        Self::client_config(
            self.host.as_str(),
            self.port,
            self.username.as_str(),
            self.password.as_str(),
            database_name,
        )
    }

    /// The SSL mode that a new client is to be made under.
    pub fn ssl_mode(&self) -> (mode: String)
        ensures
            mode@ == self@.ssl_mode,
    {
        self.ssl_mode.clone()
    }

    /// Concludes a change of database, given how the connection of the new
    /// client went: on success the new client has replaced the old one and
    /// `database_name` is the current database, on failure nothing changes.
    pub fn change_database(
        &mut self,
        database_name: &str,
        connected: Result<(), QueryError>,
    ) -> (r: DbResult<()>)
        ensures
            match connected {
                Ok(_) => r is Ok && final(self)@ == database_changed(old(self)@, database_name@),
                Err(error) => final(self)@ == old(self)@ && (r matches Err(e) && e@ == error@),
            },
    {
        match connected {
            Ok(_) => {
                self.current_database = database_name.to_owned();
                Ok(())
            },
            Err(error) => Err(error),
        }
    }

    /// Concludes the update of a cell, given how the statement went: on
    /// success the statement as it is displayed, else the error with all
    /// that the engine said.
    pub fn update_cell_outcome(
        update: CellUpdate,
        outcome: Result<(), PgFailure>,
    ) -> (r: DbResult<String>)
        ensures
            match outcome {
                Ok(_) => r matches Ok(sql) && sql@ == update@.logged_query,
                Err(failure) => r matches Err(e) && e@ == update_failure_view(failure),
            },
    {
        match outcome {
            Ok(_) => Ok(update.logged_query),
            Err(PgFailure::Error(err)) => Err(pg_error_to_query_error(err, QUERY_ERROR)),
            Err(PgFailure::Timeout) => Err(
                QueryError::with_code(UPDATE_TIMED_OUT.to_owned(), TIMEOUT_ERROR).with_hint(
                    UPDATE_TIMED_OUT_HINT,
                ),
            ),
        }
    }

}

impl DatabaseConnection for PostgresConnection {
    open spec fn engine_kind(&self) -> EngineKind {
        EngineKind::Postgres
    }

    closed spec fn current_database(&self) -> Seq<char> {
        self.current_database@
    }

    fn engine(&self) -> (kind: EngineKind) {
        EngineKind::Postgres
    }

    fn list_tables(&self) -> (sql: String) {
        LIST_TABLES_SQL.to_owned()
    }

    fn list_databases(&self) -> (sql: String) {
        LIST_DATABASES_SQL.to_owned()
    }

    fn get_current_database(&self) -> (name: DbResult<String>) {
        Ok(self.current_database.clone())
    }

    fn update_cell(
        &self,
        table_name: &str,
        column_name: &str,
        new_value: Option<&str>,
        primary_key_column: &str,
        primary_key_value: &str,
    ) -> (update: CellUpdate)
    {
        let mut statement = String::new();
        statement.append("UPDATE ");
        push_quoted_identifier(&mut statement, table_name);
        statement.append(" SET ");
        push_quoted_identifier(&mut statement, column_name);
        let mut logged_query = statement.clone();
        logged_query.append(" = ");
        let mut parameters: Vec<String> = Vec::new();
        match new_value {
            Some(value) => {
                statement.append(" = $1 WHERE ");
                push_quoted_identifier(&mut statement, primary_key_column);
                statement.append(" = $2");
                push_quoted_string(&mut logged_query, value);
                parameters.push(value.to_owned());
            },
            None => {
                statement.append(" = NULL WHERE ");
                push_quoted_identifier(&mut statement, primary_key_column);
                statement.append(" = $1");
                logged_query.append("NULL");
            },
        }
        logged_query.append(" WHERE ");
        push_quoted_identifier(&mut logged_query, primary_key_column);
        logged_query.append(" = ");
        push_quoted_string(&mut logged_query, primary_key_value);
        parameters.push(primary_key_value.to_owned());
        proof {
            let expected = cell_update(
                table_name@,
                column_name@,
                optional_str(new_value),
                primary_key_column@,
                primary_key_value@,
            );
            assert(statement@ =~= expected.statement);
            assert(logged_query@ =~= expected.logged_query);
            assert(texts(parameters@) =~= expected.parameters);
        }
        CellUpdate { statement, parameters, logged_query }
    }

    fn export_database_with_options(
        &self,
        include_drop: bool,
        include_create: bool,
        data_mode: &str,
        selected_tables: &[String],
        max_insert_size: usize,
    ) -> (started: (ExportJob, ExportRequest))
    {
        ExportJob::begin(
            EngineKind::Postgres,
            include_drop,
            include_create,
            data_mode,
            selected_tables,
            max_insert_size,
        )
    }
}

/// The view of a connection names the database that its client is
/// connected to.
pub proof fn lemma_current_database_is_viewed(conn: PostgresConnection)
    ensures
        conn.current_database() == conn@.current_database,
{
}

/// The statement that describes the columns of the table bound to `$1`.
pub const TABLE_COLUMNS_SQL: &'static str =
    "SELECT c.column_name, c.udt_name, c.is_nullable, CASE WHEN pk.column_name IS NOT NULL THEN true ELSE false END as is_primary, c.column_default, c.character_maximum_length, c.numeric_precision FROM information_schema.columns c LEFT JOIN (SELECT ku.column_name FROM information_schema.table_constraints tc JOIN information_schema.key_column_usage ku ON tc.constraint_name = ku.constraint_name WHERE tc.constraint_type = 'PRIMARY KEY' AND tc.table_name = $1 AND tc.table_schema = 'public') pk ON c.column_name = pk.column_name WHERE c.table_name = $1 AND c.table_schema = 'public' ORDER BY c.ordinal_position";

/// The statement that lists the foreign-key columns of the public schema.
pub const TABLE_RELATIONSHIPS_SQL: &'static str =
    "SELECT tc.table_name AS from_table, kcu.column_name AS from_column, ccu.table_name AS to_table, ccu.column_name AS to_column, tc.constraint_name FROM information_schema.table_constraints tc JOIN information_schema.key_column_usage kcu ON tc.constraint_name = kcu.constraint_name AND tc.table_schema = kcu.table_schema JOIN information_schema.constraint_column_usage ccu ON ccu.constraint_name = tc.constraint_name AND ccu.table_schema = tc.table_schema WHERE tc.constraint_type = 'FOREIGN KEY' AND tc.table_schema = 'public' ORDER BY tc.table_name";

/// The statement of the liveness probe.
pub const PROBE_SQL: &'static str = "SELECT 1";

/// A row of the catalog that describes a column. A cell that the driver
/// could not read as asked is missing.
#[derive(Debug, Clone)]
pub struct PgColumnRow {
    pub name: Option<String>,
    pub data_type: Option<String>,
    /// `YES` where the column takes NULL.
    pub is_nullable: Option<String>,
    pub is_primary_key: Option<bool>,
    pub column_default: Option<String>,
    pub character_maximum_length: Option<i32>,
    pub numeric_precision: Option<i32>,
}

/// A 32-bit number as a 64-bit one.
pub open spec fn widened(n: Option<i32>) -> Option<i64> {
    match n {
        Some(v) => Some(v as i64),
        None => None,
    }
}

/// The column that a row of the catalog describes. A row without name,
/// type, nullability or key flag describes none.
pub open spec fn pg_column(row: PgColumnRow) -> Option<TableColumnView> {
    match (row.name, row.data_type, row.is_nullable, row.is_primary_key) {
        (Some(name), Some(data_type), Some(nullable), Some(primary)) => Some(
            TableColumnView {
                name: name@,
                data_type: data_type@,
                is_nullable: nullable@ == "YES"@,
                is_primary_key: primary,
                column_default: optional_text(row.column_default),
                character_maximum_length: widened(row.character_maximum_length),
                numeric_precision: widened(row.numeric_precision),
            },
        ),
        _ => None,
    }
}

/// The columns that the rows of the catalog describe, in order; rows that
/// describe none are left out.
pub open spec fn pg_columns(rows: Seq<PgColumnRow>) -> Seq<TableColumnView>
    decreases rows.len(),
{
    if rows.len() == 0 {
        Seq::empty()
    } else {
        match pg_column(rows.last()) {
            Some(c) => pg_columns(rows.drop_last()).push(c),
            None => pg_columns(rows.drop_last()),
        }
    }
}

/// The content of a list of columns.
pub open spec fn column_views(columns: Seq<TableColumn>) -> Seq<TableColumnView> {
    columns.map_values(|c: TableColumn| c@)
}

fn widen(n: Option<i32>) -> (w: Option<i64>)
    ensures
        w == widened(n),
{
    match n {
        Some(v) => Some(v as i64),
        None => None,
    }
}

fn copy_optional(text: &Option<String>) -> (copy: Option<String>)
    ensures
        optional_text(copy) == optional_text(*text),
{
    match text {
        Some(t) => Some(t.clone()),
        None => None,
    }
}

/// The column that a row of the catalog describes, if it describes one.
pub fn column_from_row(row: &PgColumnRow) -> (column: Option<TableColumn>)
    ensures
        match pg_column(*row) {
            Some(c) => column matches Some(col) && col@ == c,
            None => column is None,
        },
{
    match (&row.name, &row.data_type, &row.is_nullable, &row.is_primary_key) {
        (Some(name), Some(data_type), Some(nullable), Some(primary)) => Some(
            TableColumn {
                name: name.clone(),
                data_type: data_type.clone(),
                is_nullable: same_text(nullable.as_str(), "YES"),
                is_primary_key: *primary,
                column_default: copy_optional(&row.column_default),
                character_maximum_length: widen(row.character_maximum_length),
                numeric_precision: widen(row.numeric_precision),
            },
        ),
        _ => None,
    }
}

/// The columns that the rows of the catalog describe, in order.
pub fn columns_from_rows(rows: &[PgColumnRow]) -> (columns: Vec<TableColumn>)
    ensures
        column_views(columns@) == pg_columns(rows@),
{
    let mut columns: Vec<TableColumn> = Vec::new();
    let mut i: usize = 0;
    while i < rows.len()
        invariant
            i <= rows.len(),
            column_views(columns@) =~= pg_columns(rows@.take(i as int)),
        decreases rows.len() - i,
    {
        proof {
            assert(rows@.take(i + 1).drop_last() =~= rows@.take(i as int));
            assert(rows@.take(i + 1).last() == rows@[i as int]);
        }
        match column_from_row(&rows[i]) {
            Some(column) => {
                proof {
                    assert(column_views(columns@.push(column)) =~= column_views(columns@).push(
                        column@,
                    ));
                }
                columns.push(column);
            },
            None => {},
        }
        i = i + 1;
    }
    proof {
        assert(rows@.take(rows@.len() as int) =~= rows@);
    }
    columns
}

/// Where every row of the catalog describes a column, the columns are as
/// many as the rows, in the same order, and each is flagged as primary key
/// exactly where the catalog says so of its row.
pub proof fn lemma_columns_keep_their_flags(rows: Seq<PgColumnRow>)
    requires
        forall|i: int| 0 <= i < rows.len() ==> pg_column(#[trigger] rows[i]) is Some,
    ensures
        pg_columns(rows).len() == rows.len(),
        forall|i: int|
            0 <= i < rows.len() ==> (#[trigger] pg_columns(rows)[i]).is_primary_key
                == rows[i].is_primary_key->0,
    decreases rows.len(),
{
    if rows.len() > 0 {
        let front = rows.drop_last();
        assert forall|i: int| 0 <= i < front.len() implies pg_column(#[trigger] front[i]) is Some by {
            assert(front[i] == rows[i]);
        }
        lemma_columns_keep_their_flags(front);
        assert(pg_column(rows.last()) is Some);
        assert forall|i: int| 0 <= i < rows.len() implies (#[trigger] pg_columns(
            rows,
        )[i]).is_primary_key == rows[i].is_primary_key->0 by {
            if i < front.len() {
                assert(pg_columns(rows)[i] == pg_columns(front)[i]);
                assert(front[i] == rows[i]);
            }
        }
    }
}

/// A row of the catalog that describes a foreign-key column. A cell that the
/// driver could not read is missing.
#[derive(Debug, Clone)]
pub struct PgRelationshipRow {
    pub from_table: Option<String>,
    pub from_column: Option<String>,
    pub to_table: Option<String>,
    pub to_column: Option<String>,
    pub constraint_name: Option<String>,
}

/// The foreign-key edge that a row of the catalog describes. A row with a
/// missing cell describes none.
pub open spec fn pg_relationship(row: PgRelationshipRow) -> Option<TableRelationshipView> {
    match (row.from_table, row.from_column, row.to_table, row.to_column, row.constraint_name) {
        (Some(ft), Some(fc), Some(tt), Some(tc), Some(cn)) => Some(
            TableRelationshipView {
                from_table: ft@,
                from_column: fc@,
                to_table: tt@,
                to_column: tc@,
                constraint_name: cn@,
            },
        ),
        _ => None,
    }
}

/// The edges that the rows of the catalog describe, in order; rows that
/// describe none are left out.
pub open spec fn pg_relationships(rows: Seq<PgRelationshipRow>) -> Seq<TableRelationshipView>
    decreases rows.len(),
{
    if rows.len() == 0 {
        Seq::empty()
    } else {
        match pg_relationship(rows.last()) {
            Some(r) => pg_relationships(rows.drop_last()).push(r),
            None => pg_relationships(rows.drop_last()),
        }
    }
}

/// The content of a list of edges.
pub open spec fn relationship_views(edges: Seq<TableRelationship>) -> Seq<TableRelationshipView> {
    edges.map_values(|r: TableRelationship| r@)
}

/// The foreign-key edge that a row of the catalog describes, if it
/// describes one.
pub fn relationship_from_row(row: &PgRelationshipRow) -> (edge: Option<TableRelationship>)
    ensures
        match pg_relationship(*row) {
            Some(r) => edge matches Some(e) && e@ == r,
            None => edge is None,
        },
{
    match (&row.from_table, &row.from_column, &row.to_table, &row.to_column, &row.constraint_name) {
        (Some(ft), Some(fc), Some(tt), Some(tc), Some(cn)) => Some(
            TableRelationship {
                from_table: ft.clone(),
                from_column: fc.clone(),
                to_table: tt.clone(),
                to_column: tc.clone(),
                constraint_name: cn.clone(),
            },
        ),
        _ => None,
    }
}

/// The edges that the rows of the catalog describe, in order.
pub fn relationships_from_rows(rows: &[PgRelationshipRow]) -> (edges: Vec<TableRelationship>)
    ensures
        relationship_views(edges@) == pg_relationships(rows@),
{
    let mut edges: Vec<TableRelationship> = Vec::new();
    let mut i: usize = 0;
    while i < rows.len()
        invariant
            i <= rows.len(),
            relationship_views(edges@) =~= pg_relationships(rows@.take(i as int)),
        decreases rows.len() - i,
    {
        proof {
            assert(rows@.take(i + 1).drop_last() =~= rows@.take(i as int));
            assert(rows@.take(i + 1).last() == rows@[i as int]);
        }
        match relationship_from_row(&rows[i]) {
            Some(edge) => {
                proof {
                    assert(relationship_views(edges@.push(edge)) =~= relationship_views(
                        edges@,
                    ).push(edge@));
                }
                edges.push(edge);
            },
            None => {},
        }
        i = i + 1;
    }
    proof {
        assert(rows@.take(rows@.len() as int) =~= rows@);
    }
    edges
}

/// The JSON value of the cell at index `i` of a row; a cell that the row
/// does not have reads as JSON null.
pub open spec fn pg_cell_shape(row: Seq<PgCell>, i: int) -> JsonShape {
    if 0 <= i < row.len() {
        pg_json_shape(row[i].column_type, row[i].datum)
    } else {
        JsonShape::Null
    }
}

/// The members of the JSON object for a row, after the first `n` columns
/// were entered: each column name stands for the JSON value of its cell, and
/// of two columns of one name the later one stays.
pub open spec fn pg_row_members(
    columns: Seq<Seq<char>>,
    row: Seq<PgCell>,
    n: nat,
) -> Map<Seq<char>, JsonShape>
    decreases n,
{
    if n == 0 {
        Map::empty()
    } else {
        pg_row_members(columns, row, (n - 1) as nat).insert(columns[n - 1], pg_cell_shape(row, n - 1))
    }
}

/// The JSON object for a row.
pub open spec fn pg_row_shape(columns: Seq<Seq<char>>, row: Seq<PgCell>) -> JsonShape {
    JsonShape::Object(pg_row_members(columns, row, columns.len()))
}

/// The JSON object for a row, keyed by column name.
pub fn pg_row_to_json(columns: &[String], row: &[PgCell]) -> (json: serde_json::Value)
    ensures
        json_shape(json) == pg_row_shape(texts(columns@), row@),
{
    let mut members = json_map_with_capacity(columns.len());
    let mut i: usize = 0;
    while i < columns.len()
        invariant
            i <= columns.len(),
            json_members(members) == pg_row_members(texts(columns@), row@, i as nat),
        decreases columns.len() - i,
    {
        let value = if i < row.len() {
            pg_value_to_json(row[i].column_type, &row[i].datum)
        } else {
            json_null()
        };
        json_map_insert(&mut members, columns[i].clone(), value);
        i = i + 1;
    }
    json_object(members)
}

/// The number of rows that are kept of a result of `total` rows: all of
/// them up to `MAX_QUERY_ROWS`, and `MAX_QUERY_ROWS` beyond that.
pub open spec fn materialized_rows(total: nat) -> nat {
    if total <= MAX_QUERY_ROWS {
        total
    } else {
        MAX_QUERY_ROWS as nat
    }
}

/// The number of rows, counted from the first, that are to be read of a
/// result of `total_rows` rows.
pub fn rows_to_materialize(total_rows: usize) -> (kept: usize)
    ensures
        kept == materialized_rows(total_rows as nat),
{
    if total_rows > MAX_QUERY_ROWS {
        MAX_QUERY_ROWS
    } else {
        total_rows
    }
}

/// The result of a query that gave `total_rows` rows, of which `rows` are
/// the first `rows_to_materialize(total_rows)`: each of these becomes a JSON
/// object, and all rows are counted.
pub fn query_result(
    columns: Vec<String>,
    rows: &[Vec<PgCell>],
    total_rows: usize,
    execution_time: u128,
) -> (result: QueryResult)
    requires
        rows@.len() == materialized_rows(total_rows as nat),
    ensures
        result.is_capped(),
        result.row_count == total_rows,
        result.rows@.len() == rows@.len(),
        texts(result.columns@) == texts(columns@),
        result.execution_time == execution_time,
        forall|i: int|
            0 <= i < result.rows@.len() ==> json_shape(#[trigger] result.rows@[i]) == pg_row_shape(
                texts(columns@),
                rows@[i]@,
            ),
{
    let truncated = total_rows > MAX_QUERY_ROWS;
    let mut objects: Vec<serde_json::Value> = Vec::new();
    let mut i: usize = 0;
    while i < rows.len()
        invariant
            i <= rows@.len(),
            objects@.len() == i,
            forall|j: int|
                0 <= j < i ==> json_shape(#[trigger] objects@[j]) == pg_row_shape(
                    texts(columns@),
                    rows@[j]@,
                ),
        decreases rows.len() - i,
    {
        objects.push(pg_row_to_json(columns.as_slice(), rows[i].as_slice()));
        i = i + 1;
    }
    QueryResult { columns, rows: objects, row_count: total_rows, execution_time, truncated }
}

/// The SQL literal of the cell at index `i` of a row; a cell that the row
/// does not have reads as `NULL`.
pub open spec fn pg_cell_literal(row: Seq<PgCell>, i: int) -> Seq<char> {
    if 0 <= i < row.len() {
        pg_sql_literal(row[i].column_type, row[i].datum)
    } else {
        "NULL"@
    }
}

/// The SQL literals of the first `width` cells of a row.
pub open spec fn pg_row_literals(width: nat, row: Seq<PgCell>) -> Seq<Seq<char>> {
    Seq::new(width, |i: int| pg_cell_literal(row, i))
}

/// The SQL literals of the rows of a page.
pub open spec fn pg_page_literals(width: nat, rows: Seq<Vec<PgCell>>) -> Seq<Seq<Seq<char>>> {
    rows.map_values(|r: Vec<PgCell>| pg_row_literals(width, r@))
}

/// The SQL literals of the first `width` cells of a row.
pub fn pg_row_to_literals(width: usize, row: &[PgCell]) -> (literals: Vec<String>)
    ensures
        texts(literals@) == pg_row_literals(width as nat, row@),
{
    let mut literals: Vec<String> = Vec::new();
    let mut i: usize = 0;
    while i < width
        invariant
            i <= width,
            texts(literals@) =~= pg_row_literals(width as nat, row@).take(i as int),
        decreases width - i,
    {
        let literal = if i < row.len() {
            pg_value_to_sql(row[i].column_type, &row[i].datum)
        } else {
            "NULL".to_owned()
        };
        proof {
            assert(texts(literals@.push(literal)) =~= texts(literals@).push(literal@));
        }
        literals.push(literal);
        i = i + 1;
    }
    literals
}

/// The SQL literals of the rows of a page.
pub fn pg_page_to_literals(width: usize, rows: &[Vec<PgCell>]) -> (literals: Vec<Vec<String>>)
    ensures
        row_texts(literals@) == pg_page_literals(width as nat, rows@),
{
    let mut literals: Vec<Vec<String>> = Vec::new();
    let mut i: usize = 0;
    while i < rows.len()
        invariant
            i <= rows.len(),
            row_texts(literals@) =~= pg_page_literals(width as nat, rows@).take(i as int),
        decreases rows.len() - i,
    {
        let row = pg_row_to_literals(width, rows[i].as_slice());
        proof {
            assert(row_texts(literals@.push(row)) =~= row_texts(literals@).push(texts(row@)));
        }
        literals.push(row);
        i = i + 1;
    }
    literals
}

/// Takes one page of the current table as the PostgreSQL driver read it, and
/// writes its rows as SQL literals, one per column.
pub fn export_page_fetched(
    job: &mut ExportJob,
    columns: &[String],
    rows: &[Vec<PgCell>],
) -> (request: ExportRequest)
    requires
        old(job)@.stage == ExportStage::AwaitPage,
        job_is_sound(old(job)@),
        rows@.len() >= EXPORT_PAGE_ROWS ==> old(job)@.offset + EXPORT_PAGE_ROWS <= u64::MAX,
    ensures
        (final(job)@, request@) == page_received(
            old(job)@,
            texts(columns@),
            pg_page_literals(columns@.len(), rows@),
        ),
        job_is_sound(final(job)@),
{
    let literals = pg_page_to_literals(columns.len(), rows);
    job.page_fetched(columns, literals.as_slice())
}

/// A row of the catalog that describes a column of a table to export. A
/// cell that the driver could not read is missing; a cell that is NULL is
/// present and empty.
#[derive(Debug, Clone)]
pub struct PgCreateRow {
    pub name: Option<String>,
    pub data_type: Option<String>,
    pub character_maximum_length: Option<Option<i32>>,
    /// `NO` where the column refuses NULL.
    pub is_nullable: Option<String>,
    pub column_default: Option<Option<String>>,
    /// Whether the column belongs to the primary key.
    pub is_primary_key: Option<bool>,
}

/// Whether every cell of a row of the catalog was read.
pub open spec fn is_read(row: PgCreateRow) -> bool {
    &&& row.name is Some
    &&& row.data_type is Some
    &&& row.character_maximum_length is Some
    &&& row.is_nullable is Some
    &&& row.column_default is Some
    &&& row.is_primary_key is Some
}

/// The definition of a column in a CREATE statement: the name, the type in
/// upper case, the length where there is one, `NOT NULL` where NULL is
/// refused, and the default where there is one. A row with a missing cell
/// gives none.
pub open spec fn column_definition(row: PgCreateRow) -> Option<Seq<char>> {
    if is_read(row) {
        Some(
            "  "@ + quoted_identifier(row.name->0@) + " "@ + uppercase_of(row.data_type->0@) + (
            match row.character_maximum_length->0 {
                Some(n) => "("@ + signed_decimal(n as int) + ")"@,
                None => Seq::empty(),
            }) + (if row.is_nullable->0@ == "NO"@ {
                " NOT NULL"@
            } else {
                Seq::empty()
            }) + (match row.column_default->0 {
                Some(d) => " DEFAULT "@ + d@,
                None => Seq::empty(),
            }),
        )
    } else {
        None
    }
}

/// The column definitions that the rows of the catalog give, in order.
pub open spec fn column_definitions(rows: Seq<PgCreateRow>) -> Seq<Seq<char>>
    decreases rows.len(),
{
    if rows.len() == 0 {
        Seq::empty()
    } else {
        match column_definition(rows.last()) {
            Some(d) => column_definitions(rows.drop_last()).push(d),
            None => column_definitions(rows.drop_last()),
        }
    }
}

/// The names of the columns that the catalog flags as part of the primary
/// key, in the order of the rows. A row with a missing cell is left out.
pub open spec fn primary_key_columns(rows: Seq<PgCreateRow>) -> Seq<Seq<char>>
    decreases rows.len(),
{
    if rows.len() == 0 {
        Seq::empty()
    } else if is_read(rows.last()) && rows.last().is_primary_key->0 {
        primary_key_columns(rows.drop_last()).push(rows.last().name->0@)
    } else {
        primary_key_columns(rows.drop_last())
    }
}

/// The CREATE statement of a table, rebuilt from the catalog.
pub open spec fn create_table_block(table: Seq<char>, rows: Seq<PgCreateRow>) -> Seq<char> {
    "CREATE TABLE "@ + quoted_identifier(table) + " (\n"@ + join(
        column_definitions(rows),
        ",\n"@,
    ) + "\n);\n\n"@
}

/// The definition of a column in a CREATE statement, if the row gives one.
pub fn column_definition_of(row: &PgCreateRow) -> (definition: Option<String>)
    ensures
        optional_text(definition) == column_definition(*row),
{
    match (
        &row.name,
        &row.data_type,
        &row.character_maximum_length,
        &row.is_nullable,
        &row.column_default,
        &row.is_primary_key,
    ) {
        (Some(name), Some(data_type), Some(length), Some(nullable), Some(default), Some(_)) => {
            let mut def = String::new();
            def.append("  ");
            push_quoted_identifier(&mut def, name.as_str());
            def.append(" ");
            let upper = uppercase(data_type.as_str());
            def.append(upper.as_str());
            match length {
                Some(n) => {
                    def.append("(");
                    push_signed_decimal(&mut def, *n as i64);
                    def.append(")");
                },
                None => {},
            }
            if same_text(nullable.as_str(), "NO") {
                def.append(" NOT NULL");
            }
            match default {
                Some(d) => {
                    def.append(" DEFAULT ");
                    def.append(d.as_str());
                },
                None => {},
            }
            proof {
                assert(Some(def@) =~= column_definition(*row));
            }
            Some(def)
        },
        _ => None,
    }
}

/// The names of the columns that the catalog flags as part of the primary
/// key, in the order of the rows.
pub fn primary_key_of(rows: &[PgCreateRow]) -> (keys: Vec<String>)
    ensures
        texts(keys@) == primary_key_columns(rows@),
{
    let mut keys: Vec<String> = Vec::new();
    let mut i: usize = 0;
    while i < rows.len()
        invariant
            i <= rows.len(),
            texts(keys@) =~= primary_key_columns(rows@.take(i as int)),
        decreases rows.len() - i,
    {
        proof {
            assert(rows@.take(i + 1).drop_last() =~= rows@.take(i as int));
            assert(rows@.take(i + 1).last() == rows@[i as int]);
        }
        let row = &rows[i];
        match (
            &row.name,
            &row.data_type,
            &row.character_maximum_length,
            &row.is_nullable,
            &row.column_default,
            &row.is_primary_key,
        ) {
            (Some(name), Some(_), Some(_), Some(_), Some(_), Some(primary)) => {
                if *primary {
                    let key = name.clone();
                    proof {
                        assert(texts(keys@.push(key)) =~= texts(keys@).push(key@));
                    }
                    keys.push(key);
                }
            },
            _ => {},
        }
        i = i + 1;
    }
    proof {
        assert(rows@.take(rows@.len() as int) =~= rows@);
    }
    keys
}

/// The CREATE statement of a table, rebuilt from the catalog.
pub fn create_table_statement(table_name: &str, rows: &[PgCreateRow]) -> (block: String)
    ensures
        block@ == create_table_block(table_name@, rows@),
{
    let mut block = String::new();
    block.append("CREATE TABLE ");
    push_quoted_identifier(&mut block, table_name);
    block.append(" (\n");
    let ghost start = block@;
    let mut written: usize = 0;
    let mut i: usize = 0;
    while i < rows.len()
        invariant
            i <= rows.len(),
            written == column_definitions(rows@.take(i as int)).len(),
            written <= i,
            block@ == start + join(column_definitions(rows@.take(i as int)), ",\n"@),
        decreases rows.len() - i,
    {
        proof {
            assert(rows@.take(i + 1).drop_last() =~= rows@.take(i as int));
            assert(rows@.take(i + 1).last() == rows@[i as int]);
        }
        match column_definition_of(&rows[i]) {
            Some(def) => {
                let ghost before = block@;
                if written > 0 {
                    block.append(",\n");
                }
                block.append(def.as_str());
                proof {
                    let done = column_definitions(rows@.take(i as int));
                    lemma_join_push(done, ",\n"@, def@);
                    if written > 0 {
                        assert(block@ =~= before + ",\n"@ + def@);
                    }
                }
                written = written + 1;
            },
            None => {},
        }
        i = i + 1;
    }
    block.append("\n);\n\n");
    proof {
        assert(rows@.take(rows@.len() as int) =~= rows@);
        assert(block@ =~= create_table_block(table_name@, rows@));
    }
    block
}

/// Takes what the catalog says of the current table's columns: writes the
/// CREATE statement rebuilt from it where CREATE statements are exported,
/// and keeps the columns of the primary key as the conflict target of the
/// table's statements.
pub fn export_columns_described(job: &mut ExportJob, rows: &[PgCreateRow]) -> (request: ExportRequest)
    requires
        old(job)@.stage == ExportStage::AwaitCreate,
        job_is_sound(old(job)@),
    ensures
        (final(job)@, request@) == table_described(
            old(job)@,
            create_table_block(old(job)@.tables[old(job)@.position as int], rows@),
            primary_key_columns(rows@),
        ),
        job_is_sound(final(job)@),
{
    let table = job.current_table();
    let block = create_table_statement(table.as_str(), rows);
    let keys = primary_key_of(rows);
    job.table_described(block.as_str(), keys)
}

} // verus!
