//! The data that every driver speaks: query results, errors and schema
//! descriptions.

use vstd::prelude::*;

verus! {

/// Most rows that one query hands back; further rows are counted only.
pub const MAX_QUERY_ROWS: usize = 10_000;

/// Seconds after which a database operation is given up.
pub const DEFAULT_QUERY_TIMEOUT_SECS: u64 = 30;

/// The text of an optional string.
pub open spec fn optional_text(o: Option<String>) -> Option<Seq<char>> {
    match o {
        Some(s) => Some(s@),
        None => None,
    }
}

/// A floating-point cell. Floating-point arithmetic is left to the driver
/// layer, which hands over the two renderings that the codecs pass on.
#[derive(Debug, Clone)]
pub struct RealValue {
    /// The JSON number, or JSON null where the value is not finite.
    pub json: serde_json::Value,
    /// The value written out as an SQL numeric literal.
    pub text: String,
}

/// What a query returned.
#[derive(Debug, Clone)]
pub struct QueryResult {
    /// Column names, in the order the engine reported them.
    pub columns: Vec<String>,
    /// One JSON object per returned row, keyed by column name.
    pub rows: Vec<serde_json::Value>,
    /// Number of rows the engine produced, returned or not.
    pub row_count: usize,
    /// Milliseconds the query took.
    pub execution_time: u128,
    /// Whether rows were left out because of `MAX_QUERY_ROWS`.
    pub truncated: bool,
}

impl QueryResult {
    /// The row cap holds: no more than `MAX_QUERY_ROWS` rows are present, all
    /// rows are present when there are no more than that, and `truncated`
    /// tells which of the two it is.
    pub open spec fn is_capped(&self) -> bool {
        &&& self.rows@.len() == (if self.row_count <= MAX_QUERY_ROWS {
            self.row_count
        } else {
            MAX_QUERY_ROWS
        })
        &&& self.truncated == (self.row_count > MAX_QUERY_ROWS)
    }
}

/// A capped result that is not truncated holds every row; a truncated one
/// holds exactly `MAX_QUERY_ROWS` rows.
pub proof fn lemma_row_cap(result: QueryResult)
    requires
        result.is_capped(),
    ensures
        result.row_count <= MAX_QUERY_ROWS ==> !result.truncated && result.rows@.len()
            == result.row_count,
        result.row_count > MAX_QUERY_ROWS ==> result.truncated && result.rows@.len()
            == MAX_QUERY_ROWS,
{
}

/// The mathematical content of a `QueryError`.
pub struct QueryErrorView {
    pub message: Seq<char>,
    pub code: Option<Seq<char>>,
    pub detail: Option<Seq<char>>,
    pub hint: Option<Seq<char>>,
}

/// A failed database operation.
#[derive(Debug, Clone)]
pub struct QueryError {
    /// Human-readable message.
    pub message: String,
    /// Error category, or the engine's own code where it gave one.
    pub code: Option<String>,
    /// Further detail from the engine.
    pub detail: Option<String>,
    /// Advice on how to mend the input.
    pub hint: Option<String>,
}

impl View for QueryError {
    type V = QueryErrorView;

    open spec fn view(&self) -> QueryErrorView {
        QueryErrorView {
            message: self.message@,
            code: optional_text(self.code),
            detail: optional_text(self.detail),
            hint: optional_text(self.hint),
        }
    }
}

impl Default for QueryError {
    fn default() -> (e: Self)
        ensures
            e@ == (QueryErrorView { message: Seq::empty(), code: None, detail: None, hint: None }),
    {
        QueryError { message: String::new(), code: None, detail: None, hint: None }
    }
}

impl QueryError {
    /// An error with a message and a category, and nothing else.
    pub fn with_code(message: String, code: &str) -> (e: Self)
        ensures
            e@ == (QueryErrorView {
                message: message@,
                code: Some(code@),
                detail: None,
                hint: None,
            }),
    {
        QueryError { message, code: Some(code.to_owned()), detail: None, hint: None }
    }

    /// The same error with `detail` attached.
    pub fn with_detail(self, detail: &str) -> (e: Self)
        ensures
            e@ == (QueryErrorView { detail: Some(detail@), ..self@ }),
    {
        QueryError {
            message: self.message,
            code: self.code,
            detail: Some(detail.to_owned()),
            hint: self.hint,
        }
    }

    /// The same error with `hint` attached.
    pub fn with_hint(self, hint: &str) -> (e: Self)
        ensures
            e@ == (QueryErrorView { hint: Some(hint@), ..self@ }),
    {
        QueryError {
            message: self.message,
            code: self.code,
            detail: self.detail,
            hint: Some(hint.to_owned()),
        }
    }
}

/// How an operation on the wire went wrong.
#[derive(Debug, Clone)]
pub enum Failure {
    /// The driver reported an error, in these words.
    Error(String),
    /// The deadline passed first.
    Timeout,
}

/// Message of a query that timed out.
pub const QUERY_TIMED_OUT: &'static str = "Query timed out";

/// Message of a liveness probe that timed out.
pub const CONNECTION_TEST_TIMED_OUT: &'static str = "Connection test timed out";

/// An error of one category with a message and nothing else.
pub open spec fn plain_error(message: Seq<char>, code: Seq<char>) -> QueryErrorView {
    QueryErrorView { message, code: Some(code), detail: None, hint: None }
}

/// The error for a failed operation: a driver error is reported under
/// `code` in the driver's words, a timeout as `TIMEOUT_ERROR` with
/// `timeout_message`.
pub open spec fn failure_view(
    failure: Failure,
    code: Seq<char>,
    timeout_message: Seq<char>,
) -> QueryErrorView {
    match failure {
        Failure::Error(m) => plain_error(m@, code),
        Failure::Timeout => plain_error(timeout_message, crate::error_codes::TIMEOUT_ERROR@),
    }
}

impl Failure {
    /// Reports the failure: a driver error under `code`, a timeout as
    /// `TIMEOUT_ERROR` with `timeout_message`.
    pub fn into_error(self, code: &str, timeout_message: &str) -> (e: QueryError)
        ensures
            e@ == failure_view(self, code@, timeout_message@),
    {
        match self {
            Failure::Error(m) => QueryError::with_code(m, code),
            Failure::Timeout => QueryError::with_code(
                timeout_message.to_owned(),
                crate::error_codes::TIMEOUT_ERROR,
            ),
        }
    }
}

/// The error for a connection that could not be had from the driver.
pub fn connection_failed(message: String) -> (e: QueryError)
    ensures
        e@ == plain_error(message@, crate::error_codes::CONNECTION_ERROR@),
{
    QueryError::with_code(message, crate::error_codes::CONNECTION_ERROR)
}

/// The outcome of a liveness probe: an error on the wire means that the
/// connection is not usable.
pub fn probe_outcome(outcome: Result<(), Failure>) -> (r: DbResult<()>)
    ensures
        match outcome {
            Ok(_) => r is Ok,
            Err(failure) => r matches Err(e) && e@ == failure_view(
                failure,
                crate::error_codes::CONNECTION_ERROR@,
                CONNECTION_TEST_TIMED_OUT@,
            ),
        },
{
    match outcome {
        Ok(_) => Ok(()),
        Err(failure) => Err(
            failure.into_error(crate::error_codes::CONNECTION_ERROR, CONNECTION_TEST_TIMED_OUT),
        ),
    }
}

/// The outcome of a statement: what it returned, or the error on the wire as
/// a query error.
pub fn statement_outcome<T>(outcome: Result<T, Failure>) -> (r: DbResult<T>)
    ensures
        match outcome {
            Ok(value) => r matches Ok(v) && v == value,
            Err(failure) => r matches Err(e) && e@ == failure_view(
                failure,
                crate::error_codes::QUERY_ERROR@,
                QUERY_TIMED_OUT@,
            ),
        },
{
    match outcome {
        Ok(value) => Ok(value),
        Err(failure) => Err(failure.into_error(crate::error_codes::QUERY_ERROR, QUERY_TIMED_OUT)),
    }
}

/// A single-cell update, ready to be sent: the statement with its bound
/// parameters, and the same statement with the values written in, for display.
#[derive(Debug, Clone)]
pub struct CellUpdate {
    /// The statement, with a placeholder for every value.
    pub statement: String,
    /// The values for the placeholders, in order.
    pub parameters: Vec<String>,
    /// The statement with the values written in. It is shown, never sent.
    pub logged_query: String,
}

/// The mathematical content of a `CellUpdate`.
pub struct CellUpdateView {
    pub statement: Seq<char>,
    pub parameters: Seq<Seq<char>>,
    pub logged_query: Seq<char>,
}

impl View for CellUpdate {
    type V = CellUpdateView;

    open spec fn view(&self) -> CellUpdateView {
        CellUpdateView {
            statement: self.statement@,
            parameters: crate::text::texts(self.parameters@),
            logged_query: self.logged_query@,
        }
    }
}

/// Alias used by every driver operation.
pub type DbResult<T> = Result<T, QueryError>;

/// The mathematical content of a `TableColumn`.
pub struct TableColumnView {
    pub name: Seq<char>,
    pub data_type: Seq<char>,
    pub is_nullable: bool,
    pub is_primary_key: bool,
    pub column_default: Option<Seq<char>>,
    pub character_maximum_length: Option<i64>,
    pub numeric_precision: Option<i64>,
}

/// One column of a table, as the engine's catalog describes it.
#[derive(Debug, Clone)]
pub struct TableColumn {
    pub name: String,
    /// Type name in the engine's own wording.
    pub data_type: String,
    pub is_nullable: bool,
    pub is_primary_key: bool,
    pub column_default: Option<String>,
    /// For character types, the declared length.
    pub character_maximum_length: Option<i64>,
    /// For numeric types, the declared precision.
    pub numeric_precision: Option<i64>,
}

impl View for TableColumn {
    type V = TableColumnView;

    open spec fn view(&self) -> TableColumnView {
        TableColumnView {
            name: self.name@,
            data_type: self.data_type@,
            is_nullable: self.is_nullable,
            is_primary_key: self.is_primary_key,
            column_default: optional_text(self.column_default),
            character_maximum_length: self.character_maximum_length,
            numeric_precision: self.numeric_precision,
        }
    }
}

/// The mathematical content of a `TableRelationship`.
pub struct TableRelationshipView {
    pub from_table: Seq<char>,
    pub from_column: Seq<char>,
    pub to_table: Seq<char>,
    pub to_column: Seq<char>,
    pub constraint_name: Seq<char>,
}

/// One foreign-key column: an edge from a column of one table to a column of
/// another.
#[derive(Debug, Clone)]
pub struct TableRelationship {
    pub from_table: String,
    pub from_column: String,
    pub to_table: String,
    pub to_column: String,
    pub constraint_name: String,
}

impl View for TableRelationship {
    type V = TableRelationshipView;

    open spec fn view(&self) -> TableRelationshipView {
        TableRelationshipView {
            from_table: self.from_table@,
            from_column: self.from_column@,
            to_table: self.to_table@,
            to_column: self.to_column@,
            constraint_name: self.constraint_name@,
        }
    }
}

/// The statement that lists the tables of the current database.
pub open spec fn list_tables_sql(kind: crate::factory::EngineKind) -> Seq<char> {
    match kind {
        crate::factory::EngineKind::MariaDb => crate::mariadb::LIST_TABLES_SQL@,
        crate::factory::EngineKind::Postgres => crate::postgresql::LIST_TABLES_SQL@,
    }
}

/// The statement that lists the databases of the server.
pub open spec fn list_databases_sql(kind: crate::factory::EngineKind) -> Seq<char> {
    match kind {
        crate::factory::EngineKind::MariaDb => crate::mariadb::LIST_DATABASES_SQL@,
        crate::factory::EngineKind::Postgres => crate::postgresql::LIST_DATABASES_SQL@,
    }
}

/// The update of one cell in the dialect of `kind`.
pub open spec fn cell_update(
    kind: crate::factory::EngineKind,
    table: Seq<char>,
    column: Seq<char>,
    new_value: Option<Seq<char>>,
    key_column: Seq<char>,
    key_value: Seq<char>,
) -> CellUpdateView {
    match kind {
        crate::factory::EngineKind::MariaDb => crate::mariadb::cell_update(
            table,
            column,
            new_value,
            key_column,
            key_value,
        ),
        crate::factory::EngineKind::Postgres => crate::postgresql::cell_update(
            table,
            column,
            new_value,
            key_column,
            key_value,
        ),
    }
}

/// What every driver variant offers, as far as it can be decided without
/// the wire: the state of the connection, and the plans of the operations
/// that the driver then carries out.
pub trait DatabaseConnection {
    /// The engine that the connection talks to.
    spec fn engine_kind(&self) -> crate::factory::EngineKind;

    /// The database that statements run in.
    spec fn current_database(&self) -> Seq<char>;

    /// The engine that the connection talks to.
    fn engine(&self) -> (kind: crate::factory::EngineKind)
        ensures
            kind == self.engine_kind(),
    ;

    /// The statement that lists the tables of the current database, in the
    /// order that the engine gives them.
    fn list_tables(&self) -> (sql: String)
        ensures
            sql@ == list_tables_sql(self.engine_kind()),
    ;

    /// The statement that lists the databases of the server.
    fn list_databases(&self) -> (sql: String)
        ensures
            sql@ == list_databases_sql(self.engine_kind()),
    ;

    /// The name of the database that statements run in.
    fn get_current_database(&self) -> (name: DbResult<String>)
        ensures
            name matches Ok(n) && n@ == self.current_database(),
    ;

    /// Plans the update of one cell, found by the value of its row's primary
    /// key. The values are bound, never written into the statement.
    fn update_cell(
        &self,
        table_name: &str,
        column_name: &str,
        new_value: Option<&str>,
        primary_key_column: &str,
        primary_key_value: &str,
    ) -> (update: CellUpdate)
        ensures
            update@ == cell_update(
                self.engine_kind(),
                table_name@,
                column_name@,
                crate::text::optional_str(new_value),
                primary_key_column@,
                primary_key_value@,
            ),
    ;

    /// Starts the export of the current database: the job, and the first
    /// request that the driver is to serve.
    fn export_database_with_options(
        &self,
        include_drop: bool,
        include_create: bool,
        data_mode: &str,
        selected_tables: &[String],
        max_insert_size: usize,
    ) -> (started: (crate::export::ExportJob, crate::export::ExportRequest))
        ensures
            (started.0@, started.1@) == crate::export::export_begun(
                self.engine_kind(),
                include_drop,
                include_create,
                data_mode@,
                crate::text::texts(selected_tables@),
                max_insert_size as nat,
            ),
            crate::export::job_is_sound(started.0@),
    ;
}

} // verus!
