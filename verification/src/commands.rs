//! What the command layer adds to the drivers: the profile as the caller
//! sees it, the slot of the one active connection, and the shape of the
//! answers that go back to the caller.

use vstd::prelude::*;
use crate::connection::{optional_text, DbResult, QueryError};
use crate::storage::{StoredConnection, StoredConnectionView};

verus! {

/// The mathematical content of a `Connection`.
pub struct ConnectionView {
    pub id: Seq<char>,
    pub name: Seq<char>,
    pub db_type: Seq<char>,
    pub host: Seq<char>,
    pub port: i32,
    pub username: Seq<char>,
    pub password: Seq<char>,
    pub database: Seq<char>,
    pub ssl_mode: Seq<char>,
}

/// A connection profile as the caller sees it.
#[derive(Debug, Clone)]
pub struct Connection {
    pub id: String,
    pub name: String,
    pub db_type: String,
    pub host: String,
    pub port: i32,
    pub username: String,
    /// The password, in plain.
    pub password: String,
    pub database: String,
    pub ssl_mode: String,
}

impl View for Connection {
    type V = ConnectionView;

    open spec fn view(&self) -> ConnectionView {
        ConnectionView {
            id: self.id@,
            name: self.name@,
            db_type: self.db_type@,
            host: self.host@,
            port: self.port,
            username: self.username@,
            password: self.password@,
            database: self.database@,
            ssl_mode: self.ssl_mode@,
        }
    }
}

/// The profile of the store that a caller's profile is saved as: the same
/// fields, the password still in plain.
pub open spec fn stored_form(conn: ConnectionView) -> StoredConnectionView {
    StoredConnectionView {
        id: conn.id,
        name: conn.name,
        db_type: conn.db_type,
        host: conn.host,
        port: conn.port,
        username: conn.username,
        password_encrypted: conn.password,
        database: conn.database,
        ssl_mode: conn.ssl_mode,
    }
}

/// The caller's profile that a profile of the store is handed out as.
pub open spec fn caller_form(stored: StoredConnectionView) -> ConnectionView {
    ConnectionView {
        id: stored.id,
        name: stored.name,
        db_type: stored.db_type,
        host: stored.host,
        port: stored.port,
        username: stored.username,
        password: stored.password_encrypted,
        database: stored.database,
        ssl_mode: stored.ssl_mode,
    }
}

/// The content of a list of caller's profiles.
pub open spec fn connection_views(conns: Seq<Connection>) -> Seq<ConnectionView> {
    conns.map_values(|c: Connection| c@)
}

/// The content of a list of profiles of the store.
pub open spec fn stored_views(conns: Seq<StoredConnection>) -> Seq<StoredConnectionView> {
    conns.map_values(|c: StoredConnection| c@)
}

/// The port of a profile as the drivers take it: its low 16 bits.
pub open spec fn driver_port(port: i32) -> u16 {
    (port as int % 0x1_0000) as u16
}

/// The profile of the store that a caller's profile is saved as.
pub fn save_connection(conn: &Connection) -> (stored: StoredConnection)
    ensures
        stored@ == stored_form(conn@),
{
    StoredConnection {
        id: conn.id.clone(),
        name: conn.name.clone(),
        db_type: conn.db_type.clone(),
        host: conn.host.clone(),
        port: conn.port,
        username: conn.username.clone(),
        password_encrypted: conn.password.clone(),
        database: conn.database.clone(),
        ssl_mode: conn.ssl_mode.clone(),
    }
}

/// The caller's profiles that the profiles of the store are handed out as,
/// in the same order.
pub fn get_connections(stored: Vec<StoredConnection>) -> (conns: Vec<Connection>)
    ensures
        connection_views(conns@) == stored_views(stored@).map_values(
            |s: StoredConnectionView| caller_form(s),
        ),
{
    let mut conns: Vec<Connection> = Vec::new();
    let mut i: usize = 0;
    while i < stored.len()
        invariant
            i <= stored.len(),
            connection_views(conns@) =~= stored_views(stored@).map_values(
                |s: StoredConnectionView| caller_form(s),
            ).take(i as int),
        decreases stored.len() - i,
    {
        let sc = &stored[i];
        let conn = Connection {
            id: sc.id.clone(),
            name: sc.name.clone(),
            db_type: sc.db_type.clone(),
            host: sc.host.clone(),
            port: sc.port,
            username: sc.username.clone(),
            password: sc.password_encrypted.clone(),
            database: sc.database.clone(),
            ssl_mode: sc.ssl_mode.clone(),
        };
        proof {
            assert(connection_views(conns@.push(conn)) =~= connection_views(conns@).push(conn@));
        }
        conns.push(conn);
        i = i + 1;
    }
    conns
}

/// The port of a profile as the drivers take it.
pub fn port_for_driver(port: i32) -> (p: u16)
    ensures
        p == driver_port(port),
{
    let low: i32 = port % 0x1_0000;
    if low < 0 {
        (low + 0x1_0000) as u16
    } else {
        low as u16
    }
}

/// What a query returned, as the caller receives it.
#[derive(Debug, Clone)]
pub struct QueryResult {
    pub columns: Vec<String>,
    pub rows: Vec<serde_json::Value>,
    pub row_count: usize,
    pub execution_time: u128,
    pub truncated: bool,
}

impl From<crate::connection::QueryResult> for QueryResult {
    fn from(result: crate::connection::QueryResult) -> (out: Self) {
        QueryResult {
            columns: result.columns,
            rows: result.rows,
            row_count: result.row_count,
            execution_time: result.execution_time,
            truncated: result.truncated,
        }
    }
}

impl vstd::std_specs::convert::FromSpecImpl<crate::connection::QueryResult> for QueryResult {
    open spec fn obeys_from_spec() -> bool {
        true
    }

    open spec fn from_spec(result: crate::connection::QueryResult) -> Self {
        QueryResult {
            columns: result.columns,
            rows: result.rows,
            row_count: result.row_count,
            execution_time: result.execution_time,
            truncated: result.truncated,
        }
    }
}

/// What an export is to hold, and where it is to be written.
#[derive(Debug, Clone)]
pub struct ExportOptions {
    pub include_drop: bool,
    pub include_create: bool,
    /// `insert`, `replace`, `insert_ignore` or `no_data`.
    pub data_mode: String,
    /// The tables to export; none selects all.
    pub selected_tables: Vec<String>,
    pub output_path: String,
    pub file_name: String,
    /// Most rows in one INSERT statement.
    pub max_insert_size: usize,
}

/// The update of one cell, as the caller asks for it.
#[derive(Debug, Clone)]
pub struct UpdateCellRequest {
    pub table_name: String,
    pub column_name: String,
    /// The new value; none sets the cell to NULL.
    pub new_value: Option<String>,
    pub primary_key_column: String,
    pub primary_key_value: String,
}

/// Why a cell update failed.
#[derive(Debug, Clone)]
pub struct UpdateCellError {
    pub message: String,
    /// The engine's error code, or the category of the failure.
    pub code: Option<String>,
    pub detail: Option<String>,
    pub hint: Option<String>,
    /// The table that was to be updated.
    pub table: String,
    /// The column that was to be updated.
    pub column: String,
}

/// How a cell update ended.
#[derive(Debug, Clone)]
pub struct UpdateCellResult {
    pub success: bool,
    pub error: Option<UpdateCellError>,
    /// The statement that ran, on success.
    pub executed_query: Option<String>,
}

/// The mathematical content of an `UpdateCellError`.
pub struct UpdateCellErrorView {
    pub message: Seq<char>,
    pub code: Option<Seq<char>>,
    pub detail: Option<Seq<char>>,
    pub hint: Option<Seq<char>>,
    pub table: Seq<char>,
    pub column: Seq<char>,
}

/// The mathematical content of an `UpdateCellResult`.
pub struct UpdateCellResultView {
    pub success: bool,
    pub error: Option<UpdateCellErrorView>,
    pub executed_query: Option<Seq<char>>,
}

impl View for UpdateCellError {
    type V = UpdateCellErrorView;

    open spec fn view(&self) -> UpdateCellErrorView {
        UpdateCellErrorView {
            message: self.message@,
            code: optional_text(self.code),
            detail: optional_text(self.detail),
            hint: optional_text(self.hint),
            table: self.table@,
            column: self.column@,
        }
    }
}

impl View for UpdateCellResult {
    type V = UpdateCellResultView;

    open spec fn view(&self) -> UpdateCellResultView {
        UpdateCellResultView {
            success: self.success,
            error: match self.error {
                Some(e) => Some(e@),
                None => None,
            },
            executed_query: optional_text(self.executed_query),
        }
    }
}

/// Message for an operation that needs a connection where there is none.
pub const NO_ACTIVE_CONNECTION: &'static str = "No active connection";

/// How a cell update ended, given the request and what the driver
/// returned, if there was a driver to ask: on success the statement that
/// ran, else the driver's error with the table and column of the request,
/// and where no connection is active an error that says so.
pub open spec fn update_cell_answer(
    table: Seq<char>,
    column: Seq<char>,
    outcome: Option<DbResult<String>>,
) -> UpdateCellResultView {
    match outcome {
        Some(Ok(query)) => UpdateCellResultView {
            success: true,
            error: None,
            executed_query: Some(query@),
        },
        Some(Err(e)) => UpdateCellResultView {
            success: false,
            error: Some(
                UpdateCellErrorView {
                    message: e@.message,
                    code: e@.code,
                    detail: e@.detail,
                    hint: e@.hint,
                    table,
                    column,
                },
            ),
            executed_query: None,
        },
        None => UpdateCellResultView {
            success: false,
            error: Some(
                UpdateCellErrorView {
                    message: "No active database connection"@,
                    code: Some("NO_CONNECTION"@),
                    detail: None,
                    hint: Some("Please connect to a database first"@),
                    table,
                    column,
                },
            ),
            executed_query: None,
        },
    }
}

/// Shapes the answer to a cell update.
pub fn update_cell(
    request: UpdateCellRequest,
    outcome: Option<DbResult<String>>,
) -> (answer: UpdateCellResult)
    ensures
        answer@ == update_cell_answer(request.table_name@, request.column_name@, outcome),
{
    match outcome {
        Some(Ok(query)) => UpdateCellResult {
            success: true,
            error: None,
            executed_query: Some(query),
        },
        Some(Err(e)) => UpdateCellResult {
            success: false,
            error: Some(
                UpdateCellError {
                    message: e.message,
                    code: e.code,
                    detail: e.detail,
                    hint: e.hint,
                    table: request.table_name,
                    column: request.column_name,
                },
            ),
            executed_query: None,
        },
        None => UpdateCellResult {
            success: false,
            error: Some(
                UpdateCellError {
                    message: "No active database connection".to_owned(),
                    code: Some("NO_CONNECTION".to_owned()),
                    detail: None,
                    hint: Some("Please connect to a database first".to_owned()),
                    table: request.table_name,
                    column: request.column_name,
                },
            ),
            executed_query: None,
        },
    }
}

/// The message that the command layer passes on for a failed operation.
pub fn error_message(error: QueryError) -> (message: String)
    ensures
        message@ == error@.message,
{
    error.message
}

/// The message for a file that could not be written.
pub fn write_failed(reason: &str) -> (message: String)
    ensures
        message@ == "Failed to write file: "@ + reason@,
{
    let mut message = String::new();
    message.append("Failed to write file: ");
    message.append(reason);
    message
}

/// The one slot that holds the active connection, if there is one.
#[derive(Debug)]
pub struct ActiveConnection<C> {
    slot: Option<C>,
}

impl<C> ActiveConnection<C> {
    /// The connection in the slot.
    pub closed spec fn held(&self) -> Option<C> {
        self.slot
    }

    /// An empty slot.
    pub fn new() -> (active: Self)
        ensures
            active.held() is None,
    {
        ActiveConnection { slot: None }
    }

    /// Puts `conn` into the slot and hands out the connection that it
    /// replaces, if there was one.
    pub fn connect(&mut self, conn: C) -> (replaced: Option<C>)
        ensures
            final(self).held() == Some(conn),
            replaced == old(self).held(),
    {
        let mut taken = Some(conn);
        std::mem::swap(&mut self.slot, &mut taken);
        taken
    }

    /// Empties the slot and hands out the connection that was in it, if
    /// there was one. Emptying an empty slot changes nothing.
    pub fn disconnect(&mut self) -> (released: Option<C>)
        ensures
            final(self).held() is None,
            released == old(self).held(),
    {
        let mut taken = None;
        std::mem::swap(&mut self.slot, &mut taken);
        taken
    }

    /// The active connection, or the message that there is none.
    pub fn active(&self) -> (found: Result<&C, String>)
        ensures
            match self.held() {
                Some(c) => found matches Ok(r) && *r == c,
                None => found matches Err(m) && m@ == NO_ACTIVE_CONNECTION@,
            },
    {
        match &self.slot {
            Some(c) => Ok(c),
            None => Err(NO_ACTIVE_CONNECTION.to_owned()),
        }
    }

    /// Whether a connection is active.
    pub fn is_connected(&self) -> (connected: bool)
        ensures
            connected == self.held() is Some,
    {
        self.slot.is_some()
    }
}

} // verus!
