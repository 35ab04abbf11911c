//! Selection of the driver variant by engine name.

use vstd::prelude::*;
use crate::connection::{
    CellUpdate, DatabaseConnection, DbResult, QueryError, QueryErrorView,
};
use crate::export::{ExportJob, ExportRequest};
use crate::mariadb::{MariaDbConnection, MariaDbConnectionView};
use crate::postgresql::{PostgresConnection, PostgresConnectionView};
use crate::error_codes::INVALID_DB_TYPE;
use crate::text::{ascii_lower, lowercase, lowercase_of, same_text};

verus! {

/// The supported database engines.
#[derive(Debug, Clone, Copy, PartialEq, Eq, Structural)]
pub enum EngineKind {
    /// MariaDB, and MySQL under the same protocol.
    MariaDb,
    Postgres,
}

/// The engine that a lower-case engine name stands for, if any.
pub open spec fn engine_of_lowercase(lower: Seq<char>) -> Option<EngineKind> {
    if lower == "mariadb"@ || lower == "mysql"@ {
        Some(EngineKind::MariaDb)
    } else if lower == "postgresql"@ || lower == "postgres"@ {
        Some(EngineKind::Postgres)
    } else {
        None
    }
}

/// The engine that an engine name stands for, whatever its letter case.
pub open spec fn engine_of(db_type: Seq<char>) -> Option<EngineKind> {
    engine_of_lowercase(lowercase_of(db_type))
}

/// The message for an engine name that is not supported.
pub open spec fn unsupported_message(db_type: Seq<char>) -> Seq<char> {
    "Unsupported database type: '"@ + db_type
        + "'. Supported types: mariadb, mysql, postgresql, postgres"@
}

/// The error for an engine name that is not supported.
pub open spec fn unsupported_engine(db_type: Seq<char>) -> QueryErrorView {
    QueryErrorView {
        message: unsupported_message(db_type),
        code: Some(INVALID_DB_TYPE@),
        detail: None,
        hint: None,
    }
}

/// The engine that an already lower-cased engine name stands for.
pub fn engine_from_lowercase(lower: &str) -> (kind: Option<EngineKind>)
    ensures
        kind == engine_of_lowercase(lower@),
{
    if same_text(lower, "mariadb") || same_text(lower, "mysql") {
        Some(EngineKind::MariaDb)
    } else if same_text(lower, "postgresql") || same_text(lower, "postgres") {
        Some(EngineKind::Postgres)
    } else {
        None
    }
}

/// Resolves an engine name, ignoring letter case and accepting the aliases
/// `mysql` and `postgres`. Any other name is refused as `INVALID_DB_TYPE`.
pub fn resolve_engine(db_type: &str) -> (resolved: Result<EngineKind, QueryError>)
    ensures
        match engine_of(db_type@) {
            Some(kind) => resolved matches Ok(k) && k == kind,
            None => resolved matches Err(e) && e@ == unsupported_engine(db_type@),
        },
{
    let lower = lowercase(db_type);
    match engine_from_lowercase(lower.as_str()) {
        Some(kind) => Ok(kind),
        None => {
            let mut message = String::new();
            message.append("Unsupported database type: '");
            message.append(db_type);
            message.append("'. Supported types: mariadb, mysql, postgresql, postgres");
            Err(QueryError::with_code(message, INVALID_DB_TYPE))
        },
    }
}

/// A connection of either engine.
#[derive(Debug)]
pub enum AnyConnection {
    MariaDb(MariaDbConnection),
    Postgres(PostgresConnection),
}

impl DatabaseConnection for AnyConnection {
    open spec fn engine_kind(&self) -> EngineKind {
        match self {
            AnyConnection::MariaDb(_) => EngineKind::MariaDb,
            AnyConnection::Postgres(_) => EngineKind::Postgres,
        }
    }

    open spec fn current_database(&self) -> Seq<char> {
        match self {
            AnyConnection::MariaDb(c) => c.current_database(),
            AnyConnection::Postgres(c) => c.current_database(),
        }
    }

    fn engine(&self) -> (kind: EngineKind) {
        match self {
            AnyConnection::MariaDb(c) => c.engine(),
            AnyConnection::Postgres(c) => c.engine(),
        }
    }

    fn list_tables(&self) -> (sql: String) {
        match self {
            AnyConnection::MariaDb(c) => c.list_tables(),
            AnyConnection::Postgres(c) => c.list_tables(),
        }
    }

    fn list_databases(&self) -> (sql: String) {
        match self {
            AnyConnection::MariaDb(c) => c.list_databases(),
            AnyConnection::Postgres(c) => c.list_databases(),
        }
    }

    fn get_current_database(&self) -> (name: DbResult<String>) {
        match self {
            AnyConnection::MariaDb(c) => c.get_current_database(),
            AnyConnection::Postgres(c) => c.get_current_database(),
        }
    }

    fn update_cell(
        &self,
        table_name: &str,
        column_name: &str,
        new_value: Option<&str>,
        primary_key_column: &str,
        primary_key_value: &str,
    ) -> (update: CellUpdate) {
        match self {
            AnyConnection::MariaDb(c) => c.update_cell(
                table_name,
                column_name,
                new_value,
                primary_key_column,
                primary_key_value,
            ),
            AnyConnection::Postgres(c) => c.update_cell(
                table_name,
                column_name,
                new_value,
                primary_key_column,
                primary_key_value,
            ),
        }
    }

    fn export_database_with_options(
        &self,
        include_drop: bool,
        include_create: bool,
        data_mode: &str,
        selected_tables: &[String],
        max_insert_size: usize,
    ) -> (started: (ExportJob, ExportRequest)) {
        match self {
            AnyConnection::MariaDb(c) => c.export_database_with_options(
                include_drop,
                include_create,
                data_mode,
                selected_tables,
                max_insert_size,
            ),
            AnyConnection::Postgres(c) => c.export_database_with_options(
                include_drop,
                include_create,
                data_mode,
                selected_tables,
                max_insert_size,
            ),
        }
    }
}

/// Makes the state of a connection of the engine that `db_type` names. The
/// name is taken without regard to letter case, and `mysql` and `postgres`
/// are accepted for `mariadb` and `postgresql`. Any other name is refused as
/// `INVALID_DB_TYPE`, and no connection is made.
pub fn create_connection(
    db_type: &str,
    host: &str,
    port: u16,
    username: &str,
    password: &str,
    database: &str,
    ssl_mode: &str,
) -> (made: DbResult<AnyConnection>)
    ensures
        match engine_of(db_type@) {
            Some(EngineKind::MariaDb) => made matches Ok(AnyConnection::MariaDb(c)) && c@ == (
            MariaDbConnectionView {
                current_database: database@,
                host: host@,
                port,
                username: username@,
                password: password@,
                ssl_mode: ssl_mode@,
            }),
            Some(EngineKind::Postgres) => made matches Ok(AnyConnection::Postgres(c)) && c@ == (
            PostgresConnectionView {
                host: host@,
                port,
                username: username@,
                password: password@,
                current_database: database@,
                ssl_mode: ssl_mode@,
            }),
            None => made matches Err(e) && e@ == unsupported_engine(db_type@),
        },
{
    match resolve_engine(db_type) {
        Ok(EngineKind::MariaDb) => Ok(
            AnyConnection::MariaDb(
                MariaDbConnection::new(host, port, username, password, database, ssl_mode),
            ),
        ),
        Ok(EngineKind::Postgres) => Ok(
            AnyConnection::Postgres(
                PostgresConnection::new(host, port, username, password, database, ssl_mode),
            ),
        ),
        Err(e) => Err(e),
    }
}

/// Two ASCII names that differ in the case of their letters only stand for
/// the same engine, or both for none.
pub proof fn lemma_engine_names_ignore_case(a: Seq<char>, b: Seq<char>)
    requires
        vstd::utf8::is_ascii_chars(a),
        vstd::utf8::is_ascii_chars(b),
        a.len() == b.len(),
        forall|i: int| 0 <= i < a.len() ==> ascii_lower(#[trigger] a[i]) == ascii_lower(b[i]),
    ensures
        engine_of(a) == engine_of(b),
{
    assert(lowercase_of(a) =~= lowercase_of(b));
}

/// An engine name that is none of `mariadb`, `mysql`, `postgresql` and
/// `postgres` in lower case stands for no engine.
pub proof fn lemma_other_names_are_refused(lower: Seq<char>)
    requires
        lower != "mariadb"@,
        lower != "mysql"@,
        lower != "postgresql"@,
        lower != "postgres"@,
    ensures
        engine_of_lowercase(lower) is None,
{
}

} // verus!
