//! The access layer of a database client for MariaDB / MySQL and PostgreSQL:
//! engine selection and the SSL policy of a connection, the value codec of
//! each dialect, the row cap of query results, the batched SQL export, cell
//! updates with bound parameters, and the encrypted credential store.
//!
//! Nothing here touches the wire or the disk. A driver asks the library what
//! to send, sends it, and hands back what came; every decision in between is
//! made here and is verified.

pub mod commands;
pub mod connect;
pub mod connection;
pub mod dump;
pub mod encoding;
pub mod error_codes;
pub mod export;
pub mod factory;
pub mod json;
pub mod mariadb;
pub mod postgresql;
pub mod storage;
pub mod text;
