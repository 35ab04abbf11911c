//! The error categories that every driver reports under.

use vstd::prelude::*;

verus! {

/// Transport or authentication failure.
pub const CONNECTION_ERROR: &'static str = "CONNECTION_ERROR";

/// Malformed or rejected SQL.
pub const QUERY_ERROR: &'static str = "QUERY_ERROR";

/// The operation exceeded its deadline.
pub const TIMEOUT_ERROR: &'static str = "TIMEOUT_ERROR";

/// An encrypted connection was asked for and could not be set up.
pub const SSL_ERROR: &'static str = "SSL_ERROR";

/// The TLS machinery itself could not be configured.
pub const TLS_ERROR: &'static str = "TLS_ERROR";

/// The engine name is none of the supported ones.
pub const INVALID_DB_TYPE: &'static str = "INVALID_DB_TYPE";

/// No two categories share a name: an unsupported engine, a timeout and a
/// failed handshake can each be told from every other failure by the code.
pub proof fn lemma_error_codes_are_distinct()
    ensures
        INVALID_DB_TYPE@ != CONNECTION_ERROR@,
        INVALID_DB_TYPE@ != QUERY_ERROR@,
        INVALID_DB_TYPE@ != TIMEOUT_ERROR@,
        INVALID_DB_TYPE@ != SSL_ERROR@,
        INVALID_DB_TYPE@ != TLS_ERROR@,
        TIMEOUT_ERROR@ != CONNECTION_ERROR@,
        TIMEOUT_ERROR@ != QUERY_ERROR@,
        TIMEOUT_ERROR@ != SSL_ERROR@,
        TIMEOUT_ERROR@ != TLS_ERROR@,
        CONNECTION_ERROR@ != QUERY_ERROR@,
        CONNECTION_ERROR@ != SSL_ERROR@,
        CONNECTION_ERROR@ != TLS_ERROR@,
        QUERY_ERROR@ != SSL_ERROR@,
        QUERY_ERROR@ != TLS_ERROR@,
        SSL_ERROR@ != TLS_ERROR@,
{
    reveal_strlit("CONNECTION_ERROR");
    reveal_strlit("QUERY_ERROR");
    reveal_strlit("TIMEOUT_ERROR");
    reveal_strlit("SSL_ERROR");
    reveal_strlit("TLS_ERROR");
    reveal_strlit("INVALID_DB_TYPE");
    assert(INVALID_DB_TYPE@[0] == 'I');
    assert(CONNECTION_ERROR@[0] == 'C');
    assert(QUERY_ERROR@[0] == 'Q');
    assert(TIMEOUT_ERROR@[0] == 'T' && TIMEOUT_ERROR@[1] == 'I');
    assert(SSL_ERROR@[0] == 'S');
    assert(TLS_ERROR@[0] == 'T' && TLS_ERROR@[1] == 'L');
}

} // verus!
