//! The SSL policy of a connection attempt: which transport is tried first,
//! and what follows when an attempt fails.

use vstd::prelude::*;
use crate::connection::{plain_error, QueryError, QueryErrorView};
use crate::error_codes::{CONNECTION_ERROR, SSL_ERROR, TLS_ERROR};
use crate::text::same_text;

verus! {

/// How the bytes of a connection travel.
#[derive(Debug, Clone, Copy, PartialEq, Eq, Structural)]
pub enum Transport {
    /// Encrypted. Certificates are accepted without validation, so that
    /// self-signed development servers can be reached.
    Tls,
    /// Unencrypted.
    Plain,
}

/// What to do after a failed attempt.
#[derive(Debug)]
pub enum ConnectStep {
    /// Try again over this transport.
    Try(Transport),
    /// Give up with this error.
    Fail(QueryError),
}

/// The mathematical content of a `ConnectStep`.
pub enum ConnectStepView {
    Try(Transport),
    Fail(QueryErrorView),
}

impl View for ConnectStep {
    type V = ConnectStepView;

    open spec fn view(&self) -> ConnectStepView {
        match self {
            ConnectStep::Try(t) => ConnectStepView::Try(*t),
            ConnectStep::Fail(e) => ConnectStepView::Fail(e@),
        }
    }
}

/// Whether an SSL mode asks for an encrypted attempt: `required` and
/// `preferred` do, every other mode does not.
pub open spec fn tries_tls(ssl_mode: Seq<char>) -> bool {
    ssl_mode == "required"@ || ssl_mode == "preferred"@
}

/// The transport of the first attempt.
pub open spec fn first_transport(ssl_mode: Seq<char>) -> Transport {
    if tries_tls(ssl_mode) {
        Transport::Tls
    } else {
        Transport::Plain
    }
}

/// What follows the failure of an attempt over `failed`, which the driver
/// reported as `message`: a failed encrypted attempt ends the connection
/// under `required` and falls back to an unencrypted one otherwise; a failed
/// unencrypted attempt ends it.
pub open spec fn step_after_failure(
    ssl_mode: Seq<char>,
    failed: Transport,
    message: Seq<char>,
) -> ConnectStepView {
    match failed {
        Transport::Tls => if ssl_mode == "required"@ {
            ConnectStepView::Fail(plain_error("SSL connection failed: "@ + message, SSL_ERROR@))
        } else {
            ConnectStepView::Try(Transport::Plain)
        },
        Transport::Plain => ConnectStepView::Fail(
            plain_error("Connection failed: "@ + message, CONNECTION_ERROR@),
        ),
    }
}

/// The transport that a connection is first tried over.
pub fn connect_start(ssl_mode: &str) -> (transport: Transport)
    ensures
        transport == first_transport(ssl_mode@),
{
    if same_text(ssl_mode, "required") || same_text(ssl_mode, "preferred") {
        Transport::Tls
    } else {
        Transport::Plain
    }
}

fn prefixed(prefix: &str, message: &str) -> (text: String)
    ensures
        text@ == prefix@ + message@,
{
    let mut text = String::new();
    text.append(prefix);
    text.append(message);
    text
}

/// What follows the failure of an attempt over `failed`.
pub fn connect_retry(ssl_mode: &str, failed: Transport, message: &str) -> (step: ConnectStep)
    ensures
        step@ == step_after_failure(ssl_mode@, failed, message@),
{
    match failed {
        Transport::Tls => {
            if same_text(ssl_mode, "required") {
                ConnectStep::Fail(
                    QueryError::with_code(prefixed("SSL connection failed: ", message), SSL_ERROR),
                )
            } else {
                ConnectStep::Try(Transport::Plain)
            }
        },
        Transport::Plain => ConnectStep::Fail(
            QueryError::with_code(prefixed("Connection failed: ", message), CONNECTION_ERROR),
        ),
    }
}

/// The error for TLS machinery that could not be set up.
pub fn tls_setup_failed(message: &str) -> (e: QueryError)
    ensures
        e@ == plain_error("TLS configuration error: "@ + message@, TLS_ERROR@),
{
    QueryError::with_code(prefixed("TLS configuration error: ", message), TLS_ERROR)
}

/// The error for a connection that was set up and did not answer.
pub fn liveness_check_failed(message: &str) -> (e: QueryError)
    ensures
        e@ == plain_error("Failed to connect: "@ + message@, CONNECTION_ERROR@),
{
    QueryError::with_code(prefixed("Failed to connect: ", message), CONNECTION_ERROR)
}

/// Under `disabled`, and under any mode but `required` and `preferred`, no
/// encrypted attempt is made: the first attempt is unencrypted, and its
/// failure ends the connection.
pub proof fn lemma_disabled_never_encrypts(ssl_mode: Seq<char>, message: Seq<char>)
    requires
        !tries_tls(ssl_mode),
    ensures
        first_transport(ssl_mode) == Transport::Plain,
        step_after_failure(ssl_mode, Transport::Plain, message) is Fail,
{
}

/// Under `required` a failed encrypted attempt is final and is reported as
/// `SSL_ERROR`; under `preferred` it is followed by an unencrypted attempt.
pub proof fn lemma_required_fails_hard(message: Seq<char>)
    ensures
        first_transport("required"@) == Transport::Tls,
        first_transport("preferred"@) == Transport::Tls,
        step_after_failure("required"@, Transport::Tls, message) matches ConnectStepView::Fail(e)
            && e.code == Some(SSL_ERROR@),
        step_after_failure("preferred"@, Transport::Tls, message) == ConnectStepView::Try(
            Transport::Plain,
        ),
{
    reveal_strlit("required");
    reveal_strlit("preferred");
    assert("required"@.len() != "preferred"@.len());
}

} // verus!
