//! Classification of HTTP/3 errors: which stream errors mean that the whole
//! connection is closing (so a cached connection must be retired), and which
//! connection closes are benign (no error was signalled).
use crate::text::{has_prefix, starts_with, str_eq};
use h3::error::{ConnectionError, StreamError};
use vstd::prelude::*;
use vstd::string::to_string_from_display_ensures;

verus! {

#[verifier::external_type_specification]
#[verifier::external_body]
pub struct ExStreamError(StreamError);

#[verifier::external_type_specification]
#[verifier::external_body]
pub struct ExConnectionError(ConnectionError);

/// Whether the rendered form of a stream error reports a connection-level
/// condition: the peer is closing the connection (GOAWAY), or the whole
/// connection failed. Every other stream error concerns one stream only.
pub open spec fn spec_connection_closing_message(msg: Seq<char>) -> bool {
    has_prefix(msg, "Remote is closing the connection"@) || has_prefix(msg, "Connection error:"@)
}

/// Classifies the rendered form of a stream error.
pub fn connection_closing_message(msg: &str) -> (r: bool)
    ensures
        r == spec_connection_closing_message(msg@),
{
    starts_with(msg, "Remote is closing the connection") || starts_with(msg, "Connection error:")
}

/// Whether a stream error means that its connection is closing or closed
/// (judged from the error's `Display` form).
pub fn is_connection_closing(err: &StreamError) -> (r: bool)
    ensures
        exists|m: String| #[trigger]
            to_string_from_display_ensures::<StreamError>(err, m) && r
                == spec_connection_closing_message(m@),
{
    let m = err.to_string();
    connection_closing_message(m.as_str())
}

/// Only connection-level conditions count as the connection closing: a
/// message that renders a stream error, a stream reset, an oversized header
/// or an undefined error never does, so such an error never retires a
/// shared connection.
pub proof fn law_stream_errors_are_not_closing(msg: Seq<char>)
    requires
        has_prefix(msg, "Stream error:"@) || has_prefix(msg, "Remote reset:"@) || has_prefix(
            msg,
            "Header too big:"@,
        ) || has_prefix(msg, "Undefined error:"@),
    ensures
        !spec_connection_closing_message(msg),
{
    reveal_strlit("Stream error:");
    reveal_strlit("Remote reset:");
    reveal_strlit("Header too big:");
    reveal_strlit("Undefined error:");
    reveal_strlit("Remote is closing the connection");
    reveal_strlit("Connection error:");
    let closing = "Remote is closing the connection"@;
    let conn = "Connection error:"@;
    // The candidates differ from the closing messages at their first
    // character, or ("Remote reset:") at their eighth.
    if has_prefix(msg, closing) {
        assert(msg[0] == closing[0] && msg[7] == closing[7]);
    }
    if has_prefix(msg, conn) {
        assert(msg[0] == conn[0]);
    }
    if has_prefix(msg, "Remote reset:"@) {
        assert(msg[7] == "Remote reset:"@[7]);
    }
    if has_prefix(msg, "Stream error:"@) {
        assert(msg[0] == "Stream error:"@[0]);
    }
    if has_prefix(msg, "Header too big:"@) {
        assert(msg[0] == "Header too big:"@[0]);
    }
    if has_prefix(msg, "Undefined error:"@) {
        assert(msg[0] == "Undefined error:"@[0]);
    }
}

/// Every rendering of a connection-level condition counts as the connection
/// closing: the peer's GOAWAY ("Remote is closing the connection") and any
/// connection error ("Connection error: ..."), whatever follows the prefix.
pub proof fn law_connection_errors_are_closing(msg: Seq<char>)
    requires
        has_prefix(msg, "Connection error:"@) || has_prefix(msg, "Remote is closing the connection"@),
    ensures
        spec_connection_closing_message(msg),
{
}

/// QUIC transport error code: no error.
pub const QUIC_NO_ERROR: u64 = 0;

/// A connection close is benign when it carries `H3_NO_ERROR`, or when the
/// QUIC transport closed it with the transport code for no error.
pub open spec fn spec_benign_close(h3_no_error: bool, transport_close: Option<u64>) -> bool {
    h3_no_error || transport_close == Some(QUIC_NO_ERROR)
}

/// Decides whether a connection close is benign.
pub fn benign_close(h3_no_error: bool, transport_close: Option<u64>) -> (r: bool)
    ensures
        r == spec_benign_close(h3_no_error, transport_close),
{
    h3_no_error || transport_close == Some(QUIC_NO_ERROR)
}

/// Whether a connection error is a local or remote application close with
/// `H3_NO_ERROR` (`ConnectionError::is_h3_no_error`).
pub uninterp spec fn error_is_h3_no_error(e: ConnectionError) -> bool;

/// The QUIC transport error code of a connection error that is a remote
/// close whose undefined source is a quinn transport close; `None` for every
/// other error.
pub uninterp spec fn error_transport_close(e: ConnectionError) -> Option<u64>;

/// Calls `h3::error::ConnectionError::is_h3_no_error`, which holds for a
/// local or remote application close with `H3_NO_ERROR`; its result depends
/// on the error alone.
#[verifier::external_body]
fn connection_error_is_h3_no_error(error: &ConnectionError) -> (r: bool)
    ensures
        r == error_is_h3_no_error(*error),
{
    error.is_h3_no_error()
}

/// When the error is a remote close whose undefined source is a quinn
/// `ConnectionError::ConnectionClosed`, the transport error code of that
/// close (as `u64`); otherwise `None`. The result depends on the error alone.
#[verifier::external_body]
fn quinn_transport_close_code(error: &ConnectionError) -> (r: Option<u64>)
    ensures
        r == error_transport_close(*error),
{
    match error {
        ConnectionError::Remote { 0: h3::quic::ConnectionErrorIncoming::Undefined(source), .. } => {
            match source.as_ref().downcast_ref::<quinn::ConnectionError>() {
                Some(quinn::ConnectionError::ConnectionClosed(close)) => Some(u64::from(close.error_code)),
                _ => None,
            }
        },
        _ => None,
    }
}

/// Returns whether a connection ended without an HTTP/3 or transport error.
pub fn is_benign_connection_close(error: &ConnectionError) -> (r: bool)
    ensures
        r == spec_benign_close(error_is_h3_no_error(*error), error_transport_close(*error)),
{
    let h3_no_error = connection_error_is_h3_no_error(error);
    let transport_close = quinn_transport_close_code(error);
    benign_close(h3_no_error, transport_close)
}

/// How a connection error renders when quinn reports a transport close with
/// the code for no error.
pub open spec fn transport_no_error_message() -> Seq<char> {
    "Remote error: Error undefined by h3: aborted by peer: the connection is being closed abruptly in the absence of any error"@
}

/// A connection close is benign when it carries `H3_NO_ERROR` or renders as
/// a QUIC transport close with the code for no error.
pub open spec fn spec_benign_close_message(h3_no_error: bool, msg: Seq<char>) -> bool {
    h3_no_error || msg == transport_no_error_message()
}

/// Decides whether a connection close is benign from its rendered form.
pub fn benign_close_message(h3_no_error: bool, msg: &str) -> (r: bool)
    ensures
        r == spec_benign_close_message(h3_no_error, msg@),
{
    h3_no_error || str_eq(
        msg,
        "Remote error: Error undefined by h3: aborted by peer: the connection is being closed abruptly in the absence of any error",
    )
}

/// Whether a connection ended without an error, judged from its
/// `H3_NO_ERROR` status and its `Display` form (the HTTP server's variant).
pub fn is_benign_connection_close_by_message(error: &ConnectionError) -> (r: bool)
    ensures
        exists|m: String| #[trigger]
            to_string_from_display_ensures::<ConnectionError>(error, m) && r
                == spec_benign_close_message(error_is_h3_no_error(*error), m@),
{
    let h3_no_error = connection_error_is_h3_no_error(error);
    let m = error.to_string();
    benign_close_message(h3_no_error, m.as_str())
}

} // verus!
