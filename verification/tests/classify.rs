use std::sync::Arc;
use tonic_h3::classify::{
    benign_close, benign_close_message, connection_closing_message, is_benign_connection_close,
    is_benign_connection_close_by_message, is_connection_closing, QUIC_NO_ERROR,
};

#[test]
fn connection_level_stream_errors_are_closing() {
    assert!(connection_closing_message("Remote is closing the connection"));
    assert!(connection_closing_message("Connection error: Timeout"));
}

#[test]
fn stream_level_errors_are_not_closing() {
    assert!(!connection_closing_message("Stream error: H3_INTERNAL_ERROR - boom"));
    assert!(!connection_closing_message("Remote reset: H3_REQUEST_CANCELLED"));
    assert!(!connection_closing_message("Header too big: actual size: 10, max size: 5"));
    assert!(!connection_closing_message("Undefined error: x"));
    assert!(!connection_closing_message("Remote is closing"));
    assert!(!connection_closing_message(""));
}

#[test]
fn benign_close_decisions() {
    assert!(benign_close(true, None));
    assert!(benign_close(false, Some(QUIC_NO_ERROR)));
    assert!(!benign_close(false, Some(0x1)));
    assert!(!benign_close(false, None));
}

#[test]
fn benign_close_by_message_decisions() {
    assert!(benign_close_message(true, "anything"));
    assert!(benign_close_message(
        false,
        "Remote error: Error undefined by h3: aborted by peer: the connection is being closed abruptly in the absence of any error"
    ));
    assert!(!benign_close_message(false, "Remote error: Timeout"));
}

fn transport_close(code: quinn::TransportErrorCode) -> h3::error::ConnectionError {
    let close = quinn::ConnectionError::ConnectionClosed(quinn::ConnectionClose {
        error_code: code,
        frame_type: None,
        reason: hyper::body::Bytes::new(),
    });
    h3::error::ConnectionError::Remote(h3::quic::ConnectionErrorIncoming::Undefined(Arc::new(close)))
}

#[test]
fn ignored_request_body_only_transport_no_error_is_benign() {
    assert!(is_benign_connection_close(&transport_close(quinn::TransportErrorCode::NO_ERROR)));
    assert!(!is_benign_connection_close(&transport_close(quinn::TransportErrorCode::INTERNAL_ERROR)));
}

#[test]
fn axum_only_transport_no_error_is_benign() {
    assert!(is_benign_connection_close(&transport_close(quinn::TransportErrorCode::NO_ERROR)));
    assert!(!is_benign_connection_close(&transport_close(quinn::TransportErrorCode::INTERNAL_ERROR)));
}

#[test]
fn application_no_error_close_is_benign() {
    let e = h3::error::ConnectionError::Remote(h3::quic::ConnectionErrorIncoming::ApplicationClose {
        error_code: 0x100,
    });
    assert!(is_benign_connection_close(&e));
    assert!(is_benign_connection_close_by_message(&e));
    let e = h3::error::ConnectionError::Remote(h3::quic::ConnectionErrorIncoming::ApplicationClose {
        error_code: 0x102,
    });
    assert!(!is_benign_connection_close(&e));
    assert!(!is_benign_connection_close(&h3::error::ConnectionError::Timeout));
}

#[test]
fn transport_close_by_message() {
    assert!(is_benign_connection_close_by_message(&transport_close(quinn::TransportErrorCode::NO_ERROR)));
    assert!(!is_benign_connection_close_by_message(&transport_close(
        quinn::TransportErrorCode::INTERNAL_ERROR
    )));
    assert!(!is_benign_connection_close_by_message(&h3::error::ConnectionError::Timeout));
}

#[test]
fn stream_errors_that_close_the_connection() {
    assert!(is_connection_closing(&h3::error::StreamError::RemoteClosing));
    assert!(is_connection_closing(&h3::error::StreamError::ConnectionError(
        h3::error::ConnectionError::Timeout
    )));
    assert!(!is_connection_closing(&h3::error::StreamError::RemoteTerminate {
        code: h3::error::Code::H3_REQUEST_CANCELLED,
    }));
    assert!(!is_connection_closing(&h3::error::StreamError::HeaderTooBig { actual_size: 10, max_size: 5 }));
}
