use tonic_h3::body::{
    eager_action, EagerAction, EagerPoll,
    BodyFrame, BodySender, FrameOutcome, IncomingBody, RecvEvent, SendAction, SendPhase,
    SendResetGuard, Side, H3_INTERNAL_ERROR, H3_NO_ERROR, H3_REQUEST_CANCELLED,
};

#[test]
fn error_codes_are_the_h3_ones() {
    assert_eq!(H3_NO_ERROR, h3::error::Code::H3_NO_ERROR.value());
    assert_eq!(H3_INTERNAL_ERROR, h3::error::Code::H3_INTERNAL_ERROR.value());
    assert_eq!(H3_REQUEST_CANCELLED, h3::error::Code::H3_REQUEST_CANCELLED.value());
}

#[test]
fn guard_defaults_to_request_cancelled() {
    let g = SendResetGuard::new();
    assert_eq!(g.reset_on_drop(), Some(H3_REQUEST_CANCELLED));
}

#[test]
fn guard_uses_the_last_code_set() {
    let mut g = SendResetGuard::new();
    g.set_error_code(H3_INTERNAL_ERROR);
    assert_eq!(g.reset_on_drop(), Some(H3_INTERNAL_ERROR));
}

#[test]
fn disarmed_guard_never_resets() {
    let mut g = SendResetGuard::new();
    g.disarm();
    assert_eq!(g.reset_on_drop(), None);
    g.set_error_code(H3_INTERNAL_ERROR);
    assert_eq!(g.reset_on_drop(), None);
}

#[test]
fn clean_send_finishes_without_reset() {
    let mut s = BodySender::new();
    assert_eq!(s.on_frame(BodyFrame::Data), SendAction::WriteData);
    assert_eq!(s.on_written(true), SendAction::NextFrame);
    assert_eq!(s.on_frame(BodyFrame::Other), SendAction::NextFrame);
    assert_eq!(s.on_frame(BodyFrame::Trailers), SendAction::WriteTrailers);
    assert_eq!(s.on_written(true), SendAction::NextFrame);
    assert_eq!(s.on_frame(BodyFrame::End), SendAction::Finish);
    assert_eq!(s.reset_on_drop(), Some(H3_REQUEST_CANCELLED));
    assert_eq!(s.on_finished(true), SendAction::ReturnOk);
    assert_eq!(s.phase(), SendPhase::Completed);
    assert_eq!(s.reset_on_drop(), None);
}

#[test]
fn body_error_resets_with_internal_error() {
    let mut s = BodySender::new();
    s.on_frame(BodyFrame::Data);
    s.on_written(true);
    assert_eq!(s.on_frame(BodyFrame::Error), SendAction::ReturnError);
    assert_eq!(s.reset_on_drop(), Some(H3_INTERNAL_ERROR));
}

#[test]
fn write_error_resets_with_internal_error() {
    let mut s = BodySender::new();
    s.on_frame(BodyFrame::Trailers);
    assert_eq!(s.on_written(false), SendAction::ReturnError);
    assert_eq!(s.reset_on_drop(), Some(H3_INTERNAL_ERROR));
}

#[test]
fn finish_error_resets_with_internal_error() {
    let mut s = BodySender::new();
    s.on_frame(BodyFrame::End);
    assert_eq!(s.on_finished(false), SendAction::ReturnError);
    assert_eq!(s.reset_on_drop(), Some(H3_INTERNAL_ERROR));
}

#[test]
fn cancellation_returns_ok_and_resets_with_request_cancelled() {
    let mut s = BodySender::new();
    s.on_frame(BodyFrame::Data);
    s.on_written(true);
    assert_eq!(s.on_cancel(), SendAction::ReturnOk);
    assert_eq!(s.phase(), SendPhase::Cancelled);
    assert_eq!(s.reset_on_drop(), Some(H3_REQUEST_CANCELLED));
}

#[test]
fn abandoned_send_resets_with_request_cancelled() {
    let mut s = BodySender::new();
    s.on_frame(BodyFrame::Data);
    // dropped while the write is in progress
    assert_eq!(s.reset_on_drop(), Some(H3_REQUEST_CANCELLED));
}

#[test]
fn incoming_body_reads_data_then_trailers_then_end() {
    let mut b = IncomingBody::new(Side::Client);
    assert!(b.wants_data());
    assert_eq!(b.on_data(RecvEvent::Item), FrameOutcome::Data);
    assert_eq!(b.on_data(RecvEvent::Item), FrameOutcome::Data);
    assert_eq!(b.stop_on_drop(), Some(H3_REQUEST_CANCELLED));
    assert_eq!(b.on_data(RecvEvent::Done), FrameOutcome::PollAgain);
    assert!(!b.wants_data());
    assert_eq!(b.on_trailers(RecvEvent::Item), FrameOutcome::Trailers);
    assert_eq!(b.on_trailers(RecvEvent::Done), FrameOutcome::End);
    assert_eq!(b.stop_on_drop(), None);
    assert!(!b.is_end_stream());
}

#[test]
fn incoming_body_error_finishes() {
    let mut b = IncomingBody::new(Side::Client);
    assert_eq!(b.on_data(RecvEvent::Error), FrameOutcome::Error);
    assert_eq!(b.stop_on_drop(), None);
    let mut c = IncomingBody::new(Side::Client);
    c.on_data(RecvEvent::Done);
    assert_eq!(c.on_trailers(RecvEvent::Error), FrameOutcome::Error);
    assert_eq!(c.stop_on_drop(), None);
}

#[test]
fn incoming_body_dropped_early_stops_sending() {
    let mut b = IncomingBody::new(Side::Client);
    b.on_data(RecvEvent::Done);
    assert_eq!(b.stop_on_drop(), Some(H3_REQUEST_CANCELLED));
}

#[test]
fn server_ignoring_a_request_body_stops_it_without_error() {
    let mut b = IncomingBody::new(Side::Server);
    assert_eq!(b.stop_on_drop(), Some(H3_NO_ERROR));
    b.on_data(RecvEvent::Item);
    assert_eq!(b.stop_on_drop(), Some(H3_NO_ERROR));
    b.on_data(RecvEvent::Done);
    b.on_trailers(RecvEvent::Done);
    assert_eq!(b.stop_on_drop(), None);
}

#[test]
fn guard_resets_with_last_code_unless_disarmed() {
    let mut g = SendResetGuard::new();
    g.set_error_code(H3_INTERNAL_ERROR);
    g.set_error_code(H3_NO_ERROR);
    assert_eq!(g.reset_on_drop(), Some(H3_NO_ERROR));
    g.disarm();
    g.set_error_code(H3_INTERNAL_ERROR);
    assert_eq!(g.reset_on_drop(), None);
}

#[test]
fn body_sent_at_once_needs_no_task() {
    assert_eq!(eager_action(EagerPoll::Sent), EagerAction::AwaitResponse);
    assert_eq!(eager_action(EagerPoll::Failed), EagerAction::FailRequest);
    assert_eq!(eager_action(EagerPoll::Pending), EagerAction::SpawnRest);
}
