use tonic_h3::request_sender::{
    closing_report, request_uri, request_target, CallRefusal, DriverStatus, PollDecision, ReadyStep,
    RequestSender, NO_CLOSING_REPORT,
};

fn ready(retire: bool) -> PollDecision {
    PollDecision { retire, step: ReadyStep::Ready }
}

#[test]
fn first_poll_connects_then_caches() {
    let mut s: RequestSender<&str> = RequestSender::new(true, true);
    let d = s.poll_ready(DriverStatus::Absent, NO_CLOSING_REPORT);
    assert_eq!(d, PollDecision { retire: false, step: ReadyStep::StartConnect });
    // while the connect is in flight, no second connect starts
    let d = s.poll_ready(DriverStatus::Absent, NO_CLOSING_REPORT);
    assert_eq!(d, PollDecision { retire: false, step: ReadyStep::PollConnect });
    s.connect_finished(Ok(()));
    assert!(s.is_cached());
    assert_eq!(s.poll_ready(DriverStatus::Running, NO_CLOSING_REPORT), ready(false));
    assert!(s.begin_call().is_ok());
    assert_eq!(s.sender_for_call(), Some(0));
}

#[test]
fn connect_error_is_deferred_to_the_next_request() {
    let mut s: RequestSender<&str> = RequestSender::new(true, true);
    s.poll_ready(DriverStatus::Absent, NO_CLOSING_REPORT);
    s.connect_finished(Err("transient connect failure"));
    // readiness stays Ok and idempotent, no reconnect while the error waits
    assert_eq!(s.poll_ready(DriverStatus::Absent, NO_CLOSING_REPORT), ready(false));
    assert_eq!(s.poll_ready(DriverStatus::Absent, NO_CLOSING_REPORT), ready(false));
    match s.begin_call() {
        Err(CallRefusal::ConnectFailed(e)) => assert_eq!(e, "transient connect failure"),
        other => panic!("expected the deferred connect error, got {other:?}"),
    }
    // the error was consumed: the next poll reconnects
    assert_eq!(
        s.poll_ready(DriverStatus::Absent, NO_CLOSING_REPORT),
        PollDecision { retire: false, step: ReadyStep::StartConnect }
    );
    s.connect_finished(Ok(()));
    assert!(s.begin_call().is_ok());
}

#[test]
fn missing_base_uri_parts_fail_each_request() {
    let mut s: RequestSender<()> = RequestSender::new(false, true);
    assert!(matches!(s.begin_call(), Err(CallRefusal::MissingScheme)));
    let mut s: RequestSender<()> = RequestSender::new(true, false);
    assert!(matches!(s.begin_call(), Err(CallRefusal::MissingAuthority)));
    let mut s: RequestSender<()> = RequestSender::new(false, false);
    assert!(matches!(s.begin_call(), Err(CallRefusal::MissingScheme)));
}

#[test]
fn not_ready_without_a_cached_connection() {
    let s: RequestSender<()> = RequestSender::new(true, true);
    assert_eq!(s.sender_for_call(), None);
}

#[test]
fn driver_end_retires_and_reconnects() {
    let mut s: RequestSender<()> = RequestSender::new(true, true);
    s.poll_ready(DriverStatus::Absent, NO_CLOSING_REPORT);
    s.connect_finished(Ok(()));
    let d = s.poll_ready(DriverStatus::Ended, NO_CLOSING_REPORT);
    assert_eq!(d, PollDecision { retire: true, step: ReadyStep::StartConnect });
    assert_eq!(s.generation(), 1);
    assert!(!s.is_cached());
}

#[test]
fn closing_report_of_current_generation_retires() {
    let mut s: RequestSender<()> = RequestSender::new(true, true);
    s.poll_ready(DriverStatus::Absent, NO_CLOSING_REPORT);
    s.connect_finished(Ok(()));
    let g = s.sender_for_call().unwrap();
    let report = closing_report(g);
    assert_eq!(report, 1);
    let d = s.poll_ready(DriverStatus::Running, report);
    assert_eq!(d, PollDecision { retire: true, step: ReadyStep::StartConnect });
    assert_eq!(s.generation(), 1);
}

#[test]
fn stale_closing_report_does_not_retire_the_new_connection() {
    let mut s: RequestSender<()> = RequestSender::new(true, true);
    s.poll_ready(DriverStatus::Absent, NO_CLOSING_REPORT);
    s.connect_finished(Ok(()));
    let old_generation = s.sender_for_call().unwrap();
    // connection 1 is retired by its driver ending; connection 2 is made
    s.poll_ready(DriverStatus::Ended, NO_CLOSING_REPORT);
    s.connect_finished(Ok(()));
    assert_eq!(s.generation(), 1);
    // a late closing report from a request on connection 1
    let d = s.poll_ready(DriverStatus::Running, closing_report(old_generation));
    assert_eq!(d, ready(false));
    assert!(s.is_cached());
    assert_eq!(s.generation(), 1);
}

#[test]
fn cache_hit_keeps_everything() {
    let mut s: RequestSender<()> = RequestSender::new(true, true);
    s.poll_ready(DriverStatus::Absent, NO_CLOSING_REPORT);
    s.connect_finished(Ok(()));
    for _ in 0..3 {
        assert_eq!(s.poll_ready(DriverStatus::Running, NO_CLOSING_REPORT), ready(false));
        assert!(s.is_cached());
        assert_eq!(s.generation(), 0);
    }
}

#[test]
fn closing_report_wraps_at_the_last_generation() {
    assert_eq!(closing_report(0), 1);
    assert_eq!(closing_report(41), 42);
    assert_eq!(closing_report(u64::MAX), NO_CLOSING_REPORT);
}

#[test]
fn request_target_defaults_to_root() {
    assert_eq!(request_target(None), "/");
    assert_eq!(request_target(Some("/helloworld.Greeter/SayHello")), "/helloworld.Greeter/SayHello");
    assert_eq!(request_target(Some("/a?b=c")), "/a?b=c");
}

#[test]
fn request_uri_joins_base_and_target() {
    assert_eq!(request_uri("https", "localhost:4433", None), "https://localhost:4433/");
    assert_eq!(
        request_uri("https", "localhost:4433", Some("/helloworld.Greeter/SayHello?x=1")),
        "https://localhost:4433/helloworld.Greeter/SayHello?x=1"
    );
}
