use std::time::Duration;
use tonic_h3::cli::{ClientArgs, CliError, LoadLimit, OutputFormat, ServerArgs, Transport};

#[test]
fn count_and_duration_are_mutually_exclusive() {
    let r = ClientArgs::try_parse_from(&[
        "bench-client",
        "--transport",
        "quinn",
        "--count",
        "5",
        "--duration",
        "3",
    ]);
    assert!(
        r.is_err(),
        "supplying both --count and --duration must error"
    );
}

#[test]
fn defaults_apply_when_not_specified() {
    let a = ClientArgs::try_parse_from(&["bench-client", "--transport", "quinn"]).unwrap();
    assert_eq!(a.payload_size, 64);
    assert_eq!(a.concurrency, 16);
    assert_eq!(a.connect_timeout, 5);
    assert!(a.count.is_none());
    assert!(a.duration.is_none());
    assert!(matches!(
        a.limit(),
        LoadLimit::Count(ClientArgs::DEFAULT_COUNT)
    ));
    // Text output is the default so existing behavior is preserved.
    assert_eq!(a.format, OutputFormat::Text);
}

#[test]
fn format_json_parses() {
    let a = ClientArgs::try_parse_from(&[
        "bench-client",
        "--transport",
        "quinn",
        "--format",
        "json",
    ])
    .unwrap();
    assert_eq!(a.format, OutputFormat::Json);
}

#[test]
fn transport_value_enum_parses_kebab_case() {
    let a = ClientArgs::try_parse_from(&["bench-client", "--transport", "s2n-quic"]).unwrap();
    assert_eq!(a.transport, Transport::S2nQuic);
}

#[test]
fn zero_concurrency_is_rejected() {
    let r = ClientArgs::try_parse_from(&[
        "bench-client",
        "--transport",
        "quinn",
        "--concurrency",
        "0",
    ]);
    assert!(r.is_err(), "--concurrency 0 must be rejected");
}

#[test]
fn duration_limit_selected() {
    let a = ClientArgs::try_parse_from(&[
        "bench-client",
        "--transport",
        "quinn",
        "--duration",
        "7",
    ])
    .unwrap();
    assert!(matches!(a.limit(), LoadLimit::Duration(d) if d == Duration::from_secs(7)));
}

#[test]
fn all_client_options_with_both_value_forms() {
    let a = ClientArgs::try_parse_from(&[
        "bench-client",
        "--transport=msquic",
        "--addr",
        "10.0.0.1:443",
        "--format=json",
        "--payload-size",
        "+4096",
        "--concurrency=32",
        "--count",
        "100",
        "--warmup",
        "2",
        "--connect-timeout=9",
        "--request-timeout",
        "11",
    ])
    .unwrap();
    assert_eq!(a.transport, Transport::Msquic);
    assert_eq!(a.addr, "10.0.0.1:443");
    assert_eq!(a.format, OutputFormat::Json);
    assert_eq!(a.payload_size, 4096);
    assert_eq!(a.concurrency, 32);
    assert_eq!(a.count, Some(100));
    assert_eq!(a.duration, None);
    assert_eq!(a.warmup, Some(2));
    assert_eq!(a.connect_timeout, 9);
    assert_eq!(a.request_timeout, 11);
    assert!(matches!(a.limit(), LoadLimit::Count(100)));
    let cfg = a.load_config();
    assert_eq!(cfg.payload_size, 4096);
    assert_eq!(cfg.concurrency, 32);
    assert_eq!(cfg.warmup, Some(Duration::from_secs(2)));
    assert_eq!(cfg.connect_timeout, Duration::from_secs(9));
    assert_eq!(cfg.request_timeout, Duration::from_secs(11));
}

#[test]
fn default_address_and_request_timeout() {
    let a = ClientArgs::try_parse_from(&["bench-client", "--transport", "tcp-tls"]).unwrap();
    assert_eq!(a.addr, "127.0.0.1:5000");
    assert_eq!(a.request_timeout, 30);
    assert_eq!(a.transport.as_str(), "tcp-tls");
    assert_eq!(Transport::S2nQuic.to_string(), "s2n-quic");
}

#[test]
fn each_error_kind_is_reported() {
    assert_eq!(
        ClientArgs::try_parse_from(&["bench-client", "--transport", "quinn", "extra"]).err(),
        Some(CliError::UnknownArgument)
    );
    assert_eq!(
        ClientArgs::try_parse_from(&["bench-client", "--transport", "quinn", "--bogus", "1"]).err(),
        Some(CliError::UnknownArgument)
    );
    assert_eq!(
        ClientArgs::try_parse_from(&["bench-client", "--transport"]).err(),
        Some(CliError::MissingValue)
    );
    assert_eq!(
        ClientArgs::try_parse_from(&["bench-client", "--transport", "--count", "1"]).err(),
        Some(CliError::MissingValue)
    );
    assert_eq!(
        ClientArgs::try_parse_from(&["bench-client", "--transport", "quinn", "--transport", "quinn"]).err(),
        Some(CliError::DuplicateArgument)
    );
    assert_eq!(
        ClientArgs::try_parse_from(&["bench-client", "--transport", "QUINN"]).err(),
        Some(CliError::InvalidValue)
    );
    assert_eq!(
        ClientArgs::try_parse_from(&["bench-client", "--transport", "quinn", "--count", "-1"]).err(),
        Some(CliError::MissingValue)
    );
    assert_eq!(
        ClientArgs::try_parse_from(&["bench-client", "--transport", "quinn", "--count=x1"]).err(),
        Some(CliError::InvalidValue)
    );
    assert_eq!(
        ClientArgs::try_parse_from(&["bench-client", "--transport", "quinn", "--count", "18446744073709551616"]).err(),
        Some(CliError::InvalidValue)
    );
    assert_eq!(
        ClientArgs::try_parse_from(&["bench-client", "--transport", "quinn", "--concurrency", "4294967296"]).err(),
        Some(CliError::InvalidValue)
    );
    assert_eq!(
        ClientArgs::try_parse_from(&["bench-client", "--count", "1", "--duration", "1"]).err(),
        Some(CliError::ArgumentConflict)
    );
    assert_eq!(
        ClientArgs::try_parse_from(&["bench-client", "--count", "1"]).err(),
        Some(CliError::MissingRequired)
    );
    assert_eq!(ClientArgs::try_parse_from(&[]).err(), Some(CliError::MissingRequired));
}

#[test]
fn largest_count_is_accepted() {
    let a = ClientArgs::try_parse_from(&[
        "bench-client",
        "--transport",
        "quiche",
        "--count",
        "18446744073709551615",
    ])
    .unwrap();
    assert_eq!(a.count, Some(u64::MAX));
}

#[test]
fn server_arguments_parse() {
    let a = ServerArgs::try_parse_from(&["bench-server", "--transport", "quinn"]).unwrap();
    assert_eq!(a.transport, Transport::Quinn);
    assert_eq!(a.addr, "127.0.0.1:5000");
    let b = ServerArgs::try_parse_from(&["bench-server", "--addr=0.0.0.0:9", "--transport", "msquic"]).unwrap();
    assert_eq!(b.transport, Transport::Msquic);
    assert_eq!(b.addr, "0.0.0.0:9");
    assert_eq!(
        ServerArgs::try_parse_from(&["bench-server", "--transport", "quinn", "--count", "1"]).err(),
        Some(CliError::UnknownArgument)
    );
    assert_eq!(
        ServerArgs::try_parse_from(&["bench-server"]).err(),
        Some(CliError::MissingRequired)
    );
}
