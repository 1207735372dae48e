//! Command-line interface of the echo benchmark: the transports, the output
//! formats, the server and client arguments, and the load they describe.
//!
//! Arguments are long options only, written `--name value` or `--name=value`;
//! each may be given at most once. The first element of the argument list is
//! the program name and is skipped.
use crate::metrics::duration_micros;
use crate::text::{find_char, find_char_from, lemma_find_char_from_bounds, str_eq};
use std::time::Duration;
use vstd::prelude::*;

verus! {

/// The transport under test.
#[derive(Clone, Copy, Debug, PartialEq, Eq, Structural)]
pub enum Transport {
    /// gRPC over TCP and TLS (HTTP/2), the baseline.
    TcpTls,
    /// HTTP/3 over quinn.
    Quinn,
    /// HTTP/3 over msquic.
    Msquic,
    /// HTTP/3 over s2n-quic.
    S2nQuic,
    /// HTTP/3 over quiche.
    Quiche,
}

/// How the benchmark client renders its result.
#[derive(Clone, Copy, Debug, PartialEq, Eq, Structural)]
pub enum OutputFormat {
    /// Human-readable text block (the default).
    Text,
    /// A single-line JSON object.
    Json,
}

/// Why an argument list was refused.
#[derive(Clone, Copy, Debug, PartialEq, Eq, Structural)]
pub enum CliError {
    /// A token that is not a known `--name` option.
    UnknownArgument,
    /// An option without a value.
    MissingValue,
    /// An option given a second time.
    DuplicateArgument,
    /// A value that the option does not accept.
    InvalidValue,
    /// `--count` and `--duration` given together.
    ArgumentConflict,
    /// `--transport` not given.
    MissingRequired,
}

/// What values an option accepts.
#[derive(Clone, Copy, Debug, PartialEq, Eq, Structural)]
pub enum ValueKind {
    /// One of the transport names.
    TransportName,
    /// Any text.
    Text,
    /// One of the output format names.
    FormatName,
    /// A byte count that fits in `usize`.
    Size,
    /// A number from 1 to `u32::MAX`.
    PositiveU32,
    /// A number of seconds that fits in `u64`.
    Seconds,
}

// ---------------------------------------------------------------------------
// Specification of the grammar
// ---------------------------------------------------------------------------

pub open spec fn is_digit(c: char) -> bool {
    '0' <= c && c <= '9'
}

pub open spec fn digit_value(c: char) -> nat {
    (c as int - '0' as int) as nat
}

/// The number that a string of decimal digits denotes.
pub open spec fn decimal_value(d: Seq<char>) -> nat
    decreases d.len(),
{
    if d.len() == 0 {
        0
    } else {
        decimal_value(d.drop_last()) * 10 + digit_value(d.last())
    }
}

/// The digits of a number written with an optional leading `+`.
pub open spec fn unsigned_digits(s: Seq<char>) -> Seq<char> {
    if s.len() > 0 && s[0] == '+' {
        s.drop_first()
    } else {
        s
    }
}

pub open spec fn is_unsigned_decimal(s: Seq<char>) -> bool {
    let d = unsigned_digits(s);
    d.len() > 0 && forall|i: int| 0 <= i < d.len() ==> is_digit(#[trigger] d[i])
}

/// The number written in `s`, when `s` is an optional `+` followed by
/// decimal digits and the number fits in `u64`.
pub open spec fn spec_parse_u64(s: Seq<char>) -> Option<u64> {
    if is_unsigned_decimal(s) && decimal_value(unsigned_digits(s)) <= u64::MAX {
        Some(decimal_value(unsigned_digits(s)) as u64)
    } else {
        None
    }
}

pub open spec fn spec_transport(s: Seq<char>) -> Option<Transport> {
    if s == "tcp-tls"@ {
        Some(Transport::TcpTls)
    } else if s == "quinn"@ {
        Some(Transport::Quinn)
    } else if s == "msquic"@ {
        Some(Transport::Msquic)
    } else if s == "s2n-quic"@ {
        Some(Transport::S2nQuic)
    } else if s == "quiche"@ {
        Some(Transport::Quiche)
    } else {
        None
    }
}

pub open spec fn spec_format(s: Seq<char>) -> Option<OutputFormat> {
    if s == "text"@ {
        Some(OutputFormat::Text)
    } else if s == "json"@ {
        Some(OutputFormat::Json)
    } else {
        None
    }
}

/// Whether an option of kind `k` accepts the value `v`.
pub open spec fn value_ok(k: ValueKind, v: Seq<char>) -> bool {
    match k {
        ValueKind::TransportName => spec_transport(v) is Some,
        ValueKind::Text => true,
        ValueKind::FormatName => spec_format(v) is Some,
        ValueKind::Size => spec_parse_u64(v) matches Some(n) && n <= usize::MAX,
        ValueKind::PositiveU32 => spec_parse_u64(v) matches Some(n) && 1 <= n <= u32::MAX,
        ValueKind::Seconds => spec_parse_u64(v) is Some,
    }
}

/// Index of `name` in the option table, searching from `k`.
pub open spec fn option_index_from(names: Seq<Seq<char>>, name: Seq<char>, k: int) -> Option<int>
    decreases names.len() - k,
{
    if k < 0 || k >= names.len() {
        None
    } else if names[k] == name {
        Some(k)
    } else {
        option_index_from(names, name, k + 1)
    }
}

pub open spec fn is_long_flag(t: Seq<char>) -> bool {
    t.len() >= 2 && t[0] == '-' && t[1] == '-'
}

/// Whether a token reads as an option rather than a value.
pub open spec fn looks_like_flag(t: Seq<char>) -> bool {
    t.len() > 0 && t[0] == '-'
}

/// The option name of a long flag token: the text after `--` up to the first `=`.
pub open spec fn flag_name(t: Seq<char>) -> Seq<char> {
    match find_char_from(t, '=', 2) {
        Some(p) => t.subrange(2, p),
        None => t.subrange(2, t.len() as int),
    }
}

/// The value written after the first `=` of a long flag token, if any.
pub open spec fn flag_inline_value(t: Seq<char>) -> Option<Seq<char>> {
    match find_char_from(t, '=', 2) {
        Some(p) => Some(t.subrange(p + 1, t.len() as int)),
        None => None,
    }
}

/// The values found so far, one slot per option, scanning the tokens from
/// position `i`; or the first error met.
pub open spec fn spec_scan(
    names: Seq<Seq<char>>,
    kinds: Seq<ValueKind>,
    toks: Seq<Seq<char>>,
    i: int,
    acc: Seq<Option<Seq<char>>>,
) -> Result<Seq<Option<Seq<char>>>, CliError>
    decreases toks.len() - i,
{
    if i < 0 || i >= toks.len() {
        Ok(acc)
    } else {
        let t = toks[i];
        if !is_long_flag(t) {
            Err(CliError::UnknownArgument)
        } else {
            match option_index_from(names, flag_name(t), 0) {
                None => Err(CliError::UnknownArgument),
                Some(k) => {
                    let (val, next): (Option<Seq<char>>, int) = match flag_inline_value(t) {
                        Some(v) => (Some(v), i + 1),
                        None => if i + 1 < toks.len() && !looks_like_flag(toks[i + 1]) {
                            (Some(toks[i + 1]), i + 2)
                        } else {
                            (None, i + 1)
                        },
                    };
                    match val {
                        None => Err(CliError::MissingValue),
                        Some(v) => if k < acc.len() && acc[k] is Some {
                            Err(CliError::DuplicateArgument)
                        } else if k >= kinds.len() || !value_ok(kinds[k], v) {
                            Err(CliError::InvalidValue)
                        } else {
                            spec_scan(names, kinds, toks, next, acc.update(k, Some(v)))
                        },
                    }
                },
            }
        }
    }
}

pub open spec fn no_values(n: nat) -> Seq<Option<Seq<char>>> {
    Seq::new(n, |i: int| None::<Seq<char>>)
}

pub open spec fn str_views(args: Seq<&str>) -> Seq<Seq<char>> {
    args.map_values(|s: &str| s@)
}

// ---------------------------------------------------------------------------
// Values
// ---------------------------------------------------------------------------

proof fn lemma_decimal_value_step(d: Seq<char>, k: int)
    requires
        0 <= k < d.len(),
    ensures
        decimal_value(d.subrange(0, k + 1)) == decimal_value(d.subrange(0, k)) * 10 + digit_value(
            d[k],
        ),
{
    assert(d.subrange(0, k + 1).drop_last() =~= d.subrange(0, k));
}

/// A longer string of digits never denotes a smaller number.
proof fn lemma_decimal_value_prefix(d: Seq<char>, k: int)
    requires
        0 <= k <= d.len(),
    ensures
        decimal_value(d.subrange(0, k)) <= decimal_value(d),
    decreases d.len(),
{
    if k < d.len() {
        let e = d.drop_last();
        assert(e.subrange(0, k) =~= d.subrange(0, k));
        lemma_decimal_value_prefix(e, k);
        assert(decimal_value(d) == decimal_value(e) * 10 + digit_value(d.last()));
    } else {
        assert(d.subrange(0, k) =~= d);
    }
}

/// Reads a number written as an optional `+` followed by decimal digits.
pub fn parse_u64(s: &str) -> (r: Option<u64>)
    ensures
        r == spec_parse_u64(s@),
{
    let n = s.unicode_len();
    let mut i: usize = 0;
    if n > 0 && s.get_char(0) == '+' {
        i = 1;
    }
    let ghost d = unsigned_digits(s@);
    assert(d =~= s@.subrange(i as int, n as int));
    if i >= n {
        return None;
    }
    let start = i;
    let mut acc: u64 = 0;
    assert(d.subrange(0, 0) =~= Seq::<char>::empty());
    while i < n
        invariant
            n == s@.len(),
            start <= i <= n,
            start < n,
            d == s@.subrange(start as int, n as int),
            d == unsigned_digits(s@),
            acc == decimal_value(d.subrange(0, i - start)),
            forall|j: int| 0 <= j < i - start ==> is_digit(#[trigger] d[j]),
        decreases n - i,
    {
        let c = s.get_char(i);
        assert(d[i - start] == c);
        if !('0' <= c && c <= '9') {
            assert(!is_digit(c));
            assert(unsigned_digits(s@) == d);
            assert(0 <= i - start < d.len());
            assert(!is_unsigned_decimal(s@));
            return None;
        }
        let dv: u64 = (c as u32 - '0' as u32) as u64;
        assert(dv == digit_value(c));
        proof {
            lemma_decimal_value_step(d, i - start);
        }
        if acc > (u64::MAX - dv) / 10 {
            proof {
                assert(acc * 10 + dv > u64::MAX) by (nonlinear_arith)
                    requires
                        acc > (u64::MAX - dv) / 10,
                        dv <= 9,
                ;
                lemma_decimal_value_prefix(d, i - start + 1);
                assert(decimal_value(d.subrange(0, i - start + 1)) == acc * 10 + dv);
                assert(decimal_value(d) > u64::MAX);
                assert(unsigned_digits(s@) == d);
            }
            return None;
        }
        assert(acc * 10 + dv <= u64::MAX) by (nonlinear_arith)
            requires
                acc <= (u64::MAX - dv) / 10,
                dv <= 9,
        ;
        acc = acc * 10 + dv;
        i = i + 1;
    }
    assert(d.subrange(0, n - start) =~= d);
    Some(acc)
}

/// Reads a transport name.
pub fn parse_transport(s: &str) -> (r: Option<Transport>)
    ensures
        r == spec_transport(s@),
{
    if str_eq(s, "tcp-tls") {
        Some(Transport::TcpTls)
    } else if str_eq(s, "quinn") {
        Some(Transport::Quinn)
    } else if str_eq(s, "msquic") {
        Some(Transport::Msquic)
    } else if str_eq(s, "s2n-quic") {
        Some(Transport::S2nQuic)
    } else if str_eq(s, "quiche") {
        Some(Transport::Quiche)
    } else {
        None
    }
}

/// Reads an output format name.
pub fn parse_format(s: &str) -> (r: Option<OutputFormat>)
    ensures
        r == spec_format(s@),
{
    if str_eq(s, "text") {
        Some(OutputFormat::Text)
    } else if str_eq(s, "json") {
        Some(OutputFormat::Json)
    } else {
        None
    }
}

/// Whether an option of kind `k` accepts `v`.
pub fn check_value(k: ValueKind, v: &str) -> (r: bool)
    ensures
        r == value_ok(k, v@),
{
    match k {
        ValueKind::TransportName => parse_transport(v).is_some(),
        ValueKind::Text => true,
        ValueKind::FormatName => parse_format(v).is_some(),
        ValueKind::Size => match parse_u64(v) {
            Some(n) => n <= usize::MAX as u64,
            None => false,
        },
        ValueKind::PositiveU32 => match parse_u64(v) {
            Some(n) => 1 <= n && n <= u32::MAX as u64,
            None => false,
        },
        ValueKind::Seconds => parse_u64(v).is_some(),
    }
}

// ---------------------------------------------------------------------------
// Scanning
// ---------------------------------------------------------------------------

pub open spec fn opt_views(v: Seq<Option<String>>) -> Seq<Option<Seq<char>>> {
    v.map_values(|o: Option<String>| match o {
        Some(s) => Some(s@),
        None => None,
    })
}

/// Every value recorded in `acc` is accepted by its option.
pub open spec fn values_ok(kinds: Seq<ValueKind>, acc: Seq<Option<Seq<char>>>) -> bool {
    forall|k: int|
        0 <= k < acc.len() && acc[k] is Some ==> k < kinds.len() && value_ok(
            kinds[k],
            #[trigger] acc[k]->Some_0,
        )
}

pub proof fn lemma_option_index_bounds(names: Seq<Seq<char>>, name: Seq<char>, k: int)
    ensures
        option_index_from(names, name, k) matches Some(j) ==> k <= j < names.len() && names[j]
            == name,
    decreases names.len() - k,
{
    if 0 <= k < names.len() && names[k] != name {
        lemma_option_index_bounds(names, name, k + 1);
    }
}

/// Scanning keeps the number of slots and records only accepted values.
pub proof fn lemma_scan_values_ok(
    names: Seq<Seq<char>>,
    kinds: Seq<ValueKind>,
    toks: Seq<Seq<char>>,
    i: int,
    acc: Seq<Option<Seq<char>>>,
)
    requires
        values_ok(kinds, acc),
        acc.len() == names.len(),
    ensures
        spec_scan(names, kinds, toks, i, acc) matches Ok(r) ==> r.len() == acc.len() && values_ok(
            kinds,
            r,
        ),
    decreases toks.len() - i,
{
    if 0 <= i < toks.len() {
        let t = toks[i];
        if is_long_flag(t) {
            lemma_option_index_bounds(names, flag_name(t), 0);
            if let Some(k) = option_index_from(names, flag_name(t), 0) {
                let (val, next): (Option<Seq<char>>, int) = match flag_inline_value(t) {
                    Some(v) => (Some(v), i + 1),
                    None => if i + 1 < toks.len() && !looks_like_flag(toks[i + 1]) {
                        (Some(toks[i + 1]), i + 2)
                    } else {
                        (None, i + 1)
                    },
                };
                if let Some(v) = val {
                    if !(k < acc.len() && acc[k] is Some) && k < kinds.len() && value_ok(kinds[k], v) {
                        let acc2 = acc.update(k, Some(v));
                        assert forall|j: int|
                                0 <= j < acc2.len() && acc2[j] is Some implies j < kinds.len()
                                && value_ok(kinds[j], #[trigger] acc2[j]->Some_0) by {
                                if j != k {
                                    assert(acc2[j] == acc[j]);
                                }
                            }
                        lemma_scan_values_ok(names, kinds, toks, next, acc2);
                    }
                }
            }
        }
    }
}

/// Finds an option by name.
fn lookup_option(names: &Vec<&str>, name: &str) -> (r: Option<usize>)
    ensures
        r matches Some(k) ==> option_index_from(str_views(names@), name@, 0) == Some(k as int)
            && k < names@.len(),
        r is None ==> option_index_from(str_views(names@), name@, 0) is None,
{
    let ghost nv = str_views(names@);
    let mut k: usize = 0;
    while k < names.len()
        invariant
            nv == str_views(names@),
            k <= names@.len(),
            option_index_from(nv, name@, 0) == option_index_from(nv, name@, k as int),
        decreases names@.len() - k,
    {
        assert(nv[k as int] == names@[k as int]@);
        if str_eq(names[k], name) {
            return Some(k);
        }
        assert(option_index_from(nv, name@, k as int) == option_index_from(nv, name@, k + 1));
        k = k + 1;
    }
    None
}

/// Scans the option tokens `toks[start..]` against the option table.
pub fn scan_options(names: &Vec<&str>, kinds: &Vec<ValueKind>, toks: &[&str], start: usize) -> (r:
    Result<Vec<Option<String>>, CliError>)
    requires
        start <= toks@.len(),
    ensures
        match r {
            Ok(v) => spec_scan(
                str_views(names@),
                kinds@,
                str_views(toks@),
                start as int,
                no_values(names@.len()),
            ) == Ok::<Seq<Option<Seq<char>>>, CliError>(opt_views(v@)),
            Err(e) => spec_scan(
                str_views(names@),
                kinds@,
                str_views(toks@),
                start as int,
                no_values(names@.len()),
            ) == Err::<Seq<Option<Seq<char>>>, CliError>(e),
        },
{
    let ghost nv = str_views(names@);
    let ghost tv = str_views(toks@);
    let n = names.len();
    let mut vals: Vec<Option<String>> = Vec::new();
    let mut j: usize = 0;
    while j < n
        invariant
            n == names@.len(),
            j <= n,
            vals@.len() == j,
            forall|q: int| 0 <= q < j ==> vals@[q] is None,
        decreases n - j,
    {
        vals.push(None);
        j = j + 1;
    }
    assert(opt_views(vals@) =~= no_values(n as nat));
    let mut i: usize = start;
    while i < toks.len()
        invariant
            nv == str_views(names@),
            tv == str_views(toks@),
            n == names@.len(),
            vals@.len() == n,
            start <= i <= toks@.len(),
            spec_scan(nv, kinds@, tv, start as int, no_values(n as nat)) == spec_scan(
                nv,
                kinds@,
                tv,
                i as int,
                opt_views(vals@),
            ),
        decreases toks@.len() - i,
    {
        let t: &str = toks[i];
        assert(tv[i as int] == t@);
        let tl = t.unicode_len();
        if !(tl >= 2 && t.get_char(0) == '-' && t.get_char(1) == '-') {
            return Err(CliError::UnknownArgument);
        }
        let eq = find_char(t, '=', 2);
        proof {
            lemma_find_char_from_bounds(t@, '=', 2);
        }
        let name_end = match eq {
            Some(p) => p,
            None => tl,
        };
        let name = t.substring_char(2, name_end);
        assert(name@ == flag_name(t@));
        let k = match lookup_option(names, name) {
            Some(k) => k,
            None => {
                return Err(CliError::UnknownArgument);
            },
        };
        let mut next: usize = i + 1;
        let val: Option<&str> = match eq {
            Some(p) => Some(t.substring_char(p + 1, tl)),
            None => {
                if i + 1 < toks.len() {
                    let u: &str = toks[i + 1];
                    assert(tv[i + 1] == u@);
                    if !(u.unicode_len() > 0 && u.get_char(0) == '-') {
                        next = i + 2;
                        Some(u)
                    } else {
                        None
                    }
                } else {
                    None
                }
            },
        };
        let v = match val {
            Some(v) => v,
            None => {
                return Err(CliError::MissingValue);
            },
        };
        if k < vals.len() && vals[k].is_some() {
            return Err(CliError::DuplicateArgument);
        }
        if k >= kinds.len() || !check_value(kinds[k], v) {
            return Err(CliError::InvalidValue);
        }
        let ghost before = opt_views(vals@);
        proof {
            assert(is_long_flag(t@));
            assert(option_index_from(nv, flag_name(t@), 0) == Some(k as int));
            assert(before[k as int] is None);
            assert(value_ok(kinds@[k as int], v@));
            match eq {
                Some(p) => {
                    assert(flag_inline_value(t@) == Some(v@));
                    assert(next == i + 1);
                },
                None => {
                    assert(flag_inline_value(t@) is None);
                    assert(i + 1 < tv.len() && !looks_like_flag(tv[i + 1]) && tv[i + 1] == v@
                        && next == i + 2);
                },
            }
            assert(spec_scan(nv, kinds@, tv, i as int, before) == spec_scan(
                nv,
                kinds@,
                tv,
                next as int,
                before.update(k as int, Some(v@)),
            ));
        }
        vals.set(k, Some(v.to_owned()));
        assert(opt_views(vals@) =~= before.update(k as int, Some(v@)));
        i = next;
    }
    Ok(vals)
}

// ---------------------------------------------------------------------------
// Server and client arguments
// ---------------------------------------------------------------------------

/// The address that both programs use when `--addr` is not given.
pub open spec fn default_addr() -> Seq<char> {
    "127.0.0.1:5000"@
}

/// Index of the first option token: the program name comes before it.
pub open spec fn first_option(args: Seq<Seq<char>>) -> int {
    if args.len() > 0 {
        1
    } else {
        0
    }
}

pub open spec fn server_names() -> Seq<Seq<char>> {
    seq!["transport"@, "addr"@]
}

pub open spec fn server_kinds() -> Seq<ValueKind> {
    seq![ValueKind::TransportName, ValueKind::Text]
}

pub open spec fn client_names() -> Seq<Seq<char>> {
    seq![
        "transport"@,
        "addr"@,
        "format"@,
        "payload-size"@,
        "concurrency"@,
        "count"@,
        "duration"@,
        "warmup"@,
        "connect-timeout"@,
        "request-timeout"@,
    ]
}

pub open spec fn client_kinds() -> Seq<ValueKind> {
    seq![
        ValueKind::TransportName,
        ValueKind::Text,
        ValueKind::FormatName,
        ValueKind::Size,
        ValueKind::PositiveU32,
        ValueKind::Seconds,
        ValueKind::Seconds,
        ValueKind::Seconds,
        ValueKind::Seconds,
        ValueKind::Seconds,
    ]
}

/// The number in a recorded value, or `default` when the option was not given.
pub open spec fn number_or(v: Option<Seq<char>>, default: u64) -> u64 {
    match v {
        Some(s) => spec_parse_u64(s)->Some_0,
        None => default,
    }
}

pub open spec fn optional_number(v: Option<Seq<char>>) -> Option<u64> {
    match v {
        Some(s) => spec_parse_u64(s),
        None => None,
    }
}

/// `bench-server` arguments.
pub struct ServerArgs {
    /// Transport to serve.
    pub transport: Transport,
    /// Address to bind (host:port).
    pub addr: String,
}

pub struct ServerArgsView {
    pub transport: Transport,
    pub addr: Seq<char>,
}

impl View for ServerArgs {
    type V = ServerArgsView;

    open spec fn view(&self) -> ServerArgsView {
        ServerArgsView { transport: self.transport, addr: self.addr@ }
    }
}

/// The server arguments that the recorded option values describe.
pub open spec fn server_from_values(acc: Seq<Option<Seq<char>>>) -> Result<ServerArgsView, CliError> {
    match acc[0] {
        None => Err(CliError::MissingRequired),
        Some(t) => Ok(
            ServerArgsView {
                transport: spec_transport(t)->Some_0,
                addr: match acc[1] {
                    Some(a) => a,
                    None => default_addr(),
                },
            },
        ),
    }
}

/// What `bench-server` makes of an argument list (program name first).
pub open spec fn spec_parse_server(args: Seq<Seq<char>>) -> Result<ServerArgsView, CliError> {
    match spec_scan(server_names(), server_kinds(), args, first_option(args), no_values(2)) {
        Err(e) => Err(e),
        Ok(acc) => server_from_values(acc),
    }
}

/// `bench-client` arguments.
pub struct ClientArgs {
    /// Transport to connect with.
    pub transport: Transport,
    /// Server address to target (host:port).
    pub addr: String,
    /// Output format for the result.
    pub format: OutputFormat,
    /// Echo payload size in bytes.
    pub payload_size: usize,
    /// Number of concurrent in-flight workers (at least 1).
    pub concurrency: u32,
    /// Total number of requests to send (excludes `duration`).
    pub count: Option<u64>,
    /// Run for this many seconds instead of a fixed count (excludes `count`).
    pub duration: Option<u64>,
    /// Optional warmup duration in seconds.
    pub warmup: Option<u64>,
    /// Connect/preflight timeout in seconds.
    pub connect_timeout: u64,
    /// Per-request timeout in seconds.
    pub request_timeout: u64,
}

pub struct ClientArgsView {
    pub transport: Transport,
    pub addr: Seq<char>,
    pub format: OutputFormat,
    pub payload_size: usize,
    pub concurrency: u32,
    pub count: Option<u64>,
    pub duration: Option<u64>,
    pub warmup: Option<u64>,
    pub connect_timeout: u64,
    pub request_timeout: u64,
}

impl View for ClientArgs {
    type V = ClientArgsView;

    open spec fn view(&self) -> ClientArgsView {
        ClientArgsView {
            transport: self.transport,
            addr: self.addr@,
            format: self.format,
            payload_size: self.payload_size,
            concurrency: self.concurrency,
            count: self.count,
            duration: self.duration,
            warmup: self.warmup,
            connect_timeout: self.connect_timeout,
            request_timeout: self.request_timeout,
        }
    }
}

/// The client arguments that the recorded option values describe: `--count`
/// and `--duration` exclude each other, `--transport` is required, and every
/// other option has its default.
pub open spec fn client_from_values(acc: Seq<Option<Seq<char>>>) -> Result<ClientArgsView, CliError> {
    if acc[5] is Some && acc[6] is Some {
        Err(CliError::ArgumentConflict)
    } else {
        match acc[0] {
            None => Err(CliError::MissingRequired),
            Some(t) => Ok(
                ClientArgsView {
                    transport: spec_transport(t)->Some_0,
                    addr: match acc[1] {
                        Some(a) => a,
                        None => default_addr(),
                    },
                    format: match acc[2] {
                        Some(f) => spec_format(f)->Some_0,
                        None => OutputFormat::Text,
                    },
                    payload_size: number_or(acc[3], 64) as usize,
                    concurrency: number_or(acc[4], 16) as u32,
                    count: optional_number(acc[5]),
                    duration: optional_number(acc[6]),
                    warmup: optional_number(acc[7]),
                    connect_timeout: number_or(acc[8], 5),
                    request_timeout: number_or(acc[9], 30),
                },
            ),
        }
    }
}

/// What `bench-client` makes of an argument list (program name first).
pub open spec fn spec_parse_client(args: Seq<Seq<char>>) -> Result<ClientArgsView, CliError> {
    match spec_scan(client_names(), client_kinds(), args, first_option(args), no_values(10)) {
        Err(e) => Err(e),
        Ok(acc) => client_from_values(acc),
    }
}

fn server_option_table() -> (r: (Vec<&'static str>, Vec<ValueKind>))
    ensures
        str_views(r.0@) == server_names(),
        r.1@ == server_kinds(),
{
    let names = vec!["transport", "addr"];
    let kinds = vec![ValueKind::TransportName, ValueKind::Text];
    assert(str_views(names@) =~= server_names());
    assert(kinds@ =~= server_kinds());
    (names, kinds)
}

fn client_option_table() -> (r: (Vec<&'static str>, Vec<ValueKind>))
    ensures
        str_views(r.0@) == client_names(),
        r.1@ == client_kinds(),
{
    let names = vec![
        "transport",
        "addr",
        "format",
        "payload-size",
        "concurrency",
        "count",
        "duration",
        "warmup",
        "connect-timeout",
        "request-timeout",
    ];
    let kinds = vec![
        ValueKind::TransportName,
        ValueKind::Text,
        ValueKind::FormatName,
        ValueKind::Size,
        ValueKind::PositiveU32,
        ValueKind::Seconds,
        ValueKind::Seconds,
        ValueKind::Seconds,
        ValueKind::Seconds,
        ValueKind::Seconds,
    ];
    assert(str_views(names@) =~= client_names());
    assert(kinds@ =~= client_kinds());
    (names, kinds)
}

/// Reads an accepted numeric value, or gives `default` when absent.
fn number_value_or(v: &Option<String>, default: u64) -> (r: u64)
    requires
        v matches Some(s) ==> spec_parse_u64(s@) is Some,
    ensures
        r == number_or(
            match v {
                Some(s) => Some(s@),
                None => None,
            },
            default,
        ),
{
    match v {
        Some(s) => match parse_u64(s.as_str()) {
            Some(n) => n,
            None => default,
        },
        None => default,
    }
}

fn optional_number_value(v: &Option<String>) -> (r: Option<u64>)
    ensures
        r == optional_number(
            match v {
                Some(s) => Some(s@),
                None => None,
            },
        ),
{
    match v {
        Some(s) => parse_u64(s.as_str()),
        None => None,
    }
}

impl ServerArgs {
    /// Parses `bench-server` arguments; the first element is the program name.
    pub fn try_parse_from(args: &[&str]) -> (r: Result<ServerArgs, CliError>)
        ensures
            match r {
                Ok(a) => spec_parse_server(str_views(args@)) == Ok::<ServerArgsView, CliError>(a@),
                Err(e) => spec_parse_server(str_views(args@)) == Err::<ServerArgsView, CliError>(e),
            },
    {
        let (names, kinds) = server_option_table();
        let start: usize = if args.len() > 0 { 1 } else { 0 };
        let vals = match scan_options(&names, &kinds, args, start) {
            Ok(v) => v,
            Err(e) => {
                return Err(e);
            },
        };
        proof {
            lemma_scan_values_ok(
                server_names(),
                server_kinds(),
                str_views(args@),
                start as int,
                no_values(2),
            );
            assert(opt_views(vals@)[0] == match vals@[0] { Some(s) => Some(s@), None => None::<Seq<char>> });
            assert(opt_views(vals@)[1] == match vals@[1] { Some(s) => Some(s@), None => None::<Seq<char>> });
        }
        let transport = match &vals[0] {
            None => {
                return Err(CliError::MissingRequired);
            },
            Some(t) => match parse_transport(t.as_str()) {
                Some(x) => x,
                None => {
                    return Err(CliError::InvalidValue);
                },
            },
        };
        let addr = match &vals[1] {
            Some(a) => a.clone(),
            None => "127.0.0.1:5000".to_owned(),
        };
        Ok(ServerArgs { transport, addr })
    }
}

impl ClientArgs {
    /// Default request count when neither `--count` nor `--duration` is given.
    pub const DEFAULT_COUNT: u64 = 10_000;

    /// Parses `bench-client` arguments; the first element is the program name.
    pub fn try_parse_from(args: &[&str]) -> (r: Result<ClientArgs, CliError>)
        ensures
            match r {
                Ok(a) => spec_parse_client(str_views(args@)) == Ok::<ClientArgsView, CliError>(a@),
                Err(e) => spec_parse_client(str_views(args@)) == Err::<ClientArgsView, CliError>(e),
            },
    {
        let (names, kinds) = client_option_table();
        let start: usize = if args.len() > 0 { 1 } else { 0 };
        let vals = match scan_options(&names, &kinds, args, start) {
            Ok(v) => v,
            Err(e) => {
                return Err(e);
            },
        };
        let ghost acc = opt_views(vals@);
        proof {
            lemma_scan_values_ok(
                client_names(),
                client_kinds(),
                str_views(args@),
                start as int,
                no_values(10),
            );
            assert forall|k: int| 0 <= k < 10 implies #[trigger] acc[k] == match vals@[k] {
                Some(s) => Some(s@),
                None => None::<Seq<char>>,
            } by {}
            assert(values_ok(client_kinds(), acc));
            assert(acc[0] is Some ==> value_ok(ValueKind::TransportName, acc[0]->Some_0));
            assert(acc[2] is Some ==> value_ok(ValueKind::FormatName, acc[2]->Some_0));
            assert(acc[3] is Some ==> value_ok(ValueKind::Size, acc[3]->Some_0));
            assert(acc[4] is Some ==> value_ok(ValueKind::PositiveU32, acc[4]->Some_0));
            assert(acc[8] is Some ==> value_ok(ValueKind::Seconds, acc[8]->Some_0));
            assert(acc[9] is Some ==> value_ok(ValueKind::Seconds, acc[9]->Some_0));
        }
        if vals[5].is_some() && vals[6].is_some() {
            return Err(CliError::ArgumentConflict);
        }
        let transport = match &vals[0] {
            None => {
                return Err(CliError::MissingRequired);
            },
            Some(t) => match parse_transport(t.as_str()) {
                Some(x) => x,
                None => {
                    return Err(CliError::InvalidValue);
                },
            },
        };
        let addr = match &vals[1] {
            Some(a) => a.clone(),
            None => "127.0.0.1:5000".to_owned(),
        };
        let format = match &vals[2] {
            Some(f) => match parse_format(f.as_str()) {
                Some(x) => x,
                None => OutputFormat::Text,
            },
            None => OutputFormat::Text,
        };
        let payload_size = number_value_or(&vals[3], 64) as usize;
        let concurrency = number_value_or(&vals[4], 16) as u32;
        let count = optional_number_value(&vals[5]);
        let duration = optional_number_value(&vals[6]);
        let warmup = optional_number_value(&vals[7]);
        let connect_timeout = number_value_or(&vals[8], 5);
        let request_timeout = number_value_or(&vals[9], 30);
        Ok(
            ClientArgs {
                transport,
                addr,
                format,
                payload_size,
                concurrency,
                count,
                duration,
                warmup,
                connect_timeout,
                request_timeout,
            },
        )
    }
}

// ---------------------------------------------------------------------------
// Load
// ---------------------------------------------------------------------------

/// The `Duration` of a whole number of seconds (`Duration::from_secs`).
pub uninterp spec fn secs_duration(secs: u64) -> Duration;

/// Calls `std::time::Duration::from_secs`, which builds the duration of
/// `secs` whole seconds (so `secs` million microseconds); the result depends
/// on `secs` alone.
#[verifier::external_body]
fn duration_from_secs(secs: u64) -> (d: Duration)
    ensures
        d == secs_duration(secs),
        duration_micros(d) == secs * 1_000_000,
{
    Duration::from_secs(secs)
}

/// How much load to apply: a fixed request count or a wall-clock duration.
#[derive(Debug, Clone, Copy)]
pub enum LoadLimit {
    Count(u64),
    Duration(Duration),
}

/// Configuration for one benchmark run.
#[derive(Debug)]
pub struct LoadConfig {
    pub payload_size: usize,
    pub concurrency: usize,
    pub limit: LoadLimit,
    pub warmup: Option<Duration>,
    pub connect_timeout: Duration,
    /// A request that exceeds this is counted as a failure.
    pub request_timeout: Duration,
}

/// The load limit of a run: the duration when one is given, else the count,
/// else the default count.
pub open spec fn spec_limit(count: Option<u64>, duration: Option<u64>) -> LoadLimit {
    match (count, duration) {
        (_, Some(d)) => LoadLimit::Duration(secs_duration(d)),
        (Some(n), None) => LoadLimit::Count(n),
        (None, None) => LoadLimit::Count(10_000),
    }
}

impl Transport {
    /// The name under which the transport is given on the command line.
    pub open spec fn spec_name(self) -> Seq<char> {
        match self {
            Transport::TcpTls => "tcp-tls"@,
            Transport::Quinn => "quinn"@,
            Transport::Msquic => "msquic"@,
            Transport::S2nQuic => "s2n-quic"@,
            Transport::Quiche => "quiche"@,
        }
    }

    /// The command-line name of the transport (its display form).
    pub fn as_str(&self) -> (r: &'static str)
        ensures
            r@ == self.spec_name(),
    {
        match self {
            Transport::TcpTls => "tcp-tls",
            Transport::Quinn => "quinn",
            Transport::Msquic => "msquic",
            Transport::S2nQuic => "s2n-quic",
            Transport::Quiche => "quiche",
        }
    }

    /// The command-line name of the transport, as an owned string.
    pub fn to_string(&self) -> (r: String)
        ensures
            r@ == self.spec_name(),
    {
        self.as_str().to_owned()
    }
}

impl ClientArgs {
    /// Resolves the load limit (defaults to a fixed count).
    pub fn limit(&self) -> (r: LoadLimit)
        ensures
            r == spec_limit(self.count, self.duration),
    {
        match (self.count, self.duration) {
            (_, Some(d)) => LoadLimit::Duration(duration_from_secs(d)),
            (Some(n), None) => LoadLimit::Count(n),
            (None, None) => LoadLimit::Count(Self::DEFAULT_COUNT),
        }
    }

    /// Builds the load configuration that these arguments describe.
    pub fn load_config(&self) -> (r: LoadConfig)
        ensures
            r.payload_size == self.payload_size,
            r.concurrency == self.concurrency as usize,
            r.limit == spec_limit(self.count, self.duration),
            r.warmup == (match self.warmup {
                Some(w) => Some(secs_duration(w)),
                None => None,
            }),
            r.connect_timeout == secs_duration(self.connect_timeout),
            r.request_timeout == secs_duration(self.request_timeout),
            duration_micros(r.connect_timeout) == self.connect_timeout * 1_000_000,
            duration_micros(r.request_timeout) == self.request_timeout * 1_000_000,
    {
        let warmup = match self.warmup {
            Some(w) => Some(duration_from_secs(w)),
            None => None,
        };
        LoadConfig {
            payload_size: self.payload_size,
            concurrency: self.concurrency as usize,
            limit: self.limit(),
            warmup,
            connect_timeout: duration_from_secs(self.connect_timeout),
            request_timeout: duration_from_secs(self.request_timeout),
        }
    }
}

// ---------------------------------------------------------------------------
// Laws
// ---------------------------------------------------------------------------

/// `--count` and `--duration` exclude each other: an argument list whose
/// options are otherwise all accepted, and that gives both, is refused with
/// `ArgumentConflict`.
pub proof fn law_count_and_duration_exclusive(args: Seq<Seq<char>>)
    requires
        spec_scan(client_names(), client_kinds(), args, first_option(args), no_values(10)) matches Ok(
            acc,
        ) && acc[5] is Some && acc[6] is Some,
    ensures
        spec_parse_client(args) == Err::<ClientArgsView, CliError>(CliError::ArgumentConflict),
{
}

/// A client run has at least one worker: every accepted argument list gives
/// a concurrency of at least 1 (`--concurrency 0` is refused).
pub proof fn law_client_concurrency_positive(args: Seq<Seq<char>>)
    requires
        spec_parse_client(args) is Ok,
    ensures
        spec_parse_client(args)->Ok_0.concurrency >= 1,
{
    let acc0 = no_values(10);
    assert(values_ok(client_kinds(), acc0));
    lemma_scan_values_ok(client_names(), client_kinds(), args, first_option(args), acc0);
    let acc = spec_scan(client_names(), client_kinds(), args, first_option(args), acc0)->Ok_0;
    if acc[4] is Some {
        assert(value_ok(client_kinds()[4], acc[4]->Some_0));
    }
}

/// Every transport is read back from the name it is shown under.
pub proof fn law_transport_name_round_trip(t: Transport)
    ensures
        spec_transport(t.spec_name()) == Some(t),
{
    reveal_strlit("tcp-tls");
    reveal_strlit("quinn");
    reveal_strlit("msquic");
    reveal_strlit("s2n-quic");
    reveal_strlit("quiche");
    assert("quinn"@.len() != "tcp-tls"@.len());
    assert("msquic"@.len() != "tcp-tls"@.len() && "msquic"@.len() != "quinn"@.len());
    assert("s2n-quic"@.len() != "tcp-tls"@.len() && "s2n-quic"@.len() != "quinn"@.len()
        && "s2n-quic"@.len() != "msquic"@.len());
    assert("quiche"@.len() != "tcp-tls"@.len() && "quiche"@.len() != "quinn"@.len()
        && "quiche"@.len() != "s2n-quic"@.len());
    assert("quiche"@[1] != "msquic"@[1]);
}


/// Each transport is read from, and shown under, its own command-line name:
/// `tcp-tls`, `quinn`, `msquic`, `s2n-quic`, `quiche`.
pub proof fn law_transport_names()
    ensures
        spec_transport("tcp-tls"@) == Some(Transport::TcpTls),
        spec_transport("quinn"@) == Some(Transport::Quinn),
        spec_transport("msquic"@) == Some(Transport::Msquic),
        spec_transport("s2n-quic"@) == Some(Transport::S2nQuic),
        spec_transport("quiche"@) == Some(Transport::Quiche),
        Transport::TcpTls.spec_name() == "tcp-tls"@,
        Transport::Quinn.spec_name() == "quinn"@,
        Transport::Msquic.spec_name() == "msquic"@,
        Transport::S2nQuic.spec_name() == "s2n-quic"@,
        Transport::Quiche.spec_name() == "quiche"@,
{
    law_transport_name_round_trip(Transport::TcpTls);
    law_transport_name_round_trip(Transport::Quinn);
    law_transport_name_round_trip(Transport::Msquic);
    law_transport_name_round_trip(Transport::S2nQuic);
    law_transport_name_round_trip(Transport::Quiche);
}

/// Each output format is read from its own name: `text` gives the text
/// block, `json` the JSON object.
pub proof fn law_format_names()
    ensures
        spec_format("text"@) == Some(OutputFormat::Text),
        spec_format("json"@) == Some(OutputFormat::Json),
{
    reveal_strlit("text");
    reveal_strlit("json");
    assert("json"@[0] != "text"@[0]);
}

} // verus!
