//! Connection reuse and reconnection of the HTTP/3 client.
//!
//! [`RequestSender`] decides, on each readiness poll, whether the cached
//! connection can be reused, must be retired, or a new connection must be
//! made; and, on each request, whether the request can be sent or fails
//! early. The caller owns the QUIC objects (the cached request sender, the
//! driver's end signal, the connect future) and performs what is decided.
//!
//! * A connect failure never fails readiness: it is kept and reported by the
//!   next request, after which the next readiness poll connects again.
//! * A connection is retired when its driver has ended, or when a request on
//!   it reported that the peer is closing the connection. Each connection has
//!   a generation number; a closing report carries the generation of the
//!   request that made it, so a late report about a retired connection never
//!   retires its successor.
use vstd::prelude::*;

verus! {

/// What the caller observed of the driver of the cached connection.
#[derive(Clone, Copy, Debug, PartialEq, Eq, Structural)]
pub enum DriverStatus {
    /// No connection is cached, so there is no driver to watch.
    Absent,
    /// The driver is still running.
    Running,
    /// The driver has ended (its signal fired or its sender was dropped).
    Ended,
}

/// What the caller does next in a readiness poll.
#[derive(Clone, Copy, Debug, PartialEq, Eq, Structural)]
pub enum ReadyStep {
    /// Report readiness.
    Ready,
    /// Start connecting, then poll the connect future.
    StartConnect,
    /// Poll the connect future already in flight.
    PollConnect,
}

/// The outcome of the first half of a readiness poll.
#[derive(Clone, Copy, Debug, PartialEq, Eq, Structural)]
pub struct PollDecision {
    /// Drop the cached connection (request sender and driver signal).
    pub retire: bool,
    /// What to do next.
    pub step: ReadyStep,
}

/// Why a request fails before it is sent.
#[derive(Debug)]
pub enum CallRefusal<E> {
    /// The last connect attempt failed with this error.
    ConnectFailed(E),
    /// The base URI has no scheme.
    MissingScheme,
    /// The base URI has no authority.
    MissingAuthority,
}

/// The closing report value that stands for "no report".
pub const NO_CLOSING_REPORT: u64 = 0;

/// Connection state of an HTTP/3 client.
pub struct RequestSender<E> {
    sender_cached: bool,
    connecting: bool,
    connect_error: Option<E>,
    generation: u64,
    has_scheme: bool,
    has_authority: bool,
}

/// The abstract state of a [`RequestSender`].
pub struct SenderState<E> {
    /// A connection (request sender and driver signal) is cached.
    pub sender_cached: bool,
    /// A connect attempt is in flight.
    pub connecting: bool,
    /// The error of the last connect attempt, not yet reported.
    pub connect_error: Option<E>,
    /// The generation of the current connection.
    pub generation: u64,
    /// The base URI has a scheme.
    pub has_scheme: bool,
    /// The base URI has an authority.
    pub has_authority: bool,
}

impl<E> View for RequestSender<E> {
    type V = SenderState<E>;

    closed spec fn view(&self) -> SenderState<E> {
        SenderState {
            sender_cached: self.sender_cached,
            connecting: self.connecting,
            connect_error: self.connect_error,
            generation: self.generation,
            has_scheme: self.has_scheme,
            has_authority: self.has_authority,
        }
    }
}

/// A cached connection is never made while another is being made, and a
/// pending connect error means that nothing is cached or being made.
pub open spec fn sender_wf<E>(s: SenderState<E>) -> bool {
    &&& !(s.sender_cached && s.connecting)
    &&& s.connect_error is Some ==> !s.sender_cached && !s.connecting
}

/// The closing report that a request of generation `g` makes.
pub open spec fn report_of(g: u64) -> u64 {
    if g == u64::MAX {
        0
    } else {
        (g + 1) as u64
    }
}

pub open spec fn next_generation(g: u64) -> u64 {
    if g == u64::MAX {
        0
    } else {
        (g + 1) as u64
    }
}

/// Drops the cached connection and starts a new generation.
pub open spec fn retired<E>(s: SenderState<E>) -> SenderState<E> {
    SenderState { sender_cached: false, generation: next_generation(s.generation), ..s }
}

/// A readiness poll: first retire the connection whose driver has ended,
/// then the connection reported as closing, then decide.
pub open spec fn spec_poll<E>(s: SenderState<E>, driver: DriverStatus, report: u64) -> (
    SenderState<E>,
    PollDecision,
) {
    let s1 = if driver == DriverStatus::Ended {
        retired(s)
    } else {
        s
    };
    let s2 = if report != NO_CLOSING_REPORT && report == report_of(s1.generation) {
        retired(s1)
    } else {
        s1
    };
    let retire = driver == DriverStatus::Ended || (report != NO_CLOSING_REPORT && report
        == report_of(s1.generation));
    if s2.connect_error is Some {
        (s2, PollDecision { retire, step: ReadyStep::Ready })
    } else if s2.sender_cached {
        (s2, PollDecision { retire, step: ReadyStep::Ready })
    } else if !s2.connecting {
        (SenderState { connecting: true, ..s2 }, PollDecision { retire, step: ReadyStep::StartConnect })
    } else {
        (s2, PollDecision { retire, step: ReadyStep::PollConnect })
    }
}

/// The end of a connect attempt: a connection is cached, or the error is
/// kept for the next request.
pub open spec fn spec_connect_finished<E>(s: SenderState<E>, res: Result<(), E>) -> SenderState<E> {
    match res {
        Ok(()) => SenderState { sender_cached: true, connecting: false, ..s },
        Err(e) => SenderState { connecting: false, connect_error: Some(e), ..s },
    }
}

/// The start of a request: a pending connect error is reported (and
/// cleared), then a base URI without scheme or authority is refused.
pub open spec fn spec_begin_call<E>(s: SenderState<E>) -> (SenderState<E>, Result<(), CallRefusal<E>>) {
    match s.connect_error {
        Some(e) => (SenderState { connect_error: None, ..s }, Err(CallRefusal::ConnectFailed(e))),
        None => if !s.has_scheme {
            (s, Err(CallRefusal::MissingScheme))
        } else if !s.has_authority {
            (s, Err(CallRefusal::MissingAuthority))
        } else {
            (s, Ok(()))
        },
    }
}

impl<E> RequestSender<E> {
    /// A sender with nothing cached, for a base URI that has (or lacks) a
    /// scheme and an authority.
    pub fn new(has_scheme: bool, has_authority: bool) -> (r: Self)
        ensures
            r@ == (SenderState::<E> {
                sender_cached: false,
                connecting: false,
                connect_error: None,
                generation: 0,
                has_scheme,
                has_authority,
            }),
            sender_wf(r@),
    {
        RequestSender {
            sender_cached: false,
            connecting: false,
            connect_error: None,
            generation: 0,
            has_scheme,
            has_authority,
        }
    }

    /// The generation of the current connection.
    pub fn generation(&self) -> (r: u64)
        ensures
            r == self@.generation,
    {
        self.generation
    }

    /// Whether a connection is cached.
    pub fn is_cached(&self) -> (r: bool)
        ensures
            r == self@.sender_cached,
    {
        self.sender_cached
    }

    fn retire_connection(&mut self)
        ensures
            final(self)@ == retired(old(self)@),
    {
        self.sender_cached = false;
        self.generation = if self.generation == u64::MAX {
            0
        } else {
            self.generation + 1
        };
    }

    /// First half of a readiness poll, given the driver status and the
    /// largest closing report made by requests so far.
    pub fn poll_ready(&mut self, driver: DriverStatus, report: u64) -> (r: PollDecision)
        requires
            sender_wf(old(self)@),
        ensures
            (final(self)@, r) == spec_poll(old(self)@, driver, report),
            sender_wf(final(self)@),
    {
        let mut retire = false;
        if driver == DriverStatus::Ended {
            self.retire_connection();
            retire = true;
        }
        let current = if self.generation == u64::MAX {
            0
        } else {
            self.generation + 1
        };
        if report != NO_CLOSING_REPORT && report == current {
            self.retire_connection();
            retire = true;
        }
        if self.connect_error.is_some() {
            PollDecision { retire, step: ReadyStep::Ready }
        } else if self.sender_cached {
            PollDecision { retire, step: ReadyStep::Ready }
        } else if !self.connecting {
            self.connecting = true;
            PollDecision { retire, step: ReadyStep::StartConnect }
        } else {
            PollDecision { retire, step: ReadyStep::PollConnect }
        }
    }

    /// Second half of a readiness poll: the connect future completed.
    pub fn connect_finished(&mut self, res: Result<(), E>)
        requires
            sender_wf(old(self)@),
            old(self)@.connecting,
        ensures
            final(self)@ == spec_connect_finished(old(self)@, res),
            sender_wf(final(self)@),
    {
        self.connecting = false;
        match res {
            Ok(()) => {
                self.sender_cached = true;
            },
            Err(e) => {
                self.connect_error = Some(e);
            },
        }
    }

    /// Start of a request: reports a pending connect error, then refuses a
    /// base URI without scheme or authority.
    pub fn begin_call(&mut self) -> (r: Result<(), CallRefusal<E>>)
        requires
            sender_wf(old(self)@),
        ensures
            (final(self)@, r) == spec_begin_call(old(self)@),
            sender_wf(final(self)@),
    {
        match self.connect_error.take() {
            Some(e) => Err(CallRefusal::ConnectFailed(e)),
            None => {
                if !self.has_scheme {
                    Err(CallRefusal::MissingScheme)
                } else if !self.has_authority {
                    Err(CallRefusal::MissingAuthority)
                } else {
                    Ok(())
                }
            },
        }
    }

    /// The generation that a request sent now belongs to, when a connection
    /// is cached.
    pub fn sender_for_call(&self) -> (r: Option<u64>)
        ensures
            r == (if self@.sender_cached {
                Some(self@.generation)
            } else {
                None::<u64>
            }),
    {
        if self.sender_cached {
            Some(self.generation)
        } else {
            None
        }
    }
}

/// The closing report that a request of generation `generation` makes when
/// the peer closes its connection.
pub fn closing_report(generation: u64) -> (r: u64)
    ensures
        r == report_of(generation),
{
    if generation == u64::MAX {
        0
    } else {
        generation + 1
    }
}

/// The request target sent for a request URI whose path and query is
/// `path_and_query`: the origin form `/` when the URI has none.
pub fn request_target(path_and_query: Option<&str>) -> (r: &str)
    ensures
        r@ == (match path_and_query {
            Some(p) => p@,
            None => "/"@,
        }),
{
    match path_and_query {
        Some(p) => p,
        None => "/",
    }
}

/// The request target for a path and query: the origin form `/` when there
/// is none.
pub open spec fn spec_request_target(path_and_query: Option<Seq<char>>) -> Seq<char> {
    match path_and_query {
        Some(p) => p,
        None => "/"@,
    }
}

/// The URI a request is sent to: the base URI's scheme and authority, then
/// the request's own path and query (`/` when it has none).
pub open spec fn spec_request_uri(
    scheme: Seq<char>,
    authority: Seq<char>,
    path_and_query: Option<Seq<char>>,
) -> Seq<char> {
    scheme + "://"@ + authority + spec_request_target(path_and_query)
}

/// Writes the URI a request is sent to (see [`spec_request_uri`]).
pub fn request_uri(scheme: &str, authority: &str, path_and_query: Option<&str>) -> (r: String)
    ensures
        r@ == spec_request_uri(
            scheme@,
            authority@,
            match path_and_query {
                Some(p) => Some(p@),
                None => None,
            },
        ),
{
    let mut u = String::from_str(scheme);
    u.append("://");
    u.append(authority);
    u.append(request_target(path_and_query));
    u
}

// ---------------------------------------------------------------------------
// Laws
// ---------------------------------------------------------------------------

/// Every step keeps the state well formed.
pub proof fn law_steps_keep_wf<E>(s: SenderState<E>, driver: DriverStatus, report: u64, res: Result<(), E>)
    requires
        sender_wf(s),
    ensures
        sender_wf(spec_poll(s, driver, report).0),
        s.connecting ==> sender_wf(spec_connect_finished(s, res)),
        sender_wf(spec_begin_call(s).0),
{
}

/// While a connect error is pending, readiness is reported at once, no
/// connect is started, and the error is kept for the next request.
pub proof fn law_pending_error_keeps_ready<E>(s: SenderState<E>, driver: DriverStatus, report: u64)
    requires
        sender_wf(s),
        s.connect_error is Some,
    ensures
        spec_poll(s, driver, report).1.step == ReadyStep::Ready,
        spec_poll(s, driver, report).0.connect_error == s.connect_error,
        !spec_poll(s, driver, report).0.connecting,
{
}

/// A failed connect does not fail readiness: the error is kept, and the
/// next readiness poll is ready without connecting again.
pub proof fn law_connect_failure_deferred<E>(s: SenderState<E>, e: E, driver: DriverStatus, report: u64)
    requires
        sender_wf(s),
        s.connecting,
    ensures
        spec_connect_finished(s, Err(e)).connect_error == Some(e),
        spec_poll(spec_connect_finished(s, Err(e)), driver, report).1.step == ReadyStep::Ready,
{
}

/// The next request reports the pending connect error and clears it; the
/// readiness poll after that starts a fresh connect.
pub proof fn law_request_consumes_error<E>(s: SenderState<E>, e: E, driver: DriverStatus, report: u64)
    requires
        sender_wf(s),
        s.connect_error == Some(e),
    ensures
        spec_begin_call(s).1 == Err::<(), CallRefusal<E>>(CallRefusal::ConnectFailed(e)),
        spec_begin_call(s).0.connect_error is None,
        spec_poll(spec_begin_call(s).0, driver, report).1.step == ReadyStep::StartConnect,
{
}

/// A cached connection whose driver runs and that nobody reported closing is
/// reused: ready, nothing retired, state unchanged.
pub proof fn law_cache_hit<E>(s: SenderState<E>, report: u64)
    requires
        sender_wf(s),
        s.sender_cached,
        report != report_of(s.generation),
    ensures
        spec_poll(s, DriverStatus::Running, report) == (s, PollDecision { retire: false, step: ReadyStep::Ready }),
{
}

/// A closing report made by a request of an earlier generation never
/// retires the current connection.
pub proof fn law_stale_report_ignored<E>(s: SenderState<E>, g: u64)
    requires
        sender_wf(s),
        s.sender_cached,
        g < s.generation,
        s.generation < u64::MAX,
    ensures
        spec_poll(s, DriverStatus::Running, report_of(g)).1.retire == false,
        spec_poll(s, DriverStatus::Running, report_of(g)).0.sender_cached,
        spec_poll(s, DriverStatus::Running, report_of(g)).0.generation == s.generation,
{
}

/// A closing report about the current connection retires it, and (with no
/// pending error) the same poll starts a new connect in a new generation.
pub proof fn law_closing_report_reconnects<E>(s: SenderState<E>)
    requires
        sender_wf(s),
        s.connect_error is None,
        s.generation < u64::MAX,
    ensures
        spec_poll(s, DriverStatus::Running, report_of(s.generation)).1 == (PollDecision {
            retire: true,
            step: if s.connecting {
                ReadyStep::PollConnect
            } else {
                ReadyStep::StartConnect
            },
        }),
        spec_poll(s, DriverStatus::Running, report_of(s.generation)).0.generation == s.generation + 1,
        !spec_poll(s, DriverStatus::Running, report_of(s.generation)).0.sender_cached,
{
}

/// A connection whose driver has ended is retired, and (with no pending
/// error) a new connect starts.
pub proof fn law_driver_end_reconnects<E>(s: SenderState<E>, report: u64)
    requires
        sender_wf(s),
        s.sender_cached,
        s.connect_error is None,
    ensures
        spec_poll(s, DriverStatus::Ended, report).1.retire,
        spec_poll(s, DriverStatus::Ended, report).1.step == ReadyStep::StartConnect,
        !spec_poll(s, DriverStatus::Ended, report).0.sender_cached,
{
}

/// At most one connect is in flight: a poll while connecting never starts
/// another one.
pub proof fn law_single_connect<E>(s: SenderState<E>, driver: DriverStatus, report: u64)
    requires
        sender_wf(s),
        s.connecting,
    ensures
        spec_poll(s, driver, report).1.step == ReadyStep::PollConnect,
        spec_poll(s, driver, report).0.connecting,
{
}

/// A poll that starts a connect leaves the sender connecting, whatever it
/// retired first: the next poll (with no connect error pending) polls that
/// connect on, whatever the driver status and closing report it sees, and
/// never starts a second one.
pub proof fn law_started_connect_is_polled_on<E>(
    s: SenderState<E>,
    driver: DriverStatus,
    report: u64,
    driver2: DriverStatus,
    report2: u64,
)
    requires
        sender_wf(s),
        spec_poll(s, driver, report).1.step == ReadyStep::StartConnect,
    ensures
        spec_poll(s, driver, report).0.connecting,
        !spec_poll(s, driver, report).0.sender_cached,
        spec_poll(spec_poll(s, driver, report).0, driver2, report2).1.step == ReadyStep::PollConnect,
{
}

/// A successful connect caches the connection; the next poll with its driver
/// running reuses it.
pub proof fn law_connect_success_cached<E>(s: SenderState<E>, report: u64)
    requires
        sender_wf(s),
        s.connecting,
        report != report_of(s.generation),
    ensures
        spec_connect_finished(s, Ok(())).sender_cached,
        spec_poll(spec_connect_finished(s, Ok(())), DriverStatus::Running, report).1 == (PollDecision {
            retire: false,
            step: ReadyStep::Ready,
        }),
{
}

} // verus!
