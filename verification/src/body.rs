//! Streaming of HTTP/3 message bodies.
//!
//! * [`SendResetGuard`]: whether, and with which HTTP/3 error code, the send
//!   side of a stream is reset when the sender goes away.
//! * [`BodySender`]: the loop that writes a request or response body frame by
//!   frame and then finishes the stream. An interrupted send resets the
//!   stream, so the peer sees a stream error rather than a clean end of a
//!   truncated message: a body or transport failure with
//!   `H3_INTERNAL_ERROR`, a cancellation or an abandoned send with
//!   `H3_REQUEST_CANCELLED`. Only a send whose stream finished cleanly
//!   leaves the stream alone.
//! * [`IncomingBody`]: the reader of a received body, which yields the data
//!   frames, then the trailers, then the end. A reader dropped before the end
//!   asks the peer to stop sending: a client dropping a response body with
//!   `H3_REQUEST_CANCELLED`, a server ignoring (part of) a request body with
//!   `H3_NO_ERROR`, since the response it sends is still valid.
use vstd::prelude::*;

verus! {

/// HTTP/3 error code: no error.
pub const H3_NO_ERROR: u64 = 0x100;

/// HTTP/3 error code: an internal error in the HTTP stack.
pub const H3_INTERNAL_ERROR: u64 = 0x102;

/// HTTP/3 error code: the request or its response is cancelled.
pub const H3_REQUEST_CANCELLED: u64 = 0x10c;

// ---------------------------------------------------------------------------
// Reset guard
// ---------------------------------------------------------------------------

/// Whether the send side of a stream is reset when its sender goes away, and
/// with which error code. A new guard is armed with `H3_REQUEST_CANCELLED`.
pub struct SendResetGuard {
    armed: bool,
    code: u64,
}

pub struct GuardState {
    pub armed: bool,
    pub code: u64,
}

impl View for SendResetGuard {
    type V = GuardState;

    closed spec fn view(&self) -> GuardState {
        GuardState { armed: self.armed, code: self.code }
    }
}

/// The reset that a guard in state `g` performs when dropped.
pub open spec fn spec_reset_on_drop(g: GuardState) -> Option<u64> {
    if g.armed {
        Some(g.code)
    } else {
        None
    }
}

impl SendResetGuard {
    /// A guard armed to reset with `H3_REQUEST_CANCELLED`.
    pub fn new() -> (r: Self)
        ensures
            r@ == (GuardState { armed: true, code: H3_REQUEST_CANCELLED }),
    {
        SendResetGuard { armed: true, code: H3_REQUEST_CANCELLED }
    }

    /// Leaves the stream untouched on drop (normal completion).
    pub fn disarm(&mut self)
        ensures
            final(self)@ == (GuardState { armed: false, code: old(self)@.code }),
    {
        self.armed = false;
    }

    /// Sets the code used when the guard resets the stream.
    pub fn set_error_code(&mut self, code: u64)
        ensures
            final(self)@ == (GuardState { armed: old(self)@.armed, code }),
    {
        self.code = code;
    }

    /// The error code to reset the stream with on drop, if armed.
    pub fn reset_on_drop(&self) -> (r: Option<u64>)
        ensures
            r == spec_reset_on_drop(self@),
    {
        if self.armed {
            Some(self.code)
        } else {
            None
        }
    }
}

// ---------------------------------------------------------------------------
// Body sender
// ---------------------------------------------------------------------------

/// Where a body send stands.
#[derive(Clone, Copy, Debug, PartialEq, Eq, Structural)]
pub enum SendPhase {
    /// Waiting for the next frame of the body.
    Streaming,
    /// A data or trailers frame is being written.
    Writing,
    /// The body ended; the stream is being finished.
    Finishing,
    /// The stream was finished cleanly.
    Completed,
    /// The body, a write or the finish failed.
    Failed,
    /// The send was cancelled.
    Cancelled,
}

/// What polling the body for its next frame gave.
#[derive(Clone, Copy, Debug, PartialEq, Eq, Structural)]
pub enum BodyFrame {
    /// A data frame.
    Data,
    /// A trailers frame.
    Trailers,
    /// A frame that is neither data nor trailers.
    Other,
    /// The body failed.
    Error,
    /// The body ended.
    End,
}

/// What the caller does next.
#[derive(Clone, Copy, Debug, PartialEq, Eq, Structural)]
pub enum SendAction {
    /// Write the data frame to the stream.
    WriteData,
    /// Write the trailers to the stream.
    WriteTrailers,
    /// Poll the body for its next frame.
    NextFrame,
    /// Finish the stream.
    Finish,
    /// Stop and return success.
    ReturnOk,
    /// Stop and return the error at hand.
    ReturnError,
}

/// A body send in progress: its phase and its reset guard.
pub struct BodySender {
    guard: SendResetGuard,
    phase: SendPhase,
}

pub struct SenderView {
    pub guard: GuardState,
    pub phase: SendPhase,
}

impl View for BodySender {
    type V = SenderView;

    closed spec fn view(&self) -> SenderView {
        SenderView { guard: self.guard@, phase: self.phase }
    }
}

/// The guard agrees with the phase: disarmed exactly after a clean finish,
/// armed with `H3_INTERNAL_ERROR` after a failure, armed with
/// `H3_REQUEST_CANCELLED` otherwise.
pub open spec fn body_sender_wf(s: SenderView) -> bool {
    spec_reset_on_drop(s.guard) == spec_reset_for(s.phase)
}

/// The reset performed when a send in phase `p` goes away.
pub open spec fn spec_reset_for(p: SendPhase) -> Option<u64> {
    match p {
        SendPhase::Completed => None,
        SendPhase::Failed => Some(H3_INTERNAL_ERROR),
        _ => Some(H3_REQUEST_CANCELLED),
    }
}

/// The phase and action after the body gave `f`.
pub open spec fn spec_on_frame(f: BodyFrame) -> (SendPhase, SendAction) {
    match f {
        BodyFrame::Data => (SendPhase::Writing, SendAction::WriteData),
        BodyFrame::Trailers => (SendPhase::Writing, SendAction::WriteTrailers),
        BodyFrame::Other => (SendPhase::Streaming, SendAction::NextFrame),
        BodyFrame::Error => (SendPhase::Failed, SendAction::ReturnError),
        BodyFrame::End => (SendPhase::Finishing, SendAction::Finish),
    }
}

impl BodySender {
    /// A send that waits for the first frame, with its guard armed.
    pub fn new() -> (r: Self)
        ensures
            r@.phase == SendPhase::Streaming,
            body_sender_wf(r@),
    {
        BodySender { guard: SendResetGuard::new(), phase: SendPhase::Streaming }
    }

    /// The current phase.
    pub fn phase(&self) -> (r: SendPhase)
        ensures
            r == self@.phase,
    {
        self.phase
    }

    fn fail(&mut self)
        ensures
            final(self)@.phase == SendPhase::Failed,
            final(self)@.guard == (GuardState { armed: old(self)@.guard.armed, code: H3_INTERNAL_ERROR }),
    {
        self.guard.set_error_code(H3_INTERNAL_ERROR);
        self.phase = SendPhase::Failed;
    }

    /// The send was cancelled while waiting for a frame: return success and
    /// leave the guard armed with `H3_REQUEST_CANCELLED`.
    pub fn on_cancel(&mut self) -> (r: SendAction)
        requires
            old(self)@.phase == SendPhase::Streaming,
            body_sender_wf(old(self)@),
        ensures
            r == SendAction::ReturnOk,
            final(self)@.phase == SendPhase::Cancelled,
            body_sender_wf(final(self)@),
    {
        self.phase = SendPhase::Cancelled;
        SendAction::ReturnOk
    }

    /// The body gave its next frame (or ended, or failed).
    pub fn on_frame(&mut self, f: BodyFrame) -> (r: SendAction)
        requires
            old(self)@.phase == SendPhase::Streaming,
            body_sender_wf(old(self)@),
        ensures
            (final(self)@.phase, r) == spec_on_frame(f),
            body_sender_wf(final(self)@),
    {
        match f {
            BodyFrame::Data => {
                self.phase = SendPhase::Writing;
                SendAction::WriteData
            },
            BodyFrame::Trailers => {
                self.phase = SendPhase::Writing;
                SendAction::WriteTrailers
            },
            BodyFrame::Other => SendAction::NextFrame,
            BodyFrame::Error => {
                self.fail();
                SendAction::ReturnError
            },
            BodyFrame::End => {
                self.phase = SendPhase::Finishing;
                SendAction::Finish
            },
        }
    }

    /// A frame was written (`ok`) or the write failed.
    pub fn on_written(&mut self, ok: bool) -> (r: SendAction)
        requires
            old(self)@.phase == SendPhase::Writing,
            body_sender_wf(old(self)@),
        ensures
            ok ==> r == SendAction::NextFrame && final(self)@.phase == SendPhase::Streaming,
            !ok ==> r == SendAction::ReturnError && final(self)@.phase == SendPhase::Failed,
            body_sender_wf(final(self)@),
    {
        if ok {
            self.phase = SendPhase::Streaming;
            SendAction::NextFrame
        } else {
            self.fail();
            SendAction::ReturnError
        }
    }

    /// The stream was finished (`ok`) or finishing failed. A clean finish
    /// disarms the guard.
    pub fn on_finished(&mut self, ok: bool) -> (r: SendAction)
        requires
            old(self)@.phase == SendPhase::Finishing,
            body_sender_wf(old(self)@),
        ensures
            ok ==> r == SendAction::ReturnOk && final(self)@.phase == SendPhase::Completed,
            !ok ==> r == SendAction::ReturnError && final(self)@.phase == SendPhase::Failed,
            body_sender_wf(final(self)@),
    {
        if ok {
            self.guard.disarm();
            self.phase = SendPhase::Completed;
            SendAction::ReturnOk
        } else {
            self.fail();
            SendAction::ReturnError
        }
    }

    /// The error code to reset the stream with when the send goes away.
    pub fn reset_on_drop(&self) -> (r: Option<u64>)
        requires
            body_sender_wf(self@),
        ensures
            r == spec_reset_for(self@.phase),
    {
        self.guard.reset_on_drop()
    }
}

// ---------------------------------------------------------------------------
// Sending the request body at once
// ---------------------------------------------------------------------------

/// What one immediate poll of a request's body send gave.
#[derive(Clone, Copy, Debug, PartialEq, Eq, Structural)]
pub enum EagerPoll {
    /// The whole body was sent and the stream finished.
    Sent,
    /// The send failed.
    Failed,
    /// The send is not done yet.
    Pending,
}

/// What the client does after polling the body send once, before waiting for
/// the response.
#[derive(Clone, Copy, Debug, PartialEq, Eq, Structural)]
pub enum EagerAction {
    /// Go on to the response; nothing runs in the background.
    AwaitResponse,
    /// Fail the request with the send's error.
    FailRequest,
    /// Move the rest of the send to a background task, then go on to the
    /// response.
    SpawnRest,
}

pub open spec fn spec_eager_action(p: EagerPoll) -> EagerAction {
    match p {
        EagerPoll::Sent => EagerAction::AwaitResponse,
        EagerPoll::Failed => EagerAction::FailRequest,
        EagerPoll::Pending => EagerAction::SpawnRest,
    }
}

/// Decides what follows the immediate poll of a request's body send: a body
/// sent at once needs no task, a failed send fails the request, and only a
/// send still pending goes on in a background task.
pub fn eager_action(p: EagerPoll) -> (r: EagerAction)
    ensures
        r == spec_eager_action(p),
{
    match p {
        EagerPoll::Sent => EagerAction::AwaitResponse,
        EagerPoll::Failed => EagerAction::FailRequest,
        EagerPoll::Pending => EagerAction::SpawnRest,
    }
}

// ---------------------------------------------------------------------------
// Incoming body
// ---------------------------------------------------------------------------

/// What receiving from the stream gave.
#[derive(Clone, Copy, Debug, PartialEq, Eq, Structural)]
pub enum RecvEvent {
    /// A data chunk, or the trailers.
    Item,
    /// No more data, or no trailers.
    Done,
    /// A stream error.
    Error,
}

/// What the reader yields for one poll.
#[derive(Clone, Copy, Debug, PartialEq, Eq, Structural)]
pub enum FrameOutcome {
    /// A data frame with the chunk received.
    Data,
    /// A trailers frame.
    Trailers,
    /// Nothing yet: wake the task and poll again (now for the trailers).
    PollAgain,
    /// The end of the body.
    End,
    /// The stream error received.
    Error,
}

/// Which end of a request stream reads the body.
#[derive(Clone, Copy, Debug, PartialEq, Eq, Structural)]
pub enum Side {
    /// The client, reading a response body.
    Client,
    /// The server, reading a request body.
    Server,
}

/// Reader of a received body.
pub struct IncomingBody {
    side: Side,
    data_done: bool,
    finished: bool,
}

pub struct IncomingState {
    /// The end of the stream that reads the body.
    pub side: Side,
    /// All data has been received; the trailers come next.
    pub data_done: bool,
    /// The body reached its end or a stream error.
    pub finished: bool,
}

impl View for IncomingBody {
    type V = IncomingState;

    closed spec fn view(&self) -> IncomingState {
        IncomingState { side: self.side, data_done: self.data_done, finished: self.finished }
    }
}

/// A poll of the data: the next state and what is yielded.
pub open spec fn spec_on_data(s: IncomingState, ev: RecvEvent) -> (IncomingState, FrameOutcome) {
    match ev {
        RecvEvent::Item => (s, FrameOutcome::Data),
        RecvEvent::Done => (IncomingState { data_done: true, ..s }, FrameOutcome::PollAgain),
        RecvEvent::Error => (IncomingState { finished: true, ..s }, FrameOutcome::Error),
    }
}

/// A poll of the trailers: the next state and what is yielded.
pub open spec fn spec_on_trailers(s: IncomingState, ev: RecvEvent) -> (IncomingState, FrameOutcome) {
    match ev {
        RecvEvent::Item => (s, FrameOutcome::Trailers),
        RecvEvent::Done => (IncomingState { finished: true, ..s }, FrameOutcome::End),
        RecvEvent::Error => (IncomingState { finished: true, ..s }, FrameOutcome::Error),
    }
}

/// The stop-sending code used when a reader in state `s` is dropped: none
/// once the body finished; otherwise `H3_REQUEST_CANCELLED` from a client
/// (the response is no longer wanted) and `H3_NO_ERROR` from a server (the
/// request body is not needed for the response).
pub open spec fn spec_stop_on_drop(s: IncomingState) -> Option<u64> {
    if s.finished {
        None
    } else {
        match s.side {
            Side::Client => Some(H3_REQUEST_CANCELLED),
            Side::Server => Some(H3_NO_ERROR),
        }
    }
}

impl IncomingBody {
    /// A reader on `side` that has received nothing yet.
    pub fn new(side: Side) -> (r: Self)
        ensures
            r@ == (IncomingState { side, data_done: false, finished: false }),
    {
        IncomingBody { side, data_done: false, finished: false }
    }

    /// Whether the next poll receives data (else the trailers).
    pub fn wants_data(&self) -> (r: bool)
        ensures
            r == !self@.data_done,
    {
        !self.data_done
    }

    /// Receiving data gave `ev`.
    pub fn on_data(&mut self, ev: RecvEvent) -> (r: FrameOutcome)
        requires
            !old(self)@.data_done,
        ensures
            (final(self)@, r) == spec_on_data(old(self)@, ev),
    {
        match ev {
            RecvEvent::Item => FrameOutcome::Data,
            RecvEvent::Done => {
                self.data_done = true;
                FrameOutcome::PollAgain
            },
            RecvEvent::Error => {
                self.finished = true;
                FrameOutcome::Error
            },
        }
    }

    /// Receiving the trailers gave `ev`.
    pub fn on_trailers(&mut self, ev: RecvEvent) -> (r: FrameOutcome)
        requires
            old(self)@.data_done,
        ensures
            (final(self)@, r) == spec_on_trailers(old(self)@, ev),
    {
        match ev {
            RecvEvent::Item => FrameOutcome::Trailers,
            RecvEvent::Done => {
                self.finished = true;
                FrameOutcome::End
            },
            RecvEvent::Error => {
                self.finished = true;
                FrameOutcome::Error
            },
        }
    }

    /// The code to ask the peer to stop sending with, when dropped.
    pub fn stop_on_drop(&self) -> (r: Option<u64>)
        ensures
            r == spec_stop_on_drop(self@),
    {
        if self.finished {
            None
        } else {
            match self.side {
                Side::Client => Some(H3_REQUEST_CANCELLED),
                Side::Server => Some(H3_NO_ERROR),
            }
        }
    }

    /// Whether the body is known to have ended (never claimed in advance).
    pub fn is_end_stream(&self) -> (r: bool)
        ensures
            r == false,
    {
        false
    }
}

// ---------------------------------------------------------------------------
// Laws
// ---------------------------------------------------------------------------

/// A new guard resets with `H3_REQUEST_CANCELLED`; a disarmed guard never
/// resets, whatever code is set afterwards; an armed guard resets with the
/// last code set.
pub proof fn law_guard(g: GuardState, code: u64)
    ensures
        spec_reset_on_drop(GuardState { armed: true, code: H3_REQUEST_CANCELLED }) == Some(
            H3_REQUEST_CANCELLED,
        ),
        spec_reset_on_drop(GuardState { armed: false, code }) is None,
        g.armed ==> spec_reset_on_drop(GuardState { armed: g.armed, code }) == Some(code),
{
}

/// How a send ends decides the reset: none after a clean finish,
/// `H3_INTERNAL_ERROR` after any failure, `H3_REQUEST_CANCELLED` after a
/// cancellation or when the send is abandoned before it finished.
pub proof fn law_send_outcome_decides_reset(s: SenderView)
    requires
        body_sender_wf(s),
    ensures
        spec_reset_on_drop(s.guard) is None <==> s.phase == SendPhase::Completed,
        spec_reset_on_drop(s.guard) == Some(H3_INTERNAL_ERROR) <==> s.phase == SendPhase::Failed,
        spec_reset_on_drop(s.guard) == Some(H3_REQUEST_CANCELLED) <==> (s.phase
            != SendPhase::Completed && s.phase != SendPhase::Failed),
{
}

/// A reader stops the peer exactly when dropped before the end of the body
/// or a stream error; once finished, it stays finished, and once the data is
/// done it stays done.
pub proof fn law_incoming_body(s: IncomingState, ev: RecvEvent)
    ensures
        spec_stop_on_drop(s) is None <==> s.finished,
        !s.finished && s.side == Side::Client ==> spec_stop_on_drop(s) == Some(H3_REQUEST_CANCELLED),
        !s.finished && s.side == Side::Server ==> spec_stop_on_drop(s) == Some(H3_NO_ERROR),
        spec_on_data(s, ev).0.side == s.side && spec_on_trailers(s, ev).0.side == s.side,
        s.finished ==> spec_on_data(s, ev).0.finished && spec_on_trailers(s, ev).0.finished,
        s.data_done ==> spec_on_data(s, ev).0.data_done && spec_on_trailers(s, ev).0.data_done,
        spec_on_trailers(s, RecvEvent::Done).1 == FrameOutcome::End ==> spec_on_trailers(
            s,
            RecvEvent::Done,
        ).0.finished,
{
}

/// Receiving a data chunk changes nothing in the reader: it yields the chunk
/// and stays in the data phase, so every chunk of a body is yielded before
/// the trailers are polled; only the end of the data moves on to them.
pub proof fn law_data_chunks_keep_reading_data(s: IncomingState)
    ensures
        spec_on_data(s, RecvEvent::Item) == (s, FrameOutcome::Data),
        !s.data_done ==> !spec_on_data(s, RecvEvent::Item).0.data_done,
        spec_on_data(s, RecvEvent::Done).0.data_done,
        !s.finished ==> !spec_on_data(s, RecvEvent::Done).0.finished,
{
}

/// A call made on a reset guard.
pub enum GuardOp {
    /// `set_error_code` with this code.
    SetCode(u64),
    /// `disarm`.
    Disarm,
}

/// The guard state after one call (as `set_error_code` and `disarm` ensure).
pub open spec fn guard_step(g: GuardState, op: GuardOp) -> GuardState {
    match op {
        GuardOp::SetCode(c) => GuardState { armed: g.armed, code: c },
        GuardOp::Disarm => GuardState { armed: false, code: g.code },
    }
}

/// The guard state after the calls `ops`, in order, starting from `g`.
pub open spec fn guard_after(g: GuardState, ops: Seq<GuardOp>) -> GuardState
    decreases ops.len(),
{
    if ops.len() == 0 {
        g
    } else {
        guard_step(guard_after(g, ops.drop_last()), ops.last())
    }
}

/// Whether `ops` holds a `disarm`.
pub open spec fn has_disarm(ops: Seq<GuardOp>) -> bool {
    exists|i: int| 0 <= i < ops.len() && ops[i] is Disarm
}

/// The last code set by `ops`, or `default` when none is.
pub open spec fn last_code(ops: Seq<GuardOp>, default: u64) -> u64
    decreases ops.len(),
{
    if ops.len() == 0 {
        default
    } else {
        match ops.last() {
            GuardOp::SetCode(c) => c,
            GuardOp::Disarm => last_code(ops.drop_last(), default),
        }
    }
}

/// Whatever calls are made on a new guard, dropping it resets the stream
/// exactly when `disarm` was never called, with the last code set
/// (`H3_REQUEST_CANCELLED` when none was).
pub proof fn law_guard_calls(ops: Seq<GuardOp>)
    ensures
        spec_reset_on_drop(guard_after(GuardState { armed: true, code: H3_REQUEST_CANCELLED }, ops))
            == (if has_disarm(ops) {
            None
        } else {
            Some(last_code(ops, H3_REQUEST_CANCELLED))
        }),
{
    let g0 = GuardState { armed: true, code: H3_REQUEST_CANCELLED };
    lemma_guard_after(g0, ops);
}

proof fn lemma_guard_after(g0: GuardState, ops: Seq<GuardOp>)
    requires
        g0.armed,
    ensures
        guard_after(g0, ops).armed == !has_disarm(ops),
        guard_after(g0, ops).code == last_code(ops, g0.code),
    decreases ops.len(),
{
    if ops.len() > 0 {
        let init = ops.drop_last();
        lemma_guard_after(g0, init);
        if has_disarm(init) {
            let i = choose|i: int| 0 <= i < init.len() && init[i] is Disarm;
            assert(ops[i] is Disarm);
        }
        if ops.last() is Disarm {
            assert(ops[ops.len() - 1] is Disarm);
        }
        if has_disarm(ops) && !(ops.last() is Disarm) {
            let i = choose|i: int| 0 <= i < ops.len() && ops[i] is Disarm;
            assert(i < ops.len() - 1);
            assert(init[i] is Disarm);
        }
    }
}

} // verus!
