//! The responder role: the handshake and the receive side of one accepted
//! connection, and the accept loop that serves one connection at a time.
//!
//! Both are step functions. The caller carries out the action returned,
//! reports the outcome as the next event, and so on until the step says stop.

use crate::codec::decode;
use crate::codec::decoded;
use crate::codec::mode_of;
use crate::codec::nonce_from;
use crate::codec::DecodeError;
use crate::codec::Frame;
use crate::codec::FrameView;
use crate::codec::Mode;
use crate::codec::ModeView;
use crate::codec::MAX_CHUNK;
use crate::codec::NONCE_LEN;
use crate::digest::accepts;
use crate::digest::challenge;
use crate::digest::verify;
use crate::digest::DIGEST_LEN;
use crate::display::line_of;
use crate::display::split_line;
use crate::display::Line;
use crate::display::LineView;
use vstd::prelude::*;

verus! {

/// What the caller reports after carrying out an action on the connection.
#[derive(Debug, PartialEq, Eq)]
pub enum PeerEvent {
    /// The action is done and gave no data: a write went through, a line was
    /// shown.
    Done,
    /// A read gave these bytes; none at all means the peer closed the stream.
    Data(Vec<u8>),
    /// The action failed: an I/O error, or fewer bytes than an exact read
    /// asked for.
    Failed,
}

/// An event as a plain value.
pub enum PeerEventView {
    Done,
    Data(Seq<u8>),
    Failed,
}

impl View for PeerEvent {
    type V = PeerEventView;

    open spec fn view(&self) -> PeerEventView {
        match self {
            PeerEvent::Done => PeerEventView::Done,
            PeerEvent::Data(bytes) => PeerEventView::Data(bytes@),
            PeerEvent::Failed => PeerEventView::Failed,
        }
    }
}

/// Why a connection ended without harm to the process.
#[derive(Clone, Copy, Debug, PartialEq, Eq, Structural)]
pub enum CloseReason {
    /// The challenge could not be written.
    ChallengeNotSent,
    /// The response did not arrive whole.
    ResponseNotRead,
    /// The nonce of the next frame did not arrive whole.
    PeerDisconnected,
    /// The peer closed the stream.
    EndOfStream,
    /// Reading the next chunk failed.
    ConnectionLost,
}

/// Where one accepted connection stands.
#[derive(Clone, Copy, Debug, PartialEq, Eq, Structural)]
pub enum Phase {
    /// Accepted, nothing done yet.
    Accepted,
    /// The challenge is being written.
    SendingChallenge,
    /// The response is being read.
    AwaitingResponse,
    /// The peer is authenticated, or needs no authentication, and is being
    /// announced.
    Announcing,
    /// The nonce of the next frame is being read.
    AwaitingNonce,
    /// The body of the next frame is being read.
    AwaitingChunk,
    /// A received line, or a note on a dropped frame, is being shown.
    Presenting,
    /// The connection is over.
    Closed(CloseReason),
    /// The peer answered the challenge wrongly.
    Rejected,
}

/// What the caller is to do next on the connection.
#[derive(Debug, PartialEq, Eq)]
pub enum HandlerAction {
    /// Write all of these bytes.
    Write(Vec<u8>),
    /// Read exactly this many bytes.
    ReadExact(usize),
    /// Read once, at most this many bytes.
    ReadChunk(usize),
    /// Tell the user that the peer has connected.
    Announce,
    /// Show the line and signal that the input line must be drawn again.
    Show(Line),
    /// Note that a frame was dropped; the session goes on.
    Report(DecodeError),
    /// Close the connection and accept the next one.
    Close(CloseReason),
    /// The shared password is wrong on one side: end the process.
    Terminate,
}

/// An action as a plain value.
pub enum HandlerActionView {
    Write(Seq<u8>),
    ReadExact(usize),
    ReadChunk(usize),
    Announce,
    Show(LineView),
    Report(DecodeError),
    Close(CloseReason),
    Terminate,
}

impl View for HandlerAction {
    type V = HandlerActionView;

    open spec fn view(&self) -> HandlerActionView {
        match self {
            HandlerAction::Write(bytes) => HandlerActionView::Write(bytes@),
            HandlerAction::ReadExact(n) => HandlerActionView::ReadExact(*n),
            HandlerAction::ReadChunk(n) => HandlerActionView::ReadChunk(*n),
            HandlerAction::Announce => HandlerActionView::Announce,
            HandlerAction::Show(line) => HandlerActionView::Show(line@),
            HandlerAction::Report(e) => HandlerActionView::Report(*e),
            HandlerAction::Close(r) => HandlerActionView::Close(*r),
            HandlerAction::Terminate => HandlerActionView::Terminate,
        }
    }
}

/// The state of one accepted connection. Password and mode are set when the
/// connection is accepted and stay as they are.
#[derive(Debug, PartialEq, Eq)]
pub struct ClientHandler {
    pub password: Vec<u8>,
    pub mode: Mode,
    pub challenge: [u8; 32],
    pub nonce: [u8; 12],
    pub phase: Phase,
}

/// A handler as a plain value.
pub struct HandlerView {
    pub password: Seq<u8>,
    pub mode: ModeView,
    pub challenge: Seq<u8>,
    pub nonce: Seq<u8>,
    pub phase: Phase,
}

impl View for ClientHandler {
    type V = HandlerView;

    open spec fn view(&self) -> HandlerView {
        HandlerView {
            password: self.password@,
            mode: self.mode@,
            challenge: self.challenge@,
            nonce: self.nonce@,
            phase: self.phase,
        }
    }
}

/// The handler of a connection that was just accepted.
pub open spec fn accepted(password: Seq<u8>) -> HandlerView {
    HandlerView {
        password,
        mode: mode_of(password),
        challenge: Seq::new(DIGEST_LEN as nat, |i: int| 0u8),
        nonce: Seq::new(NONCE_LEN as nat, |i: int| 0u8),
        phase: Phase::Accepted,
    }
}

/// The connection ends for `reason`.
pub open spec fn closing(h: HandlerView, reason: CloseReason) -> (HandlerView, HandlerActionView) {
    (HandlerView { phase: Phase::Closed(reason), ..h }, HandlerActionView::Close(reason))
}

/// The next frame is awaited: its nonce first where frames are sealed.
pub open spec fn listening(h: HandlerView) -> (HandlerView, HandlerActionView) {
    if h.mode is Encrypted {
        (HandlerView { phase: Phase::AwaitingNonce, ..h }, HandlerActionView::ReadExact(NONCE_LEN))
    } else {
        (HandlerView { phase: Phase::AwaitingChunk, ..h }, HandlerActionView::ReadChunk(MAX_CHUNK))
    }
}

/// The frame that a chunk makes, with the nonce read before it where frames
/// are sealed.
pub open spec fn frame_of(h: HandlerView, chunk: Seq<u8>) -> FrameView {
    if h.mode is Encrypted {
        FrameView::Sealed { nonce: h.nonce, ciphertext: chunk }
    } else {
        FrameView::Raw(chunk)
    }
}

/// A chunk has arrived: the line it decodes to is shown; a chunk that does
/// not decode is noted and dropped. Either way the session goes on.
pub open spec fn receiving(h: HandlerView, chunk: Seq<u8>) -> (HandlerView, HandlerActionView) {
    let next = HandlerView { phase: Phase::Presenting, ..h };
    match decoded(frame_of(h, chunk), h.mode) {
        Ok(payload) => (next, HandlerActionView::Show(line_of(payload))),
        Err(e) => (next, HandlerActionView::Report(e)),
    }
}

/// One step of an accepted connection: the state after `event` and the
/// action to carry out next. `fresh` is the challenge to use should this step
/// send one.
pub open spec fn handler_next(h: HandlerView, event: PeerEventView, fresh: Seq<u8>) -> (
    HandlerView,
    HandlerActionView,
) {
    match h.phase {
        Phase::Accepted => if h.mode is Encrypted {
            (
                HandlerView { challenge: fresh, phase: Phase::SendingChallenge, ..h },
                HandlerActionView::Write(fresh),
            )
        } else {
            (HandlerView { phase: Phase::Announcing, ..h }, HandlerActionView::Announce)
        },
        Phase::SendingChallenge => match event {
            PeerEventView::Done => (
                HandlerView { phase: Phase::AwaitingResponse, ..h },
                HandlerActionView::ReadExact(DIGEST_LEN),
            ),
            _ => closing(h, CloseReason::ChallengeNotSent),
        },
        Phase::AwaitingResponse => match event {
            PeerEventView::Data(response) => if response.len() != DIGEST_LEN {
                closing(h, CloseReason::ResponseNotRead)
            } else if accepts(h.password, h.challenge, response) {
                (HandlerView { phase: Phase::Announcing, ..h }, HandlerActionView::Announce)
            } else {
                (HandlerView { phase: Phase::Rejected, ..h }, HandlerActionView::Terminate)
            },
            _ => closing(h, CloseReason::ResponseNotRead),
        },
        Phase::Announcing => listening(h),
        Phase::Presenting => listening(h),
        Phase::AwaitingNonce => match event {
            PeerEventView::Data(nonce) => if nonce.len() == NONCE_LEN {
                (
                    HandlerView { nonce, phase: Phase::AwaitingChunk, ..h },
                    HandlerActionView::ReadChunk(MAX_CHUNK),
                )
            } else {
                closing(h, CloseReason::PeerDisconnected)
            },
            _ => closing(h, CloseReason::PeerDisconnected),
        },
        Phase::AwaitingChunk => match event {
            PeerEventView::Data(chunk) => if chunk.len() == 0 {
                closing(h, CloseReason::EndOfStream)
            } else {
                receiving(h, chunk)
            },
            _ => closing(h, CloseReason::ConnectionLost),
        },
        Phase::Closed(reason) => (h, HandlerActionView::Close(reason)),
        Phase::Rejected => (h, HandlerActionView::Terminate),
    }
}

impl ClientHandler {
    /// The handler for a connection that was just accepted. An empty password
    /// means an unencrypted session without a handshake.
    pub fn new(password: &[u8]) -> (handler: ClientHandler)
        ensures
            handler@ == accepted(password@),
    {
        let handler = ClientHandler {
            password: crate::codec::copy_bytes(password),
            mode: Mode::from_password(password),
            challenge: [0u8; 32],
            nonce: [0u8; 12],
            phase: Phase::Accepted,
        };
        assert(handler.challenge@ =~= Seq::new(DIGEST_LEN as nat, |i: int| 0u8));
        assert(handler.nonce@ =~= Seq::new(NONCE_LEN as nat, |i: int| 0u8));
        handler
    }

    /// Where the connection stands.
    pub fn phase(&self) -> (phase: Phase)
        ensures
            phase == self@.phase,
    {
        self.phase
    }

    fn close(&mut self, reason: CloseReason) -> (action: HandlerAction)
        ensures
            (final(self)@, action@) == closing(old(self)@, reason),
    {
        self.phase = Phase::Closed(reason);
        HandlerAction::Close(reason)
    }

    fn listen(&mut self) -> (action: HandlerAction)
        ensures
            (final(self)@, action@) == listening(old(self)@),
    {
        if self.mode.is_encrypted() {
            self.phase = Phase::AwaitingNonce;
            HandlerAction::ReadExact(NONCE_LEN)
        } else {
            self.phase = Phase::AwaitingChunk;
            HandlerAction::ReadChunk(MAX_CHUNK)
        }
    }

    fn receive(&mut self, chunk: Vec<u8>) -> (action: HandlerAction)
        ensures
            (final(self)@, action@) == receiving(old(self)@, chunk@),
    {
        let frame = if self.mode.is_encrypted() {
            Frame::Sealed { nonce: self.nonce, ciphertext: chunk }
        } else {
            Frame::Raw(chunk)
        };
        assert(frame@ == frame_of(self@, chunk@));
        self.phase = Phase::Presenting;
        match decode(&frame, &self.mode) {
            Ok(payload) => HandlerAction::Show(split_line(payload.as_slice())),
            Err(e) => HandlerAction::Report(e),
        }
    }
}

/// One step of an accepted connection, with the challenge given. The
/// handshake lets a peer through exactly when its 32-byte response is the
/// digest of the password followed by the challenge; a wrong response of full
/// length ends the process, and every I/O failure ends only the connection.
/// After the handshake each chunk is decoded and shown, a chunk that does not
/// decode is dropped, and the end of the stream or a failed read closes the
/// connection.
pub fn handle_client_with_challenge(
    handler: &mut ClientHandler,
    event: PeerEvent,
    fresh: [u8; 32],
) -> (action: HandlerAction)
    ensures
        (final(handler)@, action@) == handler_next(old(handler)@, event@, fresh@),
{
    match handler.phase {
        Phase::Accepted => {
            if handler.mode.is_encrypted() {
                handler.challenge = fresh;
                handler.phase = Phase::SendingChallenge;
                HandlerAction::Write(crate::codec::copy_bytes(fresh.as_slice()))
            } else {
                handler.phase = Phase::Announcing;
                HandlerAction::Announce
            }
        },
        Phase::SendingChallenge => match event {
            PeerEvent::Done => {
                handler.phase = Phase::AwaitingResponse;
                HandlerAction::ReadExact(DIGEST_LEN)
            },
            _ => handler.close(CloseReason::ChallengeNotSent),
        },
        Phase::AwaitingResponse => match event {
            PeerEvent::Data(response) => {
                if response.len() != DIGEST_LEN {
                    handler.close(CloseReason::ResponseNotRead)
                } else if verify(
                    handler.password.as_slice(),
                    handler.challenge.as_slice(),
                    response.as_slice(),
                ) {
                    handler.phase = Phase::Announcing;
                    HandlerAction::Announce
                } else {
                    handler.phase = Phase::Rejected;
                    HandlerAction::Terminate
                }
            },
            _ => handler.close(CloseReason::ResponseNotRead),
        },
        Phase::Announcing => handler.listen(),
        Phase::Presenting => handler.listen(),
        Phase::AwaitingNonce => match event {
            PeerEvent::Data(bytes) => match nonce_from(bytes.as_slice()) {
                Some(nonce) => {
                    handler.nonce = nonce;
                    handler.phase = Phase::AwaitingChunk;
                    HandlerAction::ReadChunk(MAX_CHUNK)
                },
                None => handler.close(CloseReason::PeerDisconnected),
            },
            _ => handler.close(CloseReason::PeerDisconnected),
        },
        Phase::AwaitingChunk => match event {
            PeerEvent::Data(chunk) => {
                if chunk.len() == 0 {
                    handler.close(CloseReason::EndOfStream)
                } else {
                    handler.receive(chunk)
                }
            },
            _ => handler.close(CloseReason::ConnectionLost),
        },
        Phase::Closed(reason) => HandlerAction::Close(reason),
        Phase::Rejected => HandlerAction::Terminate,
    }
}

/// One step of an accepted connection. Where the step opens the handshake it
/// draws a challenge for this connection alone; everything else is as in
/// `handle_client_with_challenge`.
pub fn handle_client(handler: &mut ClientHandler, event: PeerEvent) -> (action: HandlerAction)
    ensures
        exists|fresh: Seq<u8>|
            fresh.len() == DIGEST_LEN && (final(handler)@, action@) == #[trigger] handler_next(
                old(handler)@,
                event@,
                fresh,
            ),
{
    let opens_handshake = match handler.phase {
        Phase::Accepted => handler.mode.is_encrypted(),
        _ => false,
    };
    let fresh = if opens_handshake {
        challenge()
    } else {
        [0u8; 32]
    };
    let ghost before = handler@;
    let ghost seen = event@;
    let action = handle_client_with_challenge(handler, event, fresh);
    assert((handler@, action@) == handler_next(before, seen, fresh@));
    action
}

/// How long the process lingers after a wrong response before it ends, in
/// milliseconds.
pub const MISMATCH_EXIT_DELAY_MS: u64 = 1000;

/// The status with which the process ends after a wrong response.
pub const MISMATCH_EXIT_STATUS: i32 = 1;

/// Why the listening socket could not be bound.
#[derive(Clone, Copy, Debug, PartialEq, Eq, Structural)]
pub enum BindFailure {
    /// The configured local port is no port number.
    InvalidPort,
    /// Anything else, such as a port in use.
    Other,
}

/// Why the responder loop ended. Each of these ends the process.
#[derive(Clone, Copy, Debug, PartialEq, Eq, Structural)]
pub enum StopReason {
    /// The listening socket could not be bound; binding is not tried again.
    BindFailed(BindFailure),
    /// A peer answered the challenge wrongly.
    AuthenticationMismatch,
}

/// What the caller reports to the responder loop.
#[derive(Debug, PartialEq, Eq)]
pub enum ServerEvent {
    /// The loop is to begin.
    Started,
    /// The listening socket is bound.
    Bound,
    /// The listening socket could not be bound.
    BindFailed(BindFailure),
    /// A connection was accepted.
    Accepted,
    /// Accepting a connection failed.
    AcceptFailed,
    /// Something happened on the connection being served.
    Peer(PeerEvent),
}

/// A responder event as a plain value.
pub enum ServerEventView {
    Started,
    Bound,
    BindFailed(BindFailure),
    Accepted,
    AcceptFailed,
    Peer(PeerEventView),
}

impl View for ServerEvent {
    type V = ServerEventView;

    open spec fn view(&self) -> ServerEventView {
        match self {
            ServerEvent::Started => ServerEventView::Started,
            ServerEvent::Bound => ServerEventView::Bound,
            ServerEvent::BindFailed(failure) => ServerEventView::BindFailed(*failure),
            ServerEvent::Accepted => ServerEventView::Accepted,
            ServerEvent::AcceptFailed => ServerEventView::AcceptFailed,
            ServerEvent::Peer(event) => ServerEventView::Peer(event@),
        }
    }
}

/// What the caller is to do next for the responder loop.
#[derive(Debug, PartialEq, Eq)]
pub enum ServerAction {
    /// Bind the one listening socket on the configured local port.
    Bind,
    /// Wait for the next inbound connection and accept it.
    Accept,
    /// Note that accepting failed; the loop goes on.
    ReportAcceptFailure,
    /// Carry this out on the connection being served.
    Peer(HandlerAction),
    /// Close the connection being served.
    Hangup(CloseReason),
    /// End the loop, and with it the process.
    Stop(StopReason),
}

/// A responder action as a plain value.
pub enum ServerActionView {
    Bind,
    Accept,
    ReportAcceptFailure,
    Peer(HandlerActionView),
    Hangup(CloseReason),
    Stop(StopReason),
}

impl View for ServerAction {
    type V = ServerActionView;

    open spec fn view(&self) -> ServerActionView {
        match self {
            ServerAction::Bind => ServerActionView::Bind,
            ServerAction::Accept => ServerActionView::Accept,
            ServerAction::ReportAcceptFailure => ServerActionView::ReportAcceptFailure,
            ServerAction::Peer(action) => ServerActionView::Peer(action@),
            ServerAction::Hangup(reason) => ServerActionView::Hangup(*reason),
            ServerAction::Stop(reason) => ServerActionView::Stop(*reason),
        }
    }
}

/// Where the responder loop stands.
#[derive(Clone, Copy, Debug, PartialEq, Eq, Structural)]
pub enum ServerPhase {
    /// Not begun.
    Idle,
    /// The listening socket is being bound.
    Binding,
    /// The next inbound connection is awaited.
    Accepting,
    /// A failed accept is being noted.
    Recovering,
    /// A connection is being served.
    Serving,
    /// The connection that was served is being closed.
    Closing,
    /// The loop has ended.
    Stopped(StopReason),
}

/// The state of the responder loop. `handler` is the connection being served
/// while the phase is `Serving`.
#[derive(Debug, PartialEq, Eq)]
pub struct ServerTask {
    pub password: Vec<u8>,
    pub phase: ServerPhase,
    pub handler: ClientHandler,
}

/// A responder loop as a plain value.
pub struct ServerView {
    pub password: Seq<u8>,
    pub phase: ServerPhase,
    pub handler: HandlerView,
}

impl View for ServerTask {
    type V = ServerView;

    open spec fn view(&self) -> ServerView {
        ServerView { password: self.password@, phase: self.phase, handler: self.handler@ }
    }
}

/// The loop ends for `reason`.
pub open spec fn stopping(t: ServerView, reason: StopReason) -> (ServerView, ServerActionView) {
    (ServerView { phase: ServerPhase::Stopped(reason), ..t }, ServerActionView::Stop(reason))
}

/// The connection being served has taken a step: its end closes it, a wrong
/// response ends the loop, and anything else is handed to the caller.
pub open spec fn serving(t: ServerView, step: (HandlerView, HandlerActionView)) -> (
    ServerView,
    ServerActionView,
) {
    let served = ServerView { handler: step.0, ..t };
    match step.1 {
        HandlerActionView::Close(reason) => (
            ServerView { phase: ServerPhase::Closing, ..served },
            ServerActionView::Hangup(reason),
        ),
        HandlerActionView::Terminate => stopping(served, StopReason::AuthenticationMismatch),
        action => (
            ServerView { phase: ServerPhase::Serving, ..served },
            ServerActionView::Peer(action),
        ),
    }
}

/// One step of the responder loop: the state after `event` and the action to
/// carry out next. `fresh` is the challenge to use should this step open a
/// handshake.
pub open spec fn server_next(t: ServerView, event: ServerEventView, fresh: Seq<u8>) -> (
    ServerView,
    ServerActionView,
) {
    match t.phase {
        ServerPhase::Idle => (
            ServerView { phase: ServerPhase::Binding, ..t },
            ServerActionView::Bind,
        ),
        ServerPhase::Binding => match event {
            ServerEventView::Bound => (
                ServerView { phase: ServerPhase::Accepting, ..t },
                ServerActionView::Accept,
            ),
            ServerEventView::BindFailed(failure) => stopping(t, StopReason::BindFailed(failure)),
            _ => stopping(t, StopReason::BindFailed(BindFailure::Other)),
        },
        ServerPhase::Accepting => match event {
            ServerEventView::Accepted => serving(
                t,
                handler_next(accepted(t.password), PeerEventView::Done, fresh),
            ),
            _ => (
                ServerView { phase: ServerPhase::Recovering, ..t },
                ServerActionView::ReportAcceptFailure,
            ),
        },
        ServerPhase::Recovering => (
            ServerView { phase: ServerPhase::Accepting, ..t },
            ServerActionView::Accept,
        ),
        ServerPhase::Serving => match event {
            ServerEventView::Peer(e) => serving(t, handler_next(t.handler, e, fresh)),
            _ => serving(t, handler_next(t.handler, PeerEventView::Failed, fresh)),
        },
        ServerPhase::Closing => (
            ServerView { phase: ServerPhase::Accepting, ..t },
            ServerActionView::Accept,
        ),
        ServerPhase::Stopped(reason) => (t, ServerActionView::Stop(reason)),
    }
}

impl ServerTask {
    /// A responder loop that has not begun. An empty password means that
    /// every session is unencrypted.
    pub fn new(password: &[u8]) -> (task: ServerTask)
        ensures
            task@.password == password@,
            task@.phase == ServerPhase::Idle,
            task@.handler == accepted(password@),
    {
        ServerTask {
            password: crate::codec::copy_bytes(password),
            phase: ServerPhase::Idle,
            handler: ClientHandler::new(password),
        }
    }

    /// Where the loop stands.
    pub fn phase(&self) -> (phase: ServerPhase)
        ensures
            phase == self@.phase,
    {
        self.phase
    }

    fn stop(&mut self, reason: StopReason) -> (action: ServerAction)
        ensures
            (final(self)@, action@) == stopping(old(self)@, reason),
    {
        self.phase = ServerPhase::Stopped(reason);
        ServerAction::Stop(reason)
    }

    fn serve(&mut self, event: PeerEvent, fresh: [u8; 32]) -> (action: ServerAction)
        ensures
            (final(self)@, action@) == serving(
                old(self)@,
                handler_next(old(self)@.handler, event@, fresh@),
            ),
    {
        match handle_client_with_challenge(&mut self.handler, event, fresh) {
            HandlerAction::Close(reason) => {
                self.phase = ServerPhase::Closing;
                ServerAction::Hangup(reason)
            },
            HandlerAction::Terminate => self.stop(StopReason::AuthenticationMismatch),
            action => {
                self.phase = ServerPhase::Serving;
                ServerAction::Peer(action)
            },
        }
    }
}

/// One step of the responder loop, with the challenge given. The socket is
/// bound once and a failure to bind ends the loop. A connection is accepted
/// only while none is being served: the one accepted is served until it
/// closes, and only then is the next accepted. A failed accept is noted and
/// the loop goes on. A wrong response to the challenge ends the loop.
pub fn run_server_task_with_challenge(
    task: &mut ServerTask,
    event: ServerEvent,
    fresh: [u8; 32],
) -> (action: ServerAction)
    ensures
        (final(task)@, action@) == server_next(old(task)@, event@, fresh@),
{
    match task.phase {
        ServerPhase::Idle => {
            task.phase = ServerPhase::Binding;
            ServerAction::Bind
        },
        ServerPhase::Binding => match event {
            ServerEvent::Bound => {
                task.phase = ServerPhase::Accepting;
                ServerAction::Accept
            },
            ServerEvent::BindFailed(failure) => task.stop(StopReason::BindFailed(failure)),
            _ => task.stop(StopReason::BindFailed(BindFailure::Other)),
        },
        ServerPhase::Accepting => match event {
            ServerEvent::Accepted => {
                task.handler = ClientHandler::new(task.password.as_slice());
                task.serve(PeerEvent::Done, fresh)
            },
            _ => {
                task.phase = ServerPhase::Recovering;
                ServerAction::ReportAcceptFailure
            },
        },
        ServerPhase::Recovering => {
            task.phase = ServerPhase::Accepting;
            ServerAction::Accept
        },
        ServerPhase::Serving => match event {
            ServerEvent::Peer(e) => task.serve(e, fresh),
            _ => task.serve(PeerEvent::Failed, fresh),
        },
        ServerPhase::Closing => {
            task.phase = ServerPhase::Accepting;
            ServerAction::Accept
        },
        ServerPhase::Stopped(reason) => ServerAction::Stop(reason),
    }
}

/// One step of the responder loop. Where the step accepts a connection it
/// draws the challenge for that connection alone; everything else is as in
/// `run_server_task_with_challenge`.
pub fn run_server_task(task: &mut ServerTask, event: ServerEvent) -> (action: ServerAction)
    ensures
        exists|fresh: Seq<u8>|
            fresh.len() == DIGEST_LEN && (final(task)@, action@) == #[trigger] server_next(
                old(task)@,
                event@,
                fresh,
            ),
{
    let opens_handshake = match (task.phase, &event) {
        (ServerPhase::Accepting, ServerEvent::Accepted) => task.password.len() > 0,
        _ => false,
    };
    let fresh = if opens_handshake {
        challenge()
    } else {
        [0u8; 32]
    };
    let ghost before = task@;
    let ghost seen = event@;
    let action = run_server_task_with_challenge(task, event, fresh);
    assert((task@, action@) == server_next(before, seen, fresh@));
    action
}

/// While a connection is being served no other is accepted: a step taken
/// while serving never asks for an accept, and it leaves the loop serving,
/// closing that connection, or stopped.
pub proof fn lemma_one_session_at_a_time(t: ServerView, event: ServerEventView, fresh: Seq<u8>)
    requires
        t.phase == ServerPhase::Serving,
    ensures
        !(server_next(t, event, fresh).1 is Accept),
        server_next(t, event, fresh).0.phase == ServerPhase::Serving || server_next(
            t,
            event,
            fresh,
        ).0.phase == ServerPhase::Closing || server_next(t, event, fresh).0.phase
            is Stopped,
{
}

/// An accept is asked for only when no connection is being served, and the
/// loop then waits for it.
pub proof fn lemma_accept_only_between_sessions(
    t: ServerView,
    event: ServerEventView,
    fresh: Seq<u8>,
)
    requires
        server_next(t, event, fresh).1 is Accept,
    ensures
        t.phase != ServerPhase::Serving,
        server_next(t, event, fresh).0.phase == ServerPhase::Accepting,
{
}

/// Binding is tried once: a failure to bind stops the loop, and a stopped
/// loop stays stopped whatever is reported to it.
pub proof fn lemma_stopped_is_final(t: ServerView, event: ServerEventView, fresh: Seq<u8>)
    requires
        t.phase is Stopped,
    ensures
        server_next(t, event, fresh).0 == t,
        server_next(t, event, fresh).1 == ServerActionView::Stop(t.phase->Stopped_0),
{
}

/// The password of the loop never changes, and every connection it serves
/// runs under that password.
pub proof fn lemma_server_keeps_secret(t: ServerView, event: ServerEventView, fresh: Seq<u8>)
    requires
        t.handler.password == t.password,
        t.handler.mode == mode_of(t.password),
    ensures
        server_next(t, event, fresh).0.password == t.password,
        server_next(t, event, fresh).0.handler.password == t.password,
        server_next(t, event, fresh).0.handler.mode == mode_of(t.password),
{
}

/// Password and mode of a connection never change, whatever happens on it.
pub proof fn lemma_handler_keeps_secret(h: HandlerView, event: PeerEventView, fresh: Seq<u8>)
    ensures
        handler_next(h, event, fresh).0.password == h.password,
        handler_next(h, event, fresh).0.mode == h.mode,
{
}

/// In an encrypted session the peer is announced only after a response that
/// the password and the challenge of this connection accept.
pub proof fn lemma_announced_only_when_accepted(
    h: HandlerView,
    event: PeerEventView,
    fresh: Seq<u8>,
)
    requires
        h.mode is Encrypted,
        handler_next(h, event, fresh).1 is Announce,
    ensures
        h.phase == Phase::AwaitingResponse,
        event is Data,
        accepts(h.password, h.challenge, event->Data_0),
{
}

/// A full-length response that the password does not accept ends the process
/// at once, and a rejected connection stays rejected: no event brings it to
/// the session.
pub proof fn lemma_wrong_response_is_fatal(
    h: HandlerView,
    response: Seq<u8>,
    event: PeerEventView,
    fresh: Seq<u8>,
)
    requires
        h.phase == Phase::AwaitingResponse,
        response.len() == DIGEST_LEN,
        !accepts(h.password, h.challenge, response),
    ensures
        handler_next(h, PeerEventView::Data(response), fresh).1 is Terminate,
        handler_next(h, PeerEventView::Data(response), fresh).0.phase == Phase::Rejected,
        handler_next(handler_next(h, PeerEventView::Data(response), fresh).0, event, fresh).1
            is Terminate,
        handler_next(handler_next(h, PeerEventView::Data(response), fresh).0, event, fresh).0.phase
            == Phase::Rejected,
{
}

/// A frame that does not decode never ends the session: the handler notes it
/// and goes on to read the next frame.
pub proof fn lemma_bad_frame_is_dropped(
    h: HandlerView,
    chunk: Seq<u8>,
    event: PeerEventView,
    fresh: Seq<u8>,
)
    requires
        h.phase == Phase::AwaitingChunk,
        chunk.len() > 0,
        decoded(frame_of(h, chunk), h.mode) is Err,
    ensures
        handler_next(h, PeerEventView::Data(chunk), fresh).1 is Report,
        handler_next(handler_next(h, PeerEventView::Data(chunk), fresh).0, event, fresh)
            == listening(handler_next(h, PeerEventView::Data(chunk), fresh).0),
{
}

} // verus!
