//! The initiator role: connecting with retry, the initiator's half of the
//! handshake, and the send side of the session with its input line.
//!
//! It is a step function. The caller carries out the action returned,
//! reports the outcome as the next event, and so on until the step says stop.

use crate::codec::encode_with_nonce;
use crate::codec::encoded;
use crate::codec::fresh_nonce;
use crate::codec::mode_of;
use crate::codec::wire_of;
use crate::codec::Mode;
use crate::codec::ModeView;
use crate::codec::NONCE_LEN;
use crate::digest::join;
use crate::digest::respond;
use crate::digest::response_of;
use crate::digest::DIGEST_LEN;
use vstd::prelude::*;
use vstd::string::*;
use vstd::utf8::encode_utf8;

verus! {

/// How long to wait after a failed connection attempt, in milliseconds.
pub const RETRY_DELAY_MS: u64 = 1000;

/// `String::push` appends one character.
pub assume_specification[ String::push ](s: &mut String, ch: char)
    ensures
        final(s)@ == old(s)@.push(ch),
;

/// `String::pop` removes the last character and returns it, or returns
/// `None` and changes nothing where the string is empty.
pub assume_specification[ String::pop ](s: &mut String) -> (ch: Option<char>)
    ensures
        old(s)@.len() == 0 ==> ch is None && final(s)@ == old(s)@,
        old(s)@.len() > 0 ==> ch == Some(old(s)@.last()) && final(s)@ == old(s)@.drop_last(),
;

/// Why a connection attempt failed.
#[derive(Clone, Copy, Debug, PartialEq, Eq, Structural)]
pub enum ConnectFailure {
    /// The configured peer port is no port number.
    InvalidPort,
    /// The configured peer address names no host.
    UnknownHost,
    /// Anything else, such as a peer that refuses or cannot be reached.
    Other,
}

/// A key press on the input line.
#[derive(Clone, Copy, Debug, PartialEq, Eq)]
pub enum Key {
    /// A character to append.
    Char(char),
    /// Backspace, with the cursor's position in its row where the terminal
    /// told it.
    Backspace { cursor: Option<u16> },
    /// The line is complete.
    Enter,
    /// The user cancels.
    Esc,
    /// Any other key.
    Other,
}

/// What the caller reports to the initiator.
#[derive(Debug, PartialEq, Eq)]
pub enum ClientEvent {
    /// The task is to begin.
    Started,
    /// The connection attempt succeeded.
    Connected,
    /// The connection attempt failed.
    ConnectFailed(ConnectFailure),
    /// A read gave these bytes.
    Data(Vec<u8>),
    /// The action is done and gave no data.
    Done,
    /// The action failed.
    Failed,
    /// A received line was shown since the input line was last drawn.
    OutputPending,
    /// A key was pressed.
    Key(Key),
    /// Nothing is waiting.
    Idle,
}

/// An initiator event as a plain value.
pub enum ClientEventView {
    Started,
    Connected,
    ConnectFailed(ConnectFailure),
    Data(Seq<u8>),
    Done,
    Failed,
    OutputPending,
    Key(Key),
    Idle,
}

impl View for ClientEvent {
    type V = ClientEventView;

    open spec fn view(&self) -> ClientEventView {
        match self {
            ClientEvent::Started => ClientEventView::Started,
            ClientEvent::Connected => ClientEventView::Connected,
            ClientEvent::ConnectFailed(failure) => ClientEventView::ConnectFailed(*failure),
            ClientEvent::Data(bytes) => ClientEventView::Data(bytes@),
            ClientEvent::Done => ClientEventView::Done,
            ClientEvent::Failed => ClientEventView::Failed,
            ClientEvent::OutputPending => ClientEventView::OutputPending,
            ClientEvent::Key(key) => ClientEventView::Key(*key),
            ClientEvent::Idle => ClientEventView::Idle,
        }
    }
}

/// Something to tell the user that does not end the session.
#[derive(Clone, Copy, Debug, PartialEq, Eq, Structural)]
pub enum Notice {
    /// The challenge did not arrive whole; the session begins all the same.
    ChallengeNotRead,
    /// The response could not be written; the session begins all the same.
    ResponseNotSent,
    /// The terminal did not tell where the cursor is.
    CursorUnknown,
    /// The line is too long to be sealed and was dropped.
    EncryptionFailed,
}

/// Why the initiator gave up for good.
#[derive(Clone, Copy, Debug, PartialEq, Eq, Structural)]
pub enum GiveUp {
    /// The configured peer port is no port number.
    InvalidPeerPort,
    /// The configured peer address names no host.
    UnknownHost,
}

/// What the caller is to do next for the initiator.
#[derive(Debug, PartialEq, Eq)]
pub enum ClientAction {
    /// Try to connect to the peer.
    Connect,
    /// Tell the user that the connection was lost, and try to connect.
    Reconnect,
    /// Tell the user that the attempt failed, and wait this many
    /// milliseconds.
    Sleep(u64),
    /// Read exactly this many bytes.
    ReadExact(usize),
    /// Write all of these bytes.
    Write(Vec<u8>),
    /// Look for a pending redraw, then for a key press, without blocking.
    Poll,
    /// Draw the input line again: it holds this text.
    Redraw(String),
    /// Show the character just typed.
    Echo(char),
    /// Wipe the character before the cursor.
    Erase,
    /// Begin a fresh input line and write all of these bytes.
    Send(Vec<u8>),
    /// Tell the user.
    Report(Notice),
    /// End the initiator loop.
    Stop(GiveUp),
    /// End the process at once.
    Quit,
}

/// An initiator action as a plain value.
pub enum ClientActionView {
    Connect,
    Reconnect,
    Sleep(u64),
    ReadExact(usize),
    Write(Seq<u8>),
    Poll,
    Redraw(Seq<char>),
    Echo(char),
    Erase,
    Send(Seq<u8>),
    Report(Notice),
    Stop(GiveUp),
    Quit,
}

impl View for ClientAction {
    type V = ClientActionView;

    open spec fn view(&self) -> ClientActionView {
        match self {
            ClientAction::Connect => ClientActionView::Connect,
            ClientAction::Reconnect => ClientActionView::Reconnect,
            ClientAction::Sleep(ms) => ClientActionView::Sleep(*ms),
            ClientAction::ReadExact(n) => ClientActionView::ReadExact(*n),
            ClientAction::Write(bytes) => ClientActionView::Write(bytes@),
            ClientAction::Poll => ClientActionView::Poll,
            ClientAction::Redraw(text) => ClientActionView::Redraw(text@),
            ClientAction::Echo(ch) => ClientActionView::Echo(*ch),
            ClientAction::Erase => ClientActionView::Erase,
            ClientAction::Send(bytes) => ClientActionView::Send(bytes@),
            ClientAction::Report(notice) => ClientActionView::Report(*notice),
            ClientAction::Stop(reason) => ClientActionView::Stop(*reason),
            ClientAction::Quit => ClientActionView::Quit,
        }
    }
}

/// Where the initiator stands.
#[derive(Clone, Copy, Debug, PartialEq, Eq, Structural)]
pub enum ClientPhase {
    /// Not begun.
    Idle,
    /// A connection attempt is under way.
    Connecting,
    /// The delay after a failed attempt is running.
    Waiting,
    /// The challenge is being read.
    AwaitingChallenge,
    /// The response is being written.
    SendingResponse,
    /// The session is up and the next input is awaited.
    Editing,
    /// Something is being shown to the user.
    Displaying,
    /// A frame is being written.
    Sending,
    /// The loop has ended.
    Stopped(GiveUp),
    /// The user has cancelled.
    Quit,
}

/// The state of the initiator. Password, mode and prompt are set at the
/// start and stay as they are; `buffer` is the input line.
#[derive(Debug, PartialEq, Eq)]
pub struct ClientTask {
    pub password: Vec<u8>,
    pub mode: Mode,
    pub prompt: String,
    pub buffer: String,
    pub phase: ClientPhase,
}

/// An initiator as a plain value.
pub struct ClientView {
    pub password: Seq<u8>,
    pub mode: ModeView,
    pub prompt: Seq<char>,
    pub buffer: Seq<char>,
    pub phase: ClientPhase,
}

impl View for ClientTask {
    type V = ClientView;

    open spec fn view(&self) -> ClientView {
        ClientView {
            password: self.password@,
            mode: self.mode@,
            prompt: self.prompt@,
            buffer: self.buffer@,
            phase: self.phase,
        }
    }
}

/// The payload of a chat line: the bytes of the prompt, then those of the
/// text.
pub open spec fn payload_of(prompt: Seq<char>, text: Seq<char>) -> Seq<u8> {
    encode_utf8(prompt) + encode_utf8(text)
}

/// The leftmost cursor position at which backspace still wipes a character:
/// one past the prompt, counted in bytes, as a 16-bit screen position.
pub open spec fn erase_limit(prompt: Seq<char>) -> int {
    (encode_utf8(prompt).len() as int + 1) % 0x1_0000
}

/// The session begins with an empty input line.
pub open spec fn entering(t: ClientView) -> (ClientView, ClientActionView) {
    (
        ClientView { buffer: Seq::empty(), phase: ClientPhase::Editing, ..t },
        ClientActionView::Poll,
    )
}

/// The session begins with an empty input line, after telling the user what
/// went wrong in the handshake.
pub open spec fn entering_with(t: ClientView, notice: Notice) -> (ClientView, ClientActionView) {
    (
        ClientView { buffer: Seq::empty(), phase: ClientPhase::Displaying, ..t },
        ClientActionView::Report(notice),
    )
}

/// The next input is awaited.
pub open spec fn polling(t: ClientView) -> (ClientView, ClientActionView) {
    (ClientView { phase: ClientPhase::Editing, ..t }, ClientActionView::Poll)
}

/// Something is shown to the user before the next input is awaited.
pub open spec fn showing(t: ClientView, action: ClientActionView) -> (
    ClientView,
    ClientActionView,
) {
    (ClientView { phase: ClientPhase::Displaying, ..t }, action)
}

/// The input line is complete. An empty line is ignored. Any other is framed
/// behind the prompt and sent, and the input line starts afresh; a line that
/// cannot be framed is dropped.
pub open spec fn submitting(t: ClientView, nonce: Seq<u8>) -> (ClientView, ClientActionView) {
    if t.buffer.len() == 0 {
        polling(t)
    } else {
        let cleared = ClientView { buffer: Seq::empty(), ..t };
        match encoded(payload_of(t.prompt, t.buffer), t.mode, nonce) {
            Ok(frame) => (
                ClientView { phase: ClientPhase::Sending, ..cleared },
                ClientActionView::Send(wire_of(frame)),
            ),
            Err(_) => showing(cleared, ClientActionView::Report(Notice::EncryptionFailed)),
        }
    }
}

/// A key was pressed while the session is up.
pub open spec fn typing(t: ClientView, key: Key, nonce: Seq<u8>) -> (ClientView, ClientActionView) {
    match key {
        Key::Char(ch) => showing(
            ClientView { buffer: t.buffer.push(ch), ..t },
            ClientActionView::Echo(ch),
        ),
        Key::Backspace { cursor: Some(at) } => if at >= erase_limit(t.prompt) {
            showing(
                ClientView {
                    buffer: if t.buffer.len() > 0 {
                        t.buffer.drop_last()
                    } else {
                        t.buffer
                    },
                    ..t
                },
                ClientActionView::Erase,
            )
        } else {
            polling(t)
        },
        Key::Backspace { cursor: None } => showing(
            t,
            ClientActionView::Report(Notice::CursorUnknown),
        ),
        Key::Enter => submitting(t, nonce),
        Key::Esc => (ClientView { phase: ClientPhase::Quit, ..t }, ClientActionView::Quit),
        Key::Other => polling(t),
    }
}

/// One step of the initiator: the state after `event` and the action to
/// carry out next. `nonce` is the nonce to use should this step seal a line.
pub open spec fn client_next(t: ClientView, event: ClientEventView, nonce: Seq<u8>) -> (
    ClientView,
    ClientActionView,
) {
    match t.phase {
        ClientPhase::Idle => (
            ClientView { phase: ClientPhase::Connecting, ..t },
            ClientActionView::Connect,
        ),
        ClientPhase::Connecting => match event {
            ClientEventView::Connected => if t.mode is Encrypted {
                (
                    ClientView { phase: ClientPhase::AwaitingChallenge, ..t },
                    ClientActionView::ReadExact(DIGEST_LEN),
                )
            } else {
                entering(t)
            },
            ClientEventView::ConnectFailed(ConnectFailure::InvalidPort) => (
                ClientView { phase: ClientPhase::Stopped(GiveUp::InvalidPeerPort), ..t },
                ClientActionView::Stop(GiveUp::InvalidPeerPort),
            ),
            ClientEventView::ConnectFailed(ConnectFailure::UnknownHost) => (
                ClientView { phase: ClientPhase::Stopped(GiveUp::UnknownHost), ..t },
                ClientActionView::Stop(GiveUp::UnknownHost),
            ),
            _ => (
                ClientView { phase: ClientPhase::Waiting, ..t },
                ClientActionView::Sleep(RETRY_DELAY_MS),
            ),
        },
        ClientPhase::Waiting => (
            ClientView { phase: ClientPhase::Connecting, ..t },
            ClientActionView::Connect,
        ),
        ClientPhase::AwaitingChallenge => match event {
            ClientEventView::Data(challenge) => if challenge.len() == DIGEST_LEN {
                (
                    ClientView { phase: ClientPhase::SendingResponse, ..t },
                    ClientActionView::Write(response_of(t.password, challenge)),
                )
            } else {
                entering_with(t, Notice::ChallengeNotRead)
            },
            _ => entering_with(t, Notice::ChallengeNotRead),
        },
        ClientPhase::SendingResponse => match event {
            ClientEventView::Done => entering(t),
            _ => entering_with(t, Notice::ResponseNotSent),
        },
        ClientPhase::Editing => match event {
            ClientEventView::OutputPending => showing(t, ClientActionView::Redraw(t.buffer)),
            ClientEventView::Key(key) => typing(t, key, nonce),
            _ => polling(t),
        },
        ClientPhase::Displaying => polling(t),
        ClientPhase::Sending => match event {
            ClientEventView::Done => polling(t),
            _ => (
                ClientView { phase: ClientPhase::Connecting, ..t },
                ClientActionView::Reconnect,
            ),
        },
        ClientPhase::Stopped(reason) => (t, ClientActionView::Stop(reason)),
        ClientPhase::Quit => (t, ClientActionView::Quit),
    }
}

impl ClientTask {
    /// An initiator that has not begun. An empty password means that every
    /// session is unencrypted.
    pub fn new(password: &[u8], prompt: &str) -> (task: ClientTask)
        ensures
            task@ == (ClientView {
                password: password@,
                mode: mode_of(password@),
                prompt: prompt@,
                buffer: Seq::empty(),
                phase: ClientPhase::Idle,
            }),
    {
        ClientTask {
            password: crate::codec::copy_bytes(password),
            mode: Mode::from_password(password),
            prompt: String::from_str(prompt),
            buffer: String::new(),
            phase: ClientPhase::Idle,
        }
    }

    /// Where the initiator stands.
    pub fn phase(&self) -> (phase: ClientPhase)
        ensures
            phase == self@.phase,
    {
        self.phase
    }

    /// The text of the input line.
    pub fn buffer(&self) -> (text: &str)
        ensures
            text@ == self@.buffer,
    {
        self.buffer.as_str()
    }

    fn enter(&mut self) -> (action: ClientAction)
        ensures
            (final(self)@, action@) == entering(old(self)@),
    {
        self.buffer = String::new();
        self.phase = ClientPhase::Editing;
        ClientAction::Poll
    }

    fn enter_with(&mut self, notice: Notice) -> (action: ClientAction)
        ensures
            (final(self)@, action@) == entering_with(old(self)@, notice),
    {
        self.buffer = String::new();
        self.phase = ClientPhase::Displaying;
        ClientAction::Report(notice)
    }

    fn poll(&mut self) -> (action: ClientAction)
        ensures
            (final(self)@, action@) == polling(old(self)@),
    {
        self.phase = ClientPhase::Editing;
        ClientAction::Poll
    }

    fn show(&mut self, action: ClientAction) -> (shown: ClientAction)
        ensures
            (final(self)@, shown@) == showing(old(self)@, action@),
    {
        self.phase = ClientPhase::Displaying;
        action
    }

    fn erase_from(&self, at: u16) -> (wipes: bool)
        ensures
            wipes == (at >= erase_limit(self@.prompt)),
    {
        let len = self.prompt.as_str().as_bytes().len();
        let limit = (len % 0x1_0000 + 1) % 0x1_0000;
        assert(limit == (len + 1) % 0x1_0000);
        at as usize >= limit
    }

    fn submit(&mut self, nonce: &[u8; 12]) -> (action: ClientAction)
        ensures
            (final(self)@, action@) == submitting(old(self)@, nonce@),
    {
        if self.buffer.as_str().is_empty() {
            return self.poll();
        }
        let payload = join(self.prompt.as_str().as_bytes(), self.buffer.as_str().as_bytes());
        let framed = encode_with_nonce(payload.as_slice(), &self.mode, nonce);
        self.buffer = String::new();
        match framed {
            Ok(frame) => {
                self.phase = ClientPhase::Sending;
                ClientAction::Send(frame.to_wire())
            },
            Err(_) => self.show(ClientAction::Report(Notice::EncryptionFailed)),
        }
    }

    fn type_key(&mut self, key: Key, nonce: &[u8; 12]) -> (action: ClientAction)
        ensures
            (final(self)@, action@) == typing(old(self)@, key, nonce@),
    {
        match key {
            Key::Char(ch) => {
                self.buffer.push(ch);
                self.show(ClientAction::Echo(ch))
            },
            Key::Backspace { cursor: Some(at) } => {
                if self.erase_from(at) {
                    let _ = self.buffer.pop();
                    self.show(ClientAction::Erase)
                } else {
                    self.poll()
                }
            },
            Key::Backspace { cursor: None } => self.show(
                ClientAction::Report(Notice::CursorUnknown),
            ),
            Key::Enter => self.submit(nonce),
            Key::Esc => {
                self.phase = ClientPhase::Quit;
                ClientAction::Quit
            },
            Key::Other => self.poll(),
        }
    }
}

/// One step of the initiator, with the nonce given. A failed attempt to
/// connect is answered by a delay of one second and then one new attempt,
/// without end; only a bad port or an unknown host ends the loop. Once
/// connected, an encrypted session answers the challenge and begins whatever
/// comes of that. In the session, keys edit the input line, Enter frames and
/// sends it behind the prompt, a failed write leads back to connecting, and
/// Esc ends the process.
pub fn run_client_task_with_nonce(task: &mut ClientTask, event: ClientEvent, nonce: [u8; 12]) -> (
    action: ClientAction
)
    ensures
        (final(task)@, action@) == client_next(old(task)@, event@, nonce@),
{
    match task.phase {
        ClientPhase::Idle => {
            task.phase = ClientPhase::Connecting;
            ClientAction::Connect
        },
        ClientPhase::Connecting => match event {
            ClientEvent::Connected => {
                if task.mode.is_encrypted() {
                    task.phase = ClientPhase::AwaitingChallenge;
                    ClientAction::ReadExact(DIGEST_LEN)
                } else {
                    task.enter()
                }
            },
            ClientEvent::ConnectFailed(ConnectFailure::InvalidPort) => {
                task.phase = ClientPhase::Stopped(GiveUp::InvalidPeerPort);
                ClientAction::Stop(GiveUp::InvalidPeerPort)
            },
            ClientEvent::ConnectFailed(ConnectFailure::UnknownHost) => {
                task.phase = ClientPhase::Stopped(GiveUp::UnknownHost);
                ClientAction::Stop(GiveUp::UnknownHost)
            },
            _ => {
                task.phase = ClientPhase::Waiting;
                ClientAction::Sleep(RETRY_DELAY_MS)
            },
        },
        ClientPhase::Waiting => {
            task.phase = ClientPhase::Connecting;
            ClientAction::Connect
        },
        ClientPhase::AwaitingChallenge => match event {
            ClientEvent::Data(challenge) => {
                if challenge.len() == DIGEST_LEN {
                    let response = respond(task.password.as_slice(), challenge.as_slice());
                    task.phase = ClientPhase::SendingResponse;
                    ClientAction::Write(crate::codec::copy_bytes(response.as_slice()))
                } else {
                    task.enter_with(Notice::ChallengeNotRead)
                }
            },
            _ => task.enter_with(Notice::ChallengeNotRead),
        },
        ClientPhase::SendingResponse => match event {
            ClientEvent::Done => task.enter(),
            _ => task.enter_with(Notice::ResponseNotSent),
        },
        ClientPhase::Editing => match event {
            ClientEvent::OutputPending => {
                let text = task.buffer.clone();
                task.show(ClientAction::Redraw(text))
            },
            ClientEvent::Key(key) => task.type_key(key, &nonce),
            _ => task.poll(),
        },
        ClientPhase::Displaying => task.poll(),
        ClientPhase::Sending => match event {
            ClientEvent::Done => task.poll(),
            _ => {
                task.phase = ClientPhase::Connecting;
                ClientAction::Reconnect
            },
        },
        ClientPhase::Stopped(reason) => ClientAction::Stop(reason),
        ClientPhase::Quit => ClientAction::Quit,
    }
}

/// One step of the initiator. Where the step seals a line it draws a nonce
/// for that line alone; everything else is as in
/// `run_client_task_with_nonce`.
pub fn run_client_task(task: &mut ClientTask, event: ClientEvent) -> (action: ClientAction)
    ensures
        exists|nonce: Seq<u8>|
            nonce.len() == NONCE_LEN && (final(task)@, action@) == #[trigger] client_next(
                old(task)@,
                event@,
                nonce,
            ),
{
    let seals = match (task.phase, &event) {
        (ClientPhase::Editing, ClientEvent::Key(Key::Enter)) => task.mode.is_encrypted(),
        _ => false,
    };
    let nonce = if seals {
        fresh_nonce()
    } else {
        [0u8; 12]
    };
    let ghost before = task@;
    let ghost seen = event@;
    let action = run_client_task_with_nonce(task, event, nonce);
    assert((task@, action@) == client_next(before, seen, nonce@));
    action
}

/// After a failed attempt that is neither a bad port nor an unknown host the
/// initiator waits the full delay before anything else, and what follows the
/// delay is exactly one new attempt.
pub proof fn lemma_retry_after_delay(
    t: ClientView,
    event: ClientEventView,
    after: ClientEventView,
    nonce: Seq<u8>,
)
    requires
        t.phase == ClientPhase::Connecting,
        event == ClientEventView::ConnectFailed(ConnectFailure::Other),
    ensures
        client_next(t, event, nonce).1 == ClientActionView::Sleep(RETRY_DELAY_MS),
        client_next(t, event, nonce).0.phase == ClientPhase::Waiting,
        client_next(client_next(t, event, nonce).0, after, nonce).1 == ClientActionView::Connect,
        client_next(client_next(t, event, nonce).0, after, nonce).0.phase
            == ClientPhase::Connecting,
{
}

/// A new attempt to connect is made only at the start, after the delay that
/// follows a failed attempt, or after a write failed in the session.
pub proof fn lemma_connect_has_a_cause(t: ClientView, event: ClientEventView, nonce: Seq<u8>)
    requires
        client_next(t, event, nonce).1 is Connect || client_next(t, event, nonce).1 is Reconnect,
    ensures
        t.phase == ClientPhase::Idle || t.phase == ClientPhase::Waiting || t.phase
            == ClientPhase::Sending,
        client_next(t, event, nonce).0.phase == ClientPhase::Connecting,
{
}

/// A bad port or an unknown host ends the loop for good: no attempt follows.
pub proof fn lemma_bad_address_is_final(
    t: ClientView,
    failure: ConnectFailure,
    after: ClientEventView,
    nonce: Seq<u8>,
)
    requires
        t.phase == ClientPhase::Connecting,
        failure != ConnectFailure::Other,
    ensures
        client_next(t, ClientEventView::ConnectFailed(failure), nonce).1 is Stop,
        client_next(
            client_next(t, ClientEventView::ConnectFailed(failure), nonce).0,
            after,
            nonce,
        ) == client_next(t, ClientEventView::ConnectFailed(failure), nonce),
{
}

/// Password, mode and prompt of the initiator never change.
pub proof fn lemma_client_keeps_secret(t: ClientView, event: ClientEventView, nonce: Seq<u8>)
    ensures
        client_next(t, event, nonce).0.password == t.password,
        client_next(t, event, nonce).0.mode == t.mode,
        client_next(t, event, nonce).0.prompt == t.prompt,
{
}

} // verus!
