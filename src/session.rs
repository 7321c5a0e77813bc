//! One client session as a state machine. The caller performs each action
//! (wait for bytes, take the store lock, read or write the IP file, answer)
//! and feeds back what came of it; the session decides what happens next.
//!
//! Both transports share it: a raw socket session reads a credential line
//! and registers the peer's address; an HTTP session has its credential from
//! the request body and the client's address from a forwarding header.

use vstd::prelude::*;
use vstd::utf8::{decode_utf8, encode_utf8, valid_utf8};

use crate::store::{ip_changed, recorded_ip, stored_ip};
use crate::text::{debug_quote, shown, trim, trimmed};

verus! {

/// How long a raw socket client has, from accept, to send its credential line.
pub const AUTH_TIMEOUT_MS: u64 = 5000;

/// How long an HTTP client with a wrong credential waits for its refusal.
pub const DENY_DELAY_MS: u64 = 5000;

pub const STATUS_OK: u16 = 200;

pub const STATUS_FORBIDDEN: u16 = 403;

pub const STATUS_PRECONDITION_FAILED: u16 = 412;

pub const STATUS_SERVER_ERROR: u16 = 500;

/// The header that carries the client's address behind the reverse proxy.
pub const FORWARDED_HEADER: &'static str = "x-forwarded-for";

pub open spec fn denied_message() -> Seq<char> {
    "No entrance with that password"@
}

pub open spec fn header_missing_message() -> Seq<char> {
    "x-forwarded-for is not set"@
}

pub open spec fn header_unreadable_message() -> Seq<char> {
    "\"x-forwarded-for\" is set, but can't be parsed to str"@
}

pub open spec fn read_failed_message() -> Seq<char> {
    "Can't read existing IP"@
}

pub open spec fn no_change_message(ip: Seq<char>) -> Seq<char> {
    "No change in IP: "@ + shown(ip)
}

pub open spec fn written_message(ip: Seq<char>) -> Seq<char> {
    "New IP "@ + shown(ip) + " written"@
}

pub open spec fn write_failed_message(ip: Seq<char>) -> Seq<char> {
    "Can't write new IP "@ + shown(ip) + " to file"@
}

/// Where the client's address comes from: the peer address of a socket, or
/// the forwarding header of an HTTP request.
pub enum Forwarded {
    Missing,
    Unreadable,
    Value(String),
}

pub enum ForwardedView {
    Missing,
    Unreadable,
    Value(Seq<char>),
}

impl View for Forwarded {
    type V = ForwardedView;

    open spec fn view(&self) -> ForwardedView {
        match self {
            Forwarded::Missing => ForwardedView::Missing,
            Forwarded::Unreadable => ForwardedView::Unreadable,
            Forwarded::Value(s) => ForwardedView::Value(s@),
        }
    }
}

/// A status and a human-readable line. A raw socket session sends the line
/// alone.
pub struct Reply {
    pub status: u16,
    pub message: String,
}

pub struct ReplyView {
    pub status: u16,
    pub message: Seq<char>,
}

impl View for Reply {
    type V = ReplyView;

    open spec fn view(&self) -> ReplyView {
        ReplyView { status: self.status, message: self.message@ }
    }
}

/// Where a session stands.
#[derive(Clone, Copy, PartialEq, Eq, Structural, Debug)]
pub enum Phase {
    /// Created, not begun.
    Start,
    /// Waiting for the raw socket client's credential line.
    AwaitLine,
    /// Authenticated, waiting for the store lock.
    AwaitLock,
    /// Holding the lock, waiting for the IP file's content.
    AwaitRead,
    /// The read failed; waiting to learn whether the file exists.
    AwaitExists,
    /// The file is gone; waiting for it to be created again.
    AwaitRecreate,
    /// Waiting for the new IP to be written.
    AwaitWrite,
    /// Over: every further event is refused.
    Closed,
}

/// What the caller reports back.
pub enum Event {
    /// Begin the session.
    Start,
    /// Bytes arrived, `elapsed_ms` after accept.
    Received { data: Vec<u8>, elapsed_ms: u64 },
    /// The wait ended without bytes, `elapsed_ms` after accept.
    Quiet { elapsed_ms: u64 },
    /// The peer closed the connection, or reading from it failed.
    Hangup,
    /// The store lock is held.
    Locked,
    /// The IP file's content, or `None` when it could not be read.
    ReadDone(Option<String>),
    /// Whether the IP file exists, or `None` when that could not be learned.
    Exists(Option<bool>),
    /// Whether the IP file was created again.
    Recreated(bool),
    /// Whether the new IP was written.
    Written(bool),
}

pub enum EventView {
    Start,
    Received { data: Seq<u8>, elapsed_ms: u64 },
    Quiet { elapsed_ms: u64 },
    Hangup,
    Locked,
    ReadDone(Option<Seq<char>>),
    Exists(Option<bool>),
    Recreated(bool),
    Written(bool),
}

impl View for Event {
    type V = EventView;

    open spec fn view(&self) -> EventView {
        match self {
            Event::Start => EventView::Start,
            Event::Received { data, elapsed_ms } => EventView::Received {
                data: data@,
                elapsed_ms: *elapsed_ms,
            },
            Event::Quiet { elapsed_ms } => EventView::Quiet { elapsed_ms: *elapsed_ms },
            Event::Hangup => EventView::Hangup,
            Event::Locked => EventView::Locked,
            Event::ReadDone(c) => EventView::ReadDone(
                match c {
                    Some(s) => Some(s@),
                    None => None,
                },
            ),
            Event::Exists(e) => EventView::Exists(*e),
            Event::Recreated(b) => EventView::Recreated(*b),
            Event::Written(b) => EventView::Written(*b),
        }
    }
}

/// What the caller is to do next.
pub enum Action {
    /// Wait for bytes from the client, at most `within_ms`.
    Receive { within_ms: u64 },
    /// Take the store lock.
    Acquire,
    /// Read the IP file.
    ReadStore,
    /// Learn whether the IP file exists.
    CheckExists,
    /// Create the IP file (and its directory) again.
    Recreate,
    /// Replace the IP file's content with this IP.
    WriteStore(String),
    /// End the session: release the store lock, wait `delay_ms`, send
    /// `reply` if there is one and close; then, detached, propagate `post`
    /// if there is one.
    Finish { delay_ms: u64, reply: Option<Reply>, post: Option<String> },
}

pub enum ActionView {
    Receive { within_ms: u64 },
    Acquire,
    ReadStore,
    CheckExists,
    Recreate,
    WriteStore(Seq<char>),
    Finish { delay_ms: u64, reply: Option<ReplyView>, post: Option<Seq<char>> },
}

impl View for Action {
    type V = ActionView;

    open spec fn view(&self) -> ActionView {
        match self {
            Action::Receive { within_ms } => ActionView::Receive { within_ms: *within_ms },
            Action::Acquire => ActionView::Acquire,
            Action::ReadStore => ActionView::ReadStore,
            Action::CheckExists => ActionView::CheckExists,
            Action::Recreate => ActionView::Recreate,
            Action::WriteStore(ip) => ActionView::WriteStore(ip@),
            Action::Finish { delay_ms, reply, post } => ActionView::Finish {
                delay_ms: *delay_ms,
                reply: match reply {
                    Some(r) => Some(r@),
                    None => None,
                },
                post: match post {
                    Some(p) => Some(p@),
                    None => None,
                },
            },
        }
    }
}

/// The state of a session.
pub struct SessionView {
    /// The configured secret.
    pub secret: Seq<char>,
    /// A raw socket session (else HTTP).
    pub raw: bool,
    /// The credential presented (a raw session's, once its line is read).
    pub credential: Seq<char>,
    /// The client's address.
    pub client: ForwardedView,
    /// Bytes received so far (raw sessions).
    pub buf: Seq<u8>,
    /// Whether the IP file was already created again once.
    pub healed: bool,
    pub phase: Phase,
}

/// `k` is where the first line of `b` ends.
pub open spec fn is_line_end(b: Seq<u8>, k: int) -> bool {
    0 <= k < b.len() && b[k] == 10 && forall|j: int| 0 <= j < k ==> b[j] != 10
}

/// The first `\n`-terminated line of `b`, without its terminator.
pub open spec fn first_line(b: Seq<u8>) -> Option<Seq<u8>> {
    if exists|k: int| is_line_end(b, k) {
        Some(b.take(choose|k: int| is_line_end(b, k)))
    } else {
        None
    }
}

/// The credential that a line presents: its text, trimmed; none if it is not
/// UTF-8.
pub open spec fn line_credential(line: Seq<u8>) -> Option<Seq<char>> {
    if valid_utf8(line) {
        Some(trimmed(decode_utf8(line)))
    } else {
        None
    }
}

pub open spec fn finish(
    s: SessionView,
    delay_ms: u64,
    reply: Option<ReplyView>,
    post: Option<Seq<char>>,
) -> (SessionView, ActionView) {
    (SessionView { phase: Phase::Closed, ..s }, ActionView::Finish { delay_ms, reply, post })
}

/// The session ends with no answer.
pub open spec fn drop_session(s: SessionView) -> (SessionView, ActionView) {
    finish(s, 0, None, None)
}

pub open spec fn answer(s: SessionView, status: u16, message: Seq<char>) -> (
    SessionView,
    ActionView,
) {
    finish(s, 0, Some(ReplyView { status, message }), None)
}

pub open spec fn goto(s: SessionView, phase: Phase, a: ActionView) -> (SessionView, ActionView) {
    (SessionView { phase, ..s }, a)
}

/// Beginning: an HTTP session checks the credential, then the header; a raw
/// session needs the peer's address, then waits for the credential line.
pub open spec fn on_start(s: SessionView) -> (SessionView, ActionView) {
    if s.raw {
        match s.client {
            ForwardedView::Value(_) => goto(
                s,
                Phase::AwaitLine,
                ActionView::Receive { within_ms: AUTH_TIMEOUT_MS },
            ),
            _ => drop_session(s),
        }
    } else if s.credential != s.secret {
        finish(
            s,
            DENY_DELAY_MS,
            Some(ReplyView { status: STATUS_FORBIDDEN, message: denied_message() }),
            None,
        )
    } else {
        match s.client {
            ForwardedView::Missing => answer(
                s,
                STATUS_PRECONDITION_FAILED,
                header_missing_message(),
            ),
            ForwardedView::Unreadable => answer(
                s,
                STATUS_PRECONDITION_FAILED,
                header_unreadable_message(),
            ),
            ForwardedView::Value(_) => goto(s, Phase::AwaitLock, ActionView::Acquire),
        }
    }
}

/// Bytes arrived on a raw session, `elapsed_ms` after accept (and before the
/// deadline).
pub open spec fn on_bytes(s: SessionView, data: Seq<u8>, elapsed_ms: u64) -> (
    SessionView,
    ActionView,
) {
    let b = s.buf + data;
    let t = SessionView { buf: b, ..s };
    match first_line(b) {
        None => (t, ActionView::Receive { within_ms: (AUTH_TIMEOUT_MS - elapsed_ms) as u64 }),
        Some(line) => match line_credential(line) {
            Some(c) => if c == s.secret {
                goto(SessionView { credential: c, ..t }, Phase::AwaitLock, ActionView::Acquire)
            } else {
                drop_session(t)
            },
            None => drop_session(t),
        },
    }
}

/// The IP file held `content`.
pub open spec fn on_content(s: SessionView, content: Seq<char>) -> (SessionView, ActionView) {
    match s.client {
        ForwardedView::Value(ip) => if ip_changed(content, ip) {
            goto(s, Phase::AwaitWrite, ActionView::WriteStore(ip))
        } else {
            answer(s, STATUS_OK, no_change_message(recorded_ip(content)))
        },
        _ => drop_session(s),
    }
}

pub open spec fn read_failed(s: SessionView) -> (SessionView, ActionView) {
    answer(s, STATUS_SERVER_ERROR, read_failed_message())
}

/// The outcome of writing the client's IP.
pub open spec fn on_written(s: SessionView, ok: bool) -> (SessionView, ActionView) {
    match s.client {
        ForwardedView::Value(ip) => if ok {
            finish(
                s,
                0,
                Some(ReplyView { status: STATUS_OK, message: written_message(ip) }),
                Some(ip),
            )
        } else {
            answer(s, STATUS_SERVER_ERROR, write_failed_message(ip))
        },
        _ => drop_session(s),
    }
}

/// `s` as the replies show it.
fn show(s: &str) -> (r: String)
    ensures
        r@ == shown(s@),
{
    debug_quote(s)
}

/// The session's step: from its state and an event to its next state and
/// the action to perform. An event that the phase does not expect ends the
/// session with no answer.
pub open spec fn next(s: SessionView, e: EventView) -> (SessionView, ActionView) {
    match s.phase {
        Phase::Start => match e {
            EventView::Start => on_start(s),
            _ => drop_session(s),
        },
        Phase::AwaitLine => match e {
            EventView::Received { data, elapsed_ms } => if elapsed_ms >= AUTH_TIMEOUT_MS {
                drop_session(s)
            } else {
                on_bytes(s, data, elapsed_ms)
            },
            EventView::Quiet { elapsed_ms } => if elapsed_ms >= AUTH_TIMEOUT_MS {
                drop_session(s)
            } else {
                (s, ActionView::Receive { within_ms: (AUTH_TIMEOUT_MS - elapsed_ms) as u64 })
            },
            _ => drop_session(s),
        },
        Phase::AwaitLock => match e {
            EventView::Locked => goto(s, Phase::AwaitRead, ActionView::ReadStore),
            _ => drop_session(s),
        },
        Phase::AwaitRead => match e {
            EventView::ReadDone(Some(content)) => on_content(s, content),
            EventView::ReadDone(None) => goto(s, Phase::AwaitExists, ActionView::CheckExists),
            _ => drop_session(s),
        },
        Phase::AwaitExists => match e {
            EventView::Exists(Some(false)) => if s.healed {
                read_failed(s)
            } else {
                goto(SessionView { healed: true, ..s }, Phase::AwaitRecreate, ActionView::Recreate)
            },
            EventView::Exists(_) => read_failed(s),
            _ => drop_session(s),
        },
        Phase::AwaitRecreate => match e {
            EventView::Recreated(true) => goto(s, Phase::AwaitRead, ActionView::ReadStore),
            EventView::Recreated(false) => read_failed(s),
            _ => drop_session(s),
        },
        Phase::AwaitWrite => match e {
            EventView::Written(ok) => on_written(s, ok),
            _ => drop_session(s),
        },
        Phase::Closed => drop_session(s),
    }
}

/// Relies on `std::str::from_utf8`: it accepts exactly the well-formed UTF-8
/// byte strings, and the text it returns is made of those same bytes.
#[verifier::external_body]
fn utf8_text(bytes: &[u8]) -> (r: Option<&str>)
    ensures
        r is Some <==> valid_utf8(bytes@),
        r matches Some(t) ==> encode_utf8(t@) == bytes@,
{
    std::str::from_utf8(bytes).ok()
}

/// Where the first line of `b` ends, if a `\n` was received.
pub fn find_line_end(b: &Vec<u8>) -> (r: Option<usize>)
    ensures
        r matches Some(k) ==> is_line_end(b@, k as int),
        r is None ==> forall|k: int| !is_line_end(b@, k),
{
    let mut i: usize = 0;
    while i < b.len()
        invariant
            i <= b@.len(),
            forall|j: int| 0 <= j < i ==> b@[j] != 10,
        decreases b@.len() - i,
    {
        if b[i] == 10 {
            return Some(i);
        }
        i = i + 1;
    }
    None
}

/// The text of the first line of `b`, trimmed, where the line ends at `k`.
fn credential_of(b: &Vec<u8>, k: usize) -> (r: Option<String>)
    requires
        is_line_end(b@, k as int),
    ensures
        first_line(b@) == Some(b@.take(k as int)),
        match r {
            Some(c) => line_credential(b@.take(k as int)) == Some(c@),
            None => line_credential(b@.take(k as int)) is None,
        },
{
    proof {
        let j = choose|j: int| is_line_end(b@, j);
        if j < k {
            assert(b@[j] != 10);
        }
        if k < j {
            assert(b@[k as int] != 10);
        }
    }
    let mut line: Vec<u8> = Vec::new();
    let mut i: usize = 0;
    while i < k
        invariant
            k < b@.len(),
            i <= k,
            line@ == b@.take(i as int),
        decreases k - i,
    {
        line.push(b[i]);
        i = i + 1;
        assert(line@ =~= b@.take(i as int));
    }
    match utf8_text(line.as_slice()) {
        Some(t) => {
            proof {
                vstd::utf8::encode_utf8_decode_utf8(t@);
            }
            Some(trim(t))
        },
        None => None,
    }
}

fn join(a: &str, b: &str) -> (r: String)
    ensures
        r@ == a@ + b@,
{
    let mut r = String::from_str(a);
    r.append(b);
    r
}

fn join3(a: &str, b: &str, c: &str) -> (r: String)
    ensures
        r@ == a@ + b@ + c@,
{
    let mut r = join(a, b);
    r.append(c);
    r
}

/// A client session.
pub struct Session {
    secret: String,
    raw: bool,
    credential: String,
    client: Forwarded,
    buf: Vec<u8>,
    healed: bool,
    phase: Phase,
}

impl View for Session {
    type V = SessionView;

    closed spec fn view(&self) -> SessionView {
        SessionView {
            secret: self.secret@,
            raw: self.raw,
            credential: self.credential@,
            client: self.client@,
            buf: self.buf@,
            healed: self.healed,
            phase: self.phase,
        }
    }
}

impl Session {
    /// An HTTP session: the configured secret, the credential of the request
    /// body, and the forwarding header.
    pub fn http(secret: String, credential: String, client: Forwarded) -> (r: Session)
        ensures
            r@ == (SessionView {
                secret: secret@,
                raw: false,
                credential: credential@,
                client: client@,
                buf: Seq::empty(),
                healed: false,
                phase: Phase::Start,
            }),
    {
        Session {
            secret,
            raw: false,
            credential,
            client,
            buf: Vec::new(),
            healed: false,
            phase: Phase::Start,
        }
    }

    /// A raw socket session: the configured secret and the peer's address,
    /// if the transport could tell it.
    pub fn raw(secret: String, peer: Option<String>) -> (r: Session)
        ensures
            r@ == (SessionView {
                secret: secret@,
                raw: true,
                credential: Seq::empty(),
                client: match peer {
                    Some(p) => ForwardedView::Value(p@),
                    None => ForwardedView::Missing,
                },
                buf: Seq::empty(),
                healed: false,
                phase: Phase::Start,
            }),
    {
        let client = match peer {
            Some(p) => Forwarded::Value(p),
            None => Forwarded::Missing,
        };
        Session {
            secret,
            raw: true,
            credential: String::new(),
            client,
            buf: Vec::new(),
            healed: false,
            phase: Phase::Start,
        }
    }

    /// Where the session stands.
    pub fn phase(&self) -> (r: Phase)
        ensures
            r == self@.phase,
    {
        self.phase
    }

    /// Whether the session is over.
    pub fn is_closed(&self) -> (r: bool)
        ensures
            r == (self@.phase == Phase::Closed),
    {
        self.phase == Phase::Closed
    }

    fn finish(&mut self, delay_ms: u64, reply: Option<Reply>, post: Option<String>) -> (a:
        Action)
        ensures
            (final(self)@, a@) == finish(
                old(self)@,
                delay_ms,
                match reply {
                    Some(r) => Some(r@),
                    None => None,
                },
                match post {
                    Some(p) => Some(p@),
                    None => None,
                },
            ),
    {
        self.phase = Phase::Closed;
        Action::Finish { delay_ms, reply, post }
    }

    fn drop_session(&mut self) -> (a: Action)
        ensures
            (final(self)@, a@) == drop_session(old(self)@),
    {
        self.finish(0, None, None)
    }

    fn answer(&mut self, status: u16, message: String) -> (a: Action)
        ensures
            (final(self)@, a@) == answer(old(self)@, status, message@),
    {
        self.finish(0, Some(Reply { status, message }), None)
    }

    fn goto(&mut self, phase: Phase, a: Action) -> (r: Action)
        ensures
            (final(self)@, r@) == goto(old(self)@, phase, a@),
    {
        self.phase = phase;
        a
    }

    fn on_start(&mut self) -> (a: Action)
        ensures
            (final(self)@, a@) == on_start(old(self)@),
    {
        if self.raw {
            match self.client {
                Forwarded::Value(_) => self.goto(
                    Phase::AwaitLine,
                    Action::Receive { within_ms: AUTH_TIMEOUT_MS },
                ),
                _ => self.drop_session(),
            }
        } else if self.credential != self.secret {
            let message = String::from_str("No entrance with that password");
            self.finish(DENY_DELAY_MS, Some(Reply { status: STATUS_FORBIDDEN, message }), None)
        } else {
            match self.client {
                Forwarded::Missing => {
                    let m = String::from_str("x-forwarded-for is not set");
                    self.answer(STATUS_PRECONDITION_FAILED, m)
                },
                Forwarded::Unreadable => {
                    let m = String::from_str(
                        "\"x-forwarded-for\" is set, but can't be parsed to str",
                    );
                    self.answer(STATUS_PRECONDITION_FAILED, m)
                },
                Forwarded::Value(_) => self.goto(Phase::AwaitLock, Action::Acquire),
            }
        }
    }

    fn on_bytes(&mut self, data: Vec<u8>, elapsed_ms: u64) -> (a: Action)
        requires
            elapsed_ms < AUTH_TIMEOUT_MS,
        ensures
            (final(self)@, a@) == on_bytes(old(self)@, data@, elapsed_ms),
    {
        let mut data = data;
        self.buf.append(&mut data);
        match find_line_end(&self.buf) {
            None => {
                proof {
                    assert(first_line(self@.buf) is None);
                }
                Action::Receive { within_ms: AUTH_TIMEOUT_MS - elapsed_ms }
            },
            Some(k) => match credential_of(&self.buf, k) {
                Some(c) => {
                    if c == self.secret {
                        self.credential = c;
                        self.goto(Phase::AwaitLock, Action::Acquire)
                    } else {
                        self.drop_session()
                    }
                },
                None => self.drop_session(),
            },
        }
    }

    fn on_content(&mut self, content: String) -> (a: Action)
        ensures
            (final(self)@, a@) == on_content(old(self)@, content@),
    {
        let stored = stored_ip(content.as_str());
        match &self.client {
            Forwarded::Value(ip) => {
                if stored != *ip {
                    let ip = ip.clone();
                    self.goto(Phase::AwaitWrite, Action::WriteStore(ip))
                } else {
                    let m = join("No change in IP: ", show(stored.as_str()).as_str());
                    self.answer(STATUS_OK, m)
                }
            },
            _ => self.drop_session(),
        }
    }

    fn read_failed(&mut self) -> (a: Action)
        ensures
            (final(self)@, a@) == read_failed(old(self)@),
    {
        let m = String::from_str("Can't read existing IP");
        self.answer(STATUS_SERVER_ERROR, m)
    }

    fn on_written(&mut self, ok: bool) -> (a: Action)
        ensures
            (final(self)@, a@) == on_written(old(self)@, ok),
    {
        match &self.client {
            Forwarded::Value(ip) => {
                if ok {
                    let m = join3("New IP ", show(ip.as_str()).as_str(), " written");
                    let post = ip.clone();
                    self.finish(0, Some(Reply { status: STATUS_OK, message: m }), Some(post))
                } else {
                    let m = join3("Can't write new IP ", show(ip.as_str()).as_str(), " to file");
                    self.answer(STATUS_SERVER_ERROR, m)
                }
            },
            _ => self.drop_session(),
        }
    }

    /// Feeds one event to the session and returns what to do next.
    pub fn step(&mut self, event: Event) -> (a: Action)
        ensures
            (final(self)@, a@) == next(old(self)@, event@),
    {
        match self.phase {
            Phase::Start => match event {
                Event::Start => self.on_start(),
                _ => self.drop_session(),
            },
            Phase::AwaitLine => match event {
                Event::Received { data, elapsed_ms } => {
                    if elapsed_ms >= AUTH_TIMEOUT_MS {
                        self.drop_session()
                    } else {
                        self.on_bytes(data, elapsed_ms)
                    }
                },
                Event::Quiet { elapsed_ms } => {
                    if elapsed_ms >= AUTH_TIMEOUT_MS {
                        self.drop_session()
                    } else {
                        Action::Receive { within_ms: AUTH_TIMEOUT_MS - elapsed_ms }
                    }
                },
                _ => self.drop_session(),
            },
            Phase::AwaitLock => match event {
                Event::Locked => self.goto(Phase::AwaitRead, Action::ReadStore),
                _ => self.drop_session(),
            },
            Phase::AwaitRead => match event {
                Event::ReadDone(Some(content)) => self.on_content(content),
                Event::ReadDone(None) => self.goto(Phase::AwaitExists, Action::CheckExists),
                _ => self.drop_session(),
            },
            Phase::AwaitExists => match event {
                Event::Exists(Some(false)) => {
                    if self.healed {
                        self.read_failed()
                    } else {
                        self.healed = true;
                        self.goto(Phase::AwaitRecreate, Action::Recreate)
                    }
                },
                Event::Exists(_) => self.read_failed(),
                _ => self.drop_session(),
            },
            Phase::AwaitRecreate => match event {
                Event::Recreated(true) => self.goto(Phase::AwaitRead, Action::ReadStore),
                Event::Recreated(false) => self.read_failed(),
                _ => self.drop_session(),
            },
            Phase::AwaitWrite => match event {
                Event::Written(ok) => self.on_written(ok),
                _ => self.drop_session(),
            },
            Phase::Closed => self.drop_session(),
        }
    }
}

} // verus!
