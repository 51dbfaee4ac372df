use vstd::prelude::*;
use vstd::string::*;
use crate::backoff::{advance, lemma_advance_in_range, lemma_current_in_range, RetrySec, INITIAL_DELAY_SECS, MAX_DELAY_SECS};
use crate::text::{decimal, push_decimal};
use crate::ws_error::{classifies, handle_ws_error, WsError, WsErrorStep};

verus! {

/// One inbound websocket frame, as far as the session cares.
#[derive(Debug)]
pub enum Frame {
    Text(String),
    Ping(Vec<u8>),
    Pong,
    Binary,
    Close,
}

/// What the message handler made of a text frame.
#[derive(Debug)]
pub enum HandlerOutcome {
    /// Handled; keep reading.
    Continue,
    /// Handled; the process should end.
    Exit,
    /// The handler failed, with this error text.
    Failed(String),
    /// The frame was not a valid message envelope, with the decoder's error text.
    Malformed(String),
}

/// Something that happened to the connection, reported by the driving loop.
#[derive(Debug)]
pub enum Event {
    /// The loop is ready to start an attempt.
    Start,
    /// The handshake did not finish within the connect timeout.
    ConnectTimedOut,
    /// The handshake failed.
    HandshakeFailed(WsError),
    /// The handshake succeeded.
    Connected,
    /// No frame came within the idle timeout.
    ReadTimedOut,
    /// Reading a frame failed.
    ReadFailed { cause: String },
    /// The stream ended without a close frame.
    StreamEnded,
    /// A frame arrived.
    Received(Frame),
    /// The pong was sent.
    PongSent,
    /// Sending a pong failed.
    PongFailed { cause: String },
    /// The handler finished with a text frame.
    Handled(HandlerOutcome),
}

/// What the driving loop does next.
#[derive(Debug)]
pub enum Action {
    /// Log `reconnecting` if there is one, then connect.
    Connect { reconnecting: Option<String> },
    /// Log `notice`, then read the next frame.
    Connected { notice: String },
    /// Send a pong with `payload`, and report `Event::PongSent` or `Event::PongFailed`.
    SendPong { payload: Vec<u8> },
    /// Decode `text` as a server message, hand it to the handler, and report
    /// the outcome with `Event::Handled`.
    Dispatch { text: String },
    /// Read the next frame.
    ReadNext,
    /// The attempt is over. Show `rejection` if there is one, log `error` as an
    /// error line if there is one, log `notice`, sleep `wait_secs` seconds, then
    /// start the next attempt.
    Retry { rejection: Option<WsErrorStep>, error: Option<String>, notice: String, wait_secs: u64 },
    /// Stop for good.
    Exit,
}

pub open spec fn reconnecting_line() -> Seq<char> {
    "\u{21aa} Reconnecting to the server..."@
}

pub open spec fn connected_line(reconnect: bool) -> Seq<char> {
    if reconnect {
        "\u{2713} Reconnected!"@
    } else {
        "\u{2713} Connected to the server!"@
    }
}

pub open spec fn connection_lost_line(secs: u64) -> Seq<char> {
    "\u{21aa} Connection lost. Reconnecting in "@ + decimal(secs as nat) + " seconds..."@
}

pub open spec fn error_line(e: Seq<char>) -> Seq<char> {
    "\u{2613} "@ + e
}

pub open spec fn connect_timeout_text() -> Seq<char> {
    "Connection timed out to the server"@
}

pub open spec fn read_timeout_text() -> Seq<char> {
    "Connection timed out"@
}

pub open spec fn receive_error_text(cause: Seq<char>) -> Seq<char> {
    "Failed to receive message from the server: "@ + cause
}

pub open spec fn pong_error_text(cause: Seq<char>) -> Seq<char> {
    "Failed to send pong message to the server: "@ + cause
}

/// The state one process keeps across connection attempts.
pub struct Session {
    reconnect: bool,
    retry: RetrySec,
    reset_on_close: bool,
    exited: bool,
}

impl Session {
    pub closed spec fn wf(&self) -> bool {
        self.retry.wf()
    }

    /// Whether the next successful handshake is a reconnection.
    pub closed spec fn is_reconnect(&self) -> bool {
        self.reconnect
    }

    /// The delay before the next retry.
    pub closed spec fn delay(&self) -> nat {
        self.retry.current()
    }

    /// Whether a clean close counts as a sign of health and resets the delay.
    pub closed spec fn resets_on_close(&self) -> bool {
        self.reset_on_close
    }

    /// Whether the handler asked the process to end.
    pub closed spec fn has_exited(&self) -> bool {
        self.exited
    }

    /// A session before its first attempt.
    pub fn new(reset_on_close: bool) -> (r: Session)
        ensures
            r.wf(),
            !r.is_reconnect(),
            r.delay() == INITIAL_DELAY_SECS,
            r.resets_on_close() == reset_on_close,
            !r.has_exited(),
    {
        Session { reconnect: false, retry: RetrySec::new(), reset_on_close, exited: false }
    }

    /// Whether the handler asked the process to end.
    pub fn exited(&self) -> (r: bool)
        ensures
            r == self.has_exited(),
    {
        self.exited
    }
}

/// `a` ends the attempt: it logs `error` (as an error line) and the
/// connection-lost line for the current delay, and waits that delay; the session
/// moves to the next delay and marks later handshakes as reconnections.
pub open spec fn retries(
    pre: Session,
    post: Session,
    a: Action,
    rejected: bool,
    error: Option<Seq<char>>,
    reset_first: bool,
) -> bool {
    let d = if reset_first { INITIAL_DELAY_SECS as nat } else { pre.delay() };
    &&& a matches Action::Retry { rejection, error: e, notice, wait_secs }
    &&& rejection is Some <==> rejected
    &&& (e is Some <==> error is Some)
    &&& (error matches Some(x) ==> e->0@ == error_line(x))
    &&& wait_secs == d
    &&& notice@ == connection_lost_line(wait_secs)
    &&& post.delay() == advance(d)
    &&& post.is_reconnect()
    &&& post.resets_on_close() == pre.resets_on_close()
    &&& !post.has_exited()
}

/// A well-formed session's delay lies between the initial and the maximum one.
pub proof fn lemma_delay_in_range(s: Session)
    requires
        s.wf(),
    ensures
        INITIAL_DELAY_SECS <= s.delay() <= MAX_DELAY_SECS,
{
    lemma_current_in_range(s.retry);
}

/// Retries wait no less than the initial delay and no more than the maximum,
/// and, until a reset, each one waits at least as long as the one before:
/// the wait of a retry never exceeds the delay it leaves for the next.
pub proof fn lemma_retry_waits(
    pre: Session,
    post: Session,
    a: Action,
    rejected: bool,
    error: Option<Seq<char>>,
    reset_first: bool,
)
    requires
        pre.wf(),
        retries(pre, post, a, rejected, error, reset_first),
    ensures
        a matches Action::Retry { wait_secs, .. } && INITIAL_DELAY_SECS <= wait_secs <= MAX_DELAY_SECS
            && wait_secs <= post.delay() <= MAX_DELAY_SECS,
        !reset_first ==> (a matches Action::Retry { wait_secs, .. } && wait_secs == pre.delay()),
{
    lemma_delay_in_range(pre);
    let d = if reset_first { INITIAL_DELAY_SECS as nat } else { pre.delay() };
    lemma_advance_in_range(d);
}

/// After a sign of health (a handshake, a sent pong, a handled message), the
/// next retry waits the initial delay, with no step in between.
pub proof fn lemma_retry_after_health(
    pre: Session,
    mid: Session,
    post: Session,
    a: Action,
    rejected: bool,
    error: Option<Seq<char>>,
    reset_first: bool,
)
    requires
        healthy(pre, mid),
        retries(mid, post, a, rejected, error, reset_first),
    ensures
        a matches Action::Retry { wait_secs, .. } && wait_secs == INITIAL_DELAY_SECS,
{
}

/// `post` is `pre` with nothing changed.
pub open spec fn unchanged(pre: Session, post: Session) -> bool {
    &&& post.delay() == pre.delay()
    &&& post.is_reconnect() == pre.is_reconnect()
    &&& post.resets_on_close() == pre.resets_on_close()
    &&& post.has_exited() == pre.has_exited()
}

/// `post` is `pre` with the delay reset to the initial one.
pub open spec fn healthy(pre: Session, post: Session) -> bool {
    &&& post.delay() == INITIAL_DELAY_SECS
    &&& post.is_reconnect() == pre.is_reconnect()
    &&& post.resets_on_close() == pre.resets_on_close()
    &&& post.has_exited() == pre.has_exited()
}

fn line_from(s: &str) -> (r: String)
    ensures
        r@ == s@,
{
    String::from_str(s)
}

fn error_line_of(e: &str) -> (r: String)
    ensures
        r@ == error_line(e@),
{
    String::from_str("\u{2613} ").concat(e)
}

impl Session {
    /// Ends the attempt: advances the delay and builds the retry action.
    fn retry(&mut self, rejection: Option<WsErrorStep>, error: Option<String>, reset_first: bool) -> (r: Action)
        requires
            old(self).wf(),
            !old(self).has_exited(),
        ensures
            final(self).wf(),
            retries(*old(self), *final(self), r, rejection is Some, match error {
                Some(e) => Some(e@),
                None => None,
            }, reset_first),
    {
        if reset_first {
            self.retry.reset();
        }
        let wait_secs = self.retry.next();
        self.reconnect = true;
        let mut notice = String::from_str("\u{21aa} Connection lost. Reconnecting in ");
        push_decimal(&mut notice, wait_secs as u32);
        let notice = notice.concat(" seconds...");
        let error = match error {
            Some(e) => Some(error_line_of(e.as_str())),
            None => None,
        };
        Action::Retry { rejection, error, notice, wait_secs }
    }

    /// Decides what to do about `event`. Once the handler has asked the process
    /// to end, every event gives `Exit`.
    pub fn step(&mut self, event: Event) -> (r: Action)
        requires
            old(self).wf(),
        ensures
            final(self).wf(),
            old(self).has_exited() ==> r is Exit && unchanged(*old(self), *final(self)),
            !old(self).has_exited() ==> match event {
                Event::Start => unchanged(*old(self), *final(self)) && (r matches Action::Connect { reconnecting }
                    && (reconnecting is Some <==> old(self).is_reconnect())
                    && (reconnecting matches Some(n) ==> n@ == reconnecting_line())),
                Event::ConnectTimedOut => retries(*old(self), *final(self), r, false, Some(connect_timeout_text()), false),
                Event::HandshakeFailed(err) => exists|res: Result<WsErrorStep, String>| {
                    &&& #[trigger] classifies(err, res)
                    &&& match res {
                        Ok(_) => retries(*old(self), *final(self), r, true, None, false),
                        Err(e) => retries(*old(self), *final(self), r, false, Some(e@), false),
                    }
                },
                Event::Connected => healthy(*old(self), *final(self))
                    && (r matches Action::Connected { notice }
                    && notice@ == connected_line(old(self).is_reconnect())),
                Event::ReadTimedOut => retries(*old(self), *final(self), r, false, Some(read_timeout_text()), false),
                Event::ReadFailed { cause } => retries(*old(self), *final(self), r, false, Some(receive_error_text(cause@)), false),
                Event::StreamEnded => retries(*old(self), *final(self), r, false, None, false),
                Event::PongSent => healthy(*old(self), *final(self)) && r is ReadNext,
                Event::PongFailed { cause } => retries(*old(self), *final(self), r, false, Some(pong_error_text(cause@)), false),
                Event::Received(frame) => match frame {
                    Frame::Close => retries(*old(self), *final(self), r, false, None, old(self).resets_on_close()),
                    Frame::Ping(p) => unchanged(*old(self), *final(self)) && (r matches Action::SendPong { payload }
                        && payload@ == p@),
                    Frame::Text(t) => unchanged(*old(self), *final(self)) && (r matches Action::Dispatch { text }
                        && text@ == t@),
                    _ => unchanged(*old(self), *final(self)) && r is ReadNext,
                },
                Event::Handled(outcome) => match outcome {
                    HandlerOutcome::Continue => healthy(*old(self), *final(self)) && r is ReadNext,
                    HandlerOutcome::Exit => final(self).has_exited() && r is Exit
                        && final(self).delay() == old(self).delay()
                        && final(self).is_reconnect() == old(self).is_reconnect()
                        && final(self).resets_on_close() == old(self).resets_on_close(),
                    HandlerOutcome::Failed(e) => retries(*old(self), *final(self), r, false, Some(e@), false),
                    HandlerOutcome::Malformed(e) => retries(*old(self), *final(self), r, false, Some(e@), false),
                },
            },
    {
        if self.exited {
            return Action::Exit;
        }
        match event {
            Event::Start => {
                if self.reconnect {
                    Action::Connect { reconnecting: Some(line_from("\u{21aa} Reconnecting to the server...")) }
                } else {
                    Action::Connect { reconnecting: None }
                }
            },
            Event::ConnectTimedOut => self.retry(None, Some(line_from("Connection timed out to the server")), false),
            Event::HandshakeFailed(err) => {
                let res = handle_ws_error(err);
                match res {
                    Ok(step) => self.retry(Some(step), None, false),
                    Err(e) => self.retry(None, Some(e), false),
                }
            },
            Event::Connected => {
                self.retry.reset();
                let notice = if self.reconnect {
                    line_from("\u{2713} Reconnected!")
                } else {
                    line_from("\u{2713} Connected to the server!")
                };
                Action::Connected { notice }
            },
            Event::ReadTimedOut => self.retry(None, Some(line_from("Connection timed out")), false),
            Event::ReadFailed { cause } => {
                let e = String::from_str("Failed to receive message from the server: ").concat(cause.as_str());
                self.retry(None, Some(e), false)
            },
            Event::StreamEnded => self.retry(None, None, false),
            Event::PongSent => {
                self.retry.reset();
                Action::ReadNext
            },
            Event::PongFailed { cause } => {
                let e = String::from_str("Failed to send pong message to the server: ").concat(cause.as_str());
                self.retry(None, Some(e), false)
            },
            Event::Received(frame) => match frame {
                Frame::Close => {
                    let reset_first = self.reset_on_close;
                    self.retry(None, None, reset_first)
                },
                Frame::Ping(payload) => Action::SendPong { payload },
                Frame::Text(text) => Action::Dispatch { text },
                _ => Action::ReadNext,
            },
            Event::Handled(outcome) => match outcome {
                HandlerOutcome::Continue => {
                    self.retry.reset();
                    Action::ReadNext
                },
                HandlerOutcome::Exit => {
                    self.exited = true;
                    Action::Exit
                },
                HandlerOutcome::Failed(e) => self.retry(None, Some(e), false),
                HandlerOutcome::Malformed(e) => self.retry(None, Some(e), false),
            },
        }
    }
}

} // verus!
