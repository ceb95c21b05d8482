//! The session state machine.
//!
//! The task that owns the transport waits for whichever comes first of a
//! shutdown request, the acknowledgement deadline, the heartbeat timer and the
//! next frame, and hands what happened to the session as a [`Signal`],
//! together with the time on its clock in milliseconds. The session answers
//! with the one [`Action`] to perform. It never waits and never sends
//! itself; of each frame that it hands out the task says whether it was sent.

use vstd::prelude::*;
use vstd::string::*;
use crate::chance::below;
use crate::gateway::codec::{
    decode, decoded, encode, encoded, Envelope, EnvelopeView, GatewayError, Opcode,
};
use crate::json::{json_parsed, json_quoted, parse, quote, read_text, read_u64, slot_text, slot_u64, Slot};
use crate::text::{decimal, decimal_text, push_decimal, same_text};

verus! {

/// How long an acknowledgement may take after a heartbeat, in milliseconds.
pub const ACK_GRACE_MS: u64 = 2000;

/// Where a session stands.
#[derive(Clone, Copy, Debug, PartialEq, Eq, Structural)]
pub enum Phase {
    AwaitingHello,
    Identifying,
    Active,
    Resuming,
    Terminated,
}

/// What the gateway tells a client once it has accepted it: where and as
/// whom to resume.
#[derive(Clone, Debug, PartialEq, Eq)]
pub struct Ready {
    pub resume_gateway_url: String,
    pub session_id: String,
}

pub struct ReadyView {
    pub resume_gateway_url: Seq<char>,
    pub session_id: Seq<char>,
}

impl View for Ready {
    type V = ReadyView;

    open spec fn view(&self) -> ReadyView {
        ReadyView { resume_gateway_url: self.resume_gateway_url@, session_id: self.session_id@ }
    }
}

/// An event of the gateway, told apart by its name.
#[derive(Clone, Debug, PartialEq, Eq)]
pub enum GatewayEvent {
    /// `READY`. The session keeps it and never hands it on.
    Ready(Ready),
    /// `INTERACTION_CREATE`, with its payload as JSON text.
    InteractionCreate(String),
}

pub enum GatewayEventView {
    Ready(ReadyView),
    InteractionCreate(Seq<char>),
}

impl View for GatewayEvent {
    type V = GatewayEventView;

    open spec fn view(&self) -> GatewayEventView {
        match self {
            GatewayEvent::Ready(r) => GatewayEventView::Ready(r@),
            GatewayEvent::InteractionCreate(p) => GatewayEventView::InteractionCreate(p@),
        }
    }
}

/// What is needed to resume a session.
#[derive(Clone, Debug, PartialEq, Eq)]
pub struct Credentials {
    pub resume_url: String,
    pub session_id: String,
    pub last_sequence: u32,
}

pub struct CredentialsView {
    pub resume_url: Seq<char>,
    pub session_id: Seq<char>,
    pub last_sequence: u32,
}

impl View for Credentials {
    type V = CredentialsView;

    open spec fn view(&self) -> CredentialsView {
        CredentialsView {
            resume_url: self.resume_url@,
            session_id: self.session_id@,
            last_sequence: self.last_sequence,
        }
    }
}

/// What the task observed.
#[derive(Clone, Debug, PartialEq, Eq)]
pub enum Signal {
    /// The consumer asked for the session to end.
    Shutdown,
    /// The task woke up for the acknowledgement deadline.
    AckDeadline,
    /// The heartbeat timer fired.
    HeartbeatDue,
    /// A frame arrived and was an envelope.
    Envelope(Envelope),
    /// A frame arrived and was no envelope.
    Malformed,
    /// The stream ended, a close frame arrived, or reading failed.
    StreamEnded,
    /// The frame of the last `Send` was sent.
    Sent,
    /// The frame of the last `Send` could not be sent.
    SendFailed,
    /// The event of the last `Forward` found no consumer.
    ConsumerGone,
    /// The last `Resume` was carried out.
    Reopened,
    /// The last `Resume` could not be carried out.
    ReopenFailed,
}

pub enum SignalView {
    Shutdown,
    AckDeadline,
    HeartbeatDue,
    Envelope(EnvelopeView),
    Malformed,
    StreamEnded,
    Sent,
    SendFailed,
    ConsumerGone,
    Reopened,
    ReopenFailed,
}

impl View for Signal {
    type V = SignalView;

    open spec fn view(&self) -> SignalView {
        match self {
            Signal::Shutdown => SignalView::Shutdown,
            Signal::AckDeadline => SignalView::AckDeadline,
            Signal::HeartbeatDue => SignalView::HeartbeatDue,
            Signal::Envelope(e) => SignalView::Envelope(e@),
            Signal::Malformed => SignalView::Malformed,
            Signal::StreamEnded => SignalView::StreamEnded,
            Signal::Sent => SignalView::Sent,
            Signal::SendFailed => SignalView::SendFailed,
            Signal::ConsumerGone => SignalView::ConsumerGone,
            Signal::Reopened => SignalView::Reopened,
            Signal::ReopenFailed => SignalView::ReopenFailed,
        }
    }
}

/// What the task is to do next.
#[derive(Clone, Debug, PartialEq, Eq)]
pub enum Action {
    /// Nothing: the session took note, or the signal meant nothing to it.
    Idle,
    /// Send this frame.
    Send(String),
    /// Hand this event to the consumer.
    Forward(GatewayEvent),
    /// Close the transport, open one to `url`, and send `frame` on it.
    Resume { url: String, frame: String },
    /// The session is over: close the transport and end the task.
    Close,
}

pub enum ActionView {
    Idle,
    Send(Seq<char>),
    Forward(GatewayEventView),
    Resume { url: Seq<char>, frame: Seq<char> },
    Close,
}

impl View for Action {
    type V = ActionView;

    open spec fn view(&self) -> ActionView {
        match self {
            Action::Idle => ActionView::Idle,
            Action::Send(f) => ActionView::Send(f@),
            Action::Forward(e) => ActionView::Forward(e@),
            Action::Resume { url, frame } => ActionView::Resume { url: url@, frame: frame@ },
            Action::Close => ActionView::Close,
        }
    }
}

/// A session as a mathematical value.
pub struct SessionView {
    pub phase: Phase,
    pub token: Seq<char>,
    /// The time between heartbeats, in milliseconds; zero before Hello.
    pub interval: u64,
    /// When the next heartbeat is due.
    pub next_heartbeat: Option<u64>,
    /// Until when the heartbeat that was sent last may stay unacknowledged.
    pub ack_deadline: Option<u64>,
    /// Whether a heartbeat was handed out to be sent and no word has come
    /// yet of whether it was.
    pub sending: bool,
    pub last_sequence: Option<u32>,
    pub ready: Option<ReadyView>,
    /// Why the session ended; `None` while it runs and after a clean end.
    pub cause: Option<GatewayError>,
}

/// One session with the gateway, which may span several connections.
pub struct Session {
    phase: Phase,
    token: String,
    interval: u64,
    next_heartbeat: Option<u64>,
    ack_deadline: Option<u64>,
    sending: bool,
    last_sequence: Option<u32>,
    ready: Option<Ready>,
    cause: Option<GatewayError>,
}

impl View for Session {
    type V = SessionView;

    closed spec fn view(&self) -> SessionView {
        SessionView {
            phase: self.phase,
            token: self.token@,
            interval: self.interval,
            next_heartbeat: self.next_heartbeat,
            ack_deadline: self.ack_deadline,
            sending: self.sending,
            last_sequence: self.last_sequence,
            ready: match self.ready {
                Some(r) => Some(r@),
                None => None,
            },
            cause: self.cause,
        }
    }
}

/// A session before anything has happened.
pub open spec fn initial(token: Seq<char>) -> SessionView {
    SessionView {
        phase: Phase::AwaitingHello,
        token,
        interval: 0,
        next_heartbeat: None,
        ack_deadline: None,
        sending: false,
        last_sequence: None,
        ready: None,
        cause: None,
    }
}

/// A time a while after another, or the end of time where that lies beyond it.
pub open spec fn later(now: u64, delay: u64) -> u64 {
    if now + delay > u64::MAX {
        u64::MAX
    } else {
        (now + delay) as u64
    }
}

/// The address to connect to: the gateway's url with the protocol version and
/// the encoding asked for.
pub open spec fn address_of(url: Seq<char>) -> Seq<char> {
    url + "/?v=10&encoding=json"@
}

/// The payload of a heartbeat: the last sequence number, or null.
pub open spec fn heartbeat_payload(last_sequence: Option<u32>) -> Seq<char> {
    match last_sequence {
        Some(k) => decimal_text(k as nat),
        None => "null"@,
    }
}

/// The frame of a heartbeat.
pub open spec fn heartbeat_frame(last_sequence: Option<u32>) -> Seq<char> {
    encoded(
        EnvelopeView {
            opcode: Opcode::Heartbeat,
            payload: heartbeat_payload(last_sequence),
            sequence: None,
            event_name: None,
        },
    )
}

/// The payload of Identify: the token, no intents, and who connects.
pub open spec fn identify_payload(token: Seq<char>) -> Seq<char> {
    "{\"token\":"@ + json_quoted(token)
        + ",\"intents\":0,\"properties\":{\"os\":\"linux\",\"browser\":\"discord\",\"device\":\"discord\"}}"@
}

/// The frame of Identify.
pub open spec fn identify_frame(token: Seq<char>) -> Seq<char> {
    encoded(
        EnvelopeView {
            opcode: Opcode::Identify,
            payload: identify_payload(token),
            sequence: None,
            event_name: None,
        },
    )
}

/// The payload of Resume.
pub open spec fn resume_payload(token: Seq<char>, session_id: Seq<char>, seq: u32) -> Seq<char> {
    "{\"token\":"@ + json_quoted(token) + ",\"session_id\":"@ + json_quoted(session_id)
        + ",\"seq\":"@ + decimal_text(seq as nat) + "}"@
}

/// The frame of Resume.
pub open spec fn resume_frame(token: Seq<char>, session_id: Seq<char>, seq: u32) -> Seq<char> {
    encoded(
        EnvelopeView {
            opcode: Opcode::Resume,
            payload: resume_payload(token, session_id, seq),
            sequence: None,
            event_name: None,
        },
    )
}

/// The heartbeat interval that a Hello payload gives.
pub open spec fn hello_interval(payload: Seq<char>) -> Option<u64> {
    match json_parsed(payload) {
        None => None,
        Some(doc) => match slot_u64(doc, "heartbeat_interval"@) {
            Slot::Holds(n) => Some(n),
            _ => None,
        },
    }
}

/// What a Ready payload gives, where it has both members as strings.
pub open spec fn ready_of(payload: Seq<char>) -> Option<ReadyView> {
    match json_parsed(payload) {
        None => None,
        Some(doc) => match (slot_text(doc, "resume_gateway_url"@), slot_text(doc, "session_id"@)) {
            (Slot::Holds(url), Slot::Holds(id)) => Some(
                ReadyView { resume_gateway_url: url, session_id: id },
            ),
            _ => None,
        },
    }
}

/// The event that a dispatch carries. Names other than the two known ones
/// carry none, and so does a Ready whose payload cannot be read.
pub open spec fn event_of(name: Seq<char>, payload: Seq<char>) -> Option<GatewayEventView> {
    if name == "READY"@ {
        match ready_of(payload) {
            Some(r) => Some(GatewayEventView::Ready(r)),
            None => None,
        }
    } else if name == "INTERACTION_CREATE"@ {
        Some(GatewayEventView::InteractionCreate(payload))
    } else {
        None
    }
}

/// What a frame means to the session.
pub open spec fn meaning(frame: Seq<char>) -> SignalView {
    match decoded(frame) {
        Ok(e) => SignalView::Envelope(e),
        Err(_) => SignalView::Malformed,
    }
}

/// The session ends.
pub open spec fn ended(s: SessionView, cause: Option<GatewayError>) -> (SessionView, ActionView) {
    (SessionView { phase: Phase::Terminated, cause, ..s }, ActionView::Close)
}

/// The remote asks for a heartbeat: one is handed out to be sent, whether or
/// not an earlier heartbeat is still unacknowledged. The deadline for its
/// acknowledgement is set once it was sent.
pub open spec fn beat(s: SessionView, now: u64) -> (SessionView, ActionView) {
    (SessionView { sending: true, ..s }, ActionView::Send(heartbeat_frame(s.last_sequence)))
}

/// The heartbeat that was handed out was sent: from now on its
/// acknowledgement is awaited, for the grace period. A deadline that an
/// earlier heartbeat had set gives way to this one.
pub open spec fn sent(s: SessionView, now: u64) -> (SessionView, ActionView) {
    (
        SessionView { sending: false, ack_deadline: Some(later(now, ACK_GRACE_MS)), ..s },
        ActionView::Idle,
    )
}

/// A frame could not be sent: the session ends with the cause that goes with
/// its phase. A heartbeat that could not be sent awaits no acknowledgement:
/// the deadline is what it was before the heartbeat was asked for.
pub open spec fn failed(s: SessionView) -> (SessionView, ActionView) {
    (
        SessionView {
            phase: Phase::Terminated,
            cause: Some(send_failure(s.phase)),
            sending: false,
            ..s
        },
        ActionView::Close,
    )
}

/// The heartbeat timer fired. While the last heartbeat is unacknowledged the
/// connection counts as dead; else one is handed out to be sent, and the
/// timer set anew.
pub open spec fn tick(s: SessionView, now: u64) -> (SessionView, ActionView) {
    if s.ack_deadline is Some {
        ended(s, Some(GatewayError::HeartbeatTimeout))
    } else {
        (
            SessionView { sending: true, next_heartbeat: Some(later(now, s.interval)), ..s },
            ActionView::Send(heartbeat_frame(s.last_sequence)),
        )
    }
}

/// Hello: the interval is learned and the first heartbeat set at an offset
/// below it. The first Hello is answered with Identify.
pub open spec fn greeted(s: SessionView, payload: Seq<char>, now: u64, jitter: u64) -> (
    SessionView,
    ActionView,
) {
    match hello_interval(payload) {
        Some(interval) if interval > 0 => {
            let offset = jitter % interval;
            if s.phase is AwaitingHello {
                (
                    SessionView {
                        phase: Phase::Identifying,
                        interval,
                        next_heartbeat: Some(later(now, offset)),
                        ..s
                    },
                    ActionView::Send(identify_frame(s.token)),
                )
            } else {
                (
                    SessionView { interval, next_heartbeat: Some(later(now, offset)), ..s },
                    ActionView::Idle,
                )
            }
        },
        _ => if s.phase is AwaitingHello {
            ended(s, Some(GatewayError::ConnectionLost))
        } else {
            (s, ActionView::Idle)
        },
    }
}

/// A dispatch: its sequence number is kept whatever it carries. Ready is
/// kept too and not handed on; an interaction is handed on.
pub open spec fn dispatched(s: SessionView, e: EnvelopeView) -> (SessionView, ActionView) {
    let kept = SessionView { phase: Phase::Active, last_sequence: e.sequence, ..s };
    match e.event_name {
        None => (kept, ActionView::Idle),
        Some(name) => match event_of(name, e.payload) {
            Some(GatewayEventView::Ready(r)) => (
                SessionView { ready: Some(r), ..kept },
                ActionView::Idle,
            ),
            Some(event) => (kept, ActionView::Forward(event)),
            None => (kept, ActionView::Idle),
        },
    }
}

/// What is needed to resume, once Ready and a sequence number were seen.
pub open spec fn credentials_of(s: SessionView) -> Option<CredentialsView> {
    match (s.ready, s.last_sequence) {
        (Some(r), Some(k)) => Some(
            CredentialsView {
                resume_url: r.resume_gateway_url,
                session_id: r.session_id,
                last_sequence: k,
            },
        ),
        _ => None,
    }
}

/// The remote asks for a reconnect: a resume at the address that Ready gave,
/// or the end where there is nothing to resume with.
pub open spec fn reconnecting(s: SessionView) -> (SessionView, ActionView) {
    match credentials_of(s) {
        Some(c) => (
            SessionView { phase: Phase::Resuming, ..s },
            ActionView::Resume {
                url: address_of(c.resume_url),
                frame: resume_frame(s.token, c.session_id, c.last_sequence),
            },
        ),
        None => ended(s, Some(GatewayError::ResumeFailed)),
    }
}

/// An envelope arrived.
pub open spec fn received(s: SessionView, e: EnvelopeView, now: u64, jitter: u64) -> (
    SessionView,
    ActionView,
) {
    if e.opcode is InvalidSession {
        ended(s, Some(GatewayError::SessionInvalidated))
    } else if s.phase is AwaitingHello {
        if e.opcode is Hello {
            greeted(s, e.payload, now, jitter)
        } else {
            (s, ActionView::Idle)
        }
    } else if s.phase is Resuming {
        (s, ActionView::Idle)
    } else {
        match e.opcode {
            Opcode::Dispatch => dispatched(s, e),
            Opcode::Heartbeat => beat(s, now),
            Opcode::HeartbeatAck => (SessionView { ack_deadline: None, ..s }, ActionView::Idle),
            Opcode::Reconnect => reconnecting(s),
            Opcode::Hello => greeted(s, e.payload, now, jitter),
            _ => (s, ActionView::Idle),
        }
    }
}

/// The cause that a failed send ends the session with.
pub open spec fn send_failure(phase: Phase) -> GatewayError {
    match phase {
        Phase::Identifying => GatewayError::HandshakeRejected,
        Phase::Resuming => GatewayError::ResumeFailed,
        _ => GatewayError::ConnectionLost,
    }
}

/// The session after a signal, and what the task is to do.
///
/// A session that has ended stays as it is. A shutdown request ends any
/// other. Word of a heartbeat that was sent, or of a frame that could not be
/// sent, is taken next, whatever the time, as it tells of the action before
/// and not of the moment. Then an acknowledgement deadline that has passed
/// ends the session; only then is the signal looked at.
pub open spec fn transition(s: SessionView, signal: SignalView, now: u64, jitter: u64) -> (
    SessionView,
    ActionView,
) {
    if s.phase is Terminated {
        (s, ActionView::Idle)
    } else if signal is Shutdown {
        ended(s, None)
    } else if signal is SendFailed {
        failed(s)
    } else if signal is Sent && s.sending {
        sent(s, now)
    } else if s.ack_deadline is Some && now >= s.ack_deadline->0 {
        ended(s, Some(GatewayError::HeartbeatTimeout))
    } else {
        match signal {
            SignalView::Shutdown => ended(s, None),
            SignalView::AckDeadline => (s, ActionView::Idle),
            SignalView::HeartbeatDue => if s.phase is Identifying || s.phase is Active {
                tick(s, now)
            } else {
                (s, ActionView::Idle)
            },
            SignalView::Envelope(e) => received(s, e, now, jitter),
            SignalView::Malformed => ended(s, Some(GatewayError::ConnectionLost)),
            SignalView::StreamEnded => ended(s, Some(GatewayError::ConnectionLost)),
            SignalView::Sent => (s, ActionView::Idle),
            SignalView::SendFailed => failed(s),
            SignalView::ConsumerGone => ended(s, None),
            SignalView::Reopened => if s.phase is Resuming {
                (SessionView { phase: Phase::Active, ..s }, ActionView::Idle)
            } else {
                (s, ActionView::Idle)
            },
            SignalView::ReopenFailed => if s.phase is Resuming {
                ended(s, Some(GatewayError::ResumeFailed))
            } else {
                (s, ActionView::Idle)
            },
        }
    }
}

/// The heartbeat interval that a signal announces, if it is a Hello that
/// gives a positive one.
pub open spec fn announced_interval(signal: SignalView) -> Option<u64> {
    match signal {
        SignalView::Envelope(e) => if e.opcode is Hello {
            match hello_interval(e.payload) {
                Some(interval) if interval > 0 => Some(interval),
                _ => None,
            }
        } else {
            None
        },
        _ => None,
    }
}

/// A time a while after another, held at the end of time.
pub fn after(now: u64, delay: u64) -> (r: u64)
    ensures
        r == later(now, delay),
{
    if delay > u64::MAX - now {
        u64::MAX
    } else {
        now + delay
    }
}

/// The address to connect to for a gateway url.
pub fn gateway_address(url: &str) -> (r: String)
    ensures
        r@ == address_of(url@),
{
    let mut r = String::from_str(url);
    r.append("/?v=10&encoding=json");
    r
}

/// Reads the heartbeat interval off a Hello payload.
pub fn read_hello(payload: &str) -> (r: Option<u64>)
    ensures
        r == hello_interval(payload@),
{
    match parse(payload) {
        Err(_) => None,
        Ok(doc) => match read_u64(&doc, "heartbeat_interval") {
            Slot::Holds(n) => Some(n),
            _ => None,
        },
    }
}

/// Reads a Ready payload.
pub fn read_ready(payload: &str) -> (r: Option<Ready>)
    ensures
        r.is_some() == ready_of(payload@).is_some(),
        r matches Some(ready) ==> ready_of(payload@) == Some(ready@),
{
    match parse(payload) {
        Err(_) => None,
        Ok(doc) => {
            let url = read_text(&doc, "resume_gateway_url");
            let id = read_text(&doc, "session_id");
            match (url, id) {
                (Slot::Holds(resume_gateway_url), Slot::Holds(session_id)) => Some(
                    Ready { resume_gateway_url, session_id },
                ),
                _ => None,
            }
        },
    }
}

/// Reads the event that a dispatch carries.
pub fn read_event(name: &str, payload: &str) -> (r: Option<GatewayEvent>)
    ensures
        r.is_some() == event_of(name@, payload@).is_some(),
        r matches Some(event) ==> event_of(name@, payload@) == Some(event@),
{
    if same_text(name, "READY") {
        match read_ready(payload) {
            Some(ready) => Some(GatewayEvent::Ready(ready)),
            None => None,
        }
    } else if same_text(name, "INTERACTION_CREATE") {
        Some(GatewayEvent::InteractionCreate(String::from_str(payload)))
    } else {
        None
    }
}

/// Writes the frame of a heartbeat.
pub fn write_heartbeat(last_sequence: Option<u32>) -> (r: String)
    ensures
        r@ == heartbeat_frame(last_sequence),
{
    match last_sequence {
        Some(k) => {
            let payload = decimal(k as u64);
            encode(Opcode::Heartbeat, payload.as_str(), None, None)
        },
        None => encode(Opcode::Heartbeat, "null", None, None),
    }
}

/// Writes the frame of Identify for a token.
pub fn write_identify(token: &str) -> (r: String)
    ensures
        r@ == identify_frame(token@),
{
    let mut payload = String::from_str("{\"token\":");
    let quoted = quote(token);
    payload.append(quoted.as_str());
    payload.append(
        ",\"intents\":0,\"properties\":{\"os\":\"linux\",\"browser\":\"discord\",\"device\":\"discord\"}}",
    );
    encode(Opcode::Identify, payload.as_str(), None, None)
}

/// Writes the frame of Resume.
pub fn write_resume(token: &str, session_id: &str, seq: u32) -> (r: String)
    ensures
        r@ == resume_frame(token@, session_id@, seq),
{
    let mut payload = String::from_str("{\"token\":");
    let quoted_token = quote(token);
    payload.append(quoted_token.as_str());
    payload.append(",\"session_id\":");
    let quoted_id = quote(session_id);
    payload.append(quoted_id.as_str());
    payload.append(",\"seq\":");
    push_decimal(&mut payload, seq as u64);
    payload.append("}");
    encode(Opcode::Resume, payload.as_str(), None, None)
}

/// Says what a frame means to the session: the envelope that it decodes to,
/// or that it is none.
pub fn interpret(frame: &str) -> (r: Signal)
    ensures
        r@ == meaning(frame@),
{
    match decode(frame) {
        Ok(e) => Signal::Envelope(e),
        Err(_) => Signal::Malformed,
    }
}

impl Session {
    /// A session for a bot token, before the gateway has said Hello.
    pub fn new(token: String) -> (s: Session)
        ensures
            s@ == initial(token@),
    {
        Session {
            phase: Phase::AwaitingHello,
            token,
            interval: 0,
            next_heartbeat: None,
            ack_deadline: None,
            sending: false,
            last_sequence: None,
            ready: None,
            cause: None,
        }
    }

    pub fn phase(&self) -> (r: Phase)
        ensures
            r == self@.phase,
    {
        self.phase
    }

    /// Whether the session has ended.
    pub fn is_terminated(&self) -> (r: bool)
        ensures
            r == (self@.phase is Terminated),
    {
        match self.phase {
            Phase::Terminated => true,
            _ => false,
        }
    }

    /// Why the session ended, where it ended with a failure.
    pub fn cause(&self) -> (r: Option<GatewayError>)
        ensures
            r == self@.cause,
    {
        self.cause
    }

    pub fn heartbeat_interval(&self) -> (r: u64)
        ensures
            r == self@.interval,
    {
        self.interval
    }

    /// When the task is to hand in `HeartbeatDue` next.
    pub fn next_heartbeat(&self) -> (r: Option<u64>)
        ensures
            r == self@.next_heartbeat,
    {
        self.next_heartbeat
    }

    /// When the task is to hand in `AckDeadline`; `None` while no heartbeat
    /// is unacknowledged.
    pub fn ack_deadline(&self) -> (r: Option<u64>)
        ensures
            r == self@.ack_deadline,
    {
        self.ack_deadline
    }

    /// Whether a heartbeat was handed out and no word has come yet of
    /// whether it was sent.
    pub fn is_sending(&self) -> (r: bool)
        ensures
            r == self@.sending,
    {
        self.sending
    }

    pub fn last_sequence(&self) -> (r: Option<u32>)
        ensures
            r == self@.last_sequence,
    {
        self.last_sequence
    }

    /// What is needed to resume, once Ready and a sequence number were seen.
    pub fn credentials(&self) -> (r: Option<Credentials>)
        ensures
            r.is_some() == credentials_of(self@).is_some(),
            r matches Some(c) ==> credentials_of(self@) == Some(c@),
    {
        match (&self.ready, self.last_sequence) {
            (Some(ready), Some(k)) => Some(
                Credentials {
                    resume_url: ready.resume_gateway_url.clone(),
                    session_id: ready.session_id.clone(),
                    last_sequence: k,
                },
            ),
            _ => None,
        }
    }

    fn end(&mut self, cause: Option<GatewayError>) -> (action: Action)
        ensures
            (final(self)@, action@) == ended(old(self)@, cause),
    {
        self.phase = Phase::Terminated;
        self.cause = cause;
        Action::Close
    }

    fn on_beat(&mut self, now: u64) -> (action: Action)
        ensures
            (final(self)@, action@) == beat(old(self)@, now),
    {
        self.sending = true;
        Action::Send(write_heartbeat(self.last_sequence))
    }

    fn on_sent(&mut self, now: u64) -> (action: Action)
        ensures
            (final(self)@, action@) == sent(old(self)@, now),
    {
        self.sending = false;
        self.ack_deadline = Some(after(now, ACK_GRACE_MS));
        Action::Idle
    }

    fn on_send_failed(&mut self) -> (action: Action)
        ensures
            (final(self)@, action@) == failed(old(self)@),
    {
        let cause = match self.phase {
            Phase::Identifying => GatewayError::HandshakeRejected,
            Phase::Resuming => GatewayError::ResumeFailed,
            _ => GatewayError::ConnectionLost,
        };
        self.sending = false;
        self.end(Some(cause))
    }

    fn on_tick(&mut self, now: u64) -> (action: Action)
        ensures
            (final(self)@, action@) == tick(old(self)@, now),
    {
        if self.ack_deadline.is_some() {
            self.end(Some(GatewayError::HeartbeatTimeout))
        } else {
            self.sending = true;
            self.next_heartbeat = Some(after(now, self.interval));
            Action::Send(write_heartbeat(self.last_sequence))
        }
    }

    fn on_hello(&mut self, payload: &str, now: u64, jitter: u64) -> (action: Action)
        ensures
            (final(self)@, action@) == greeted(old(self)@, payload@, now, jitter),
    {
        let first = match self.phase {
            Phase::AwaitingHello => true,
            _ => false,
        };
        match read_hello(payload) {
            Some(interval) if interval > 0 => {
                self.interval = interval;
                self.next_heartbeat = Some(after(now, jitter % interval));
                if first {
                    self.phase = Phase::Identifying;
                    Action::Send(write_identify(self.token.as_str()))
                } else {
                    Action::Idle
                }
            },
            _ => {
                if first {
                    self.end(Some(GatewayError::ConnectionLost))
                } else {
                    Action::Idle
                }
            },
        }
    }

    fn on_dispatch(&mut self, e: Envelope) -> (action: Action)
        ensures
            (final(self)@, action@) == dispatched(old(self)@, e@),
    {
        self.phase = Phase::Active;
        self.last_sequence = e.sequence;
        match &e.event_name {
            None => Action::Idle,
            Some(name) => match read_event(name.as_str(), e.payload.as_str()) {
                Some(GatewayEvent::Ready(ready)) => {
                    self.ready = Some(ready);
                    Action::Idle
                },
                Some(event) => Action::Forward(event),
                None => Action::Idle,
            },
        }
    }

    fn on_reconnect(&mut self) -> (action: Action)
        ensures
            (final(self)@, action@) == reconnecting(old(self)@),
    {
        match self.credentials() {
            Some(c) => {
                self.phase = Phase::Resuming;
                Action::Resume {
                    url: gateway_address(c.resume_url.as_str()),
                    frame: write_resume(self.token.as_str(), c.session_id.as_str(), c.last_sequence),
                }
            },
            None => self.end(Some(GatewayError::ResumeFailed)),
        }
    }

    fn on_envelope(&mut self, e: Envelope, now: u64, jitter: u64) -> (action: Action)
        ensures
            (final(self)@, action@) == received(old(self)@, e@, now, jitter),
    {
        match (e.opcode, self.phase) {
            (Opcode::InvalidSession, _) => self.end(Some(GatewayError::SessionInvalidated)),
            (Opcode::Hello, Phase::AwaitingHello) => self.on_hello(e.payload.as_str(), now, jitter),
            (_, Phase::AwaitingHello) => Action::Idle,
            (_, Phase::Resuming) => Action::Idle,
            (Opcode::Dispatch, _) => self.on_dispatch(e),
            (Opcode::Heartbeat, _) => self.on_beat(now),
            (Opcode::HeartbeatAck, _) => {
                self.ack_deadline = None;
                Action::Idle
            },
            (Opcode::Reconnect, _) => self.on_reconnect(),
            (Opcode::Hello, _) => self.on_hello(e.payload.as_str(), now, jitter),
            _ => Action::Idle,
        }
    }

    /// Takes a signal at a time, with the number that a Hello's offset is
    /// taken from: the offset is `jitter` modulo the interval. The session
    /// and the action are those of [`transition`].
    pub fn advance(&mut self, signal: Signal, now: u64, jitter: u64) -> (action: Action)
        ensures
            (final(self)@, action@) == transition(old(self)@, signal@, now, jitter),
    {
        if self.is_terminated() {
            return Action::Idle;
        }
        if let Signal::Shutdown = signal {
            return self.end(None);
        }
        if let Signal::SendFailed = signal {
            return self.on_send_failed();
        }
        if let Signal::Sent = signal {
            if self.sending {
                return self.on_sent(now);
            }
        }
        if let Some(deadline) = self.ack_deadline {
            if now >= deadline {
                return self.end(Some(GatewayError::HeartbeatTimeout));
            }
        }
        match signal {
            Signal::Shutdown => self.end(None),
            Signal::AckDeadline => Action::Idle,
            Signal::HeartbeatDue => match self.phase {
                Phase::Identifying | Phase::Active => self.on_tick(now),
                _ => Action::Idle,
            },
            Signal::Envelope(e) => self.on_envelope(e, now, jitter),
            Signal::Malformed => self.end(Some(GatewayError::ConnectionLost)),
            Signal::StreamEnded => self.end(Some(GatewayError::ConnectionLost)),
            Signal::Sent => Action::Idle,
            Signal::SendFailed => self.on_send_failed(),
            Signal::ConsumerGone => self.end(None),
            Signal::Reopened => match self.phase {
                Phase::Resuming => {
                    self.phase = Phase::Active;
                    Action::Idle
                },
                _ => Action::Idle,
            },
            Signal::ReopenFailed => match self.phase {
                Phase::Resuming => self.end(Some(GatewayError::ResumeFailed)),
                _ => Action::Idle,
            },
        }
    }

    /// The heartbeat interval that a signal announces.
    pub fn announced(signal: &Signal) -> (r: Option<u64>)
        ensures
            r == announced_interval(signal@),
    {
        match signal {
            Signal::Envelope(e) => match e.opcode {
                Opcode::Hello => match read_hello(e.payload.as_str()) {
                    Some(interval) if interval > 0 => Some(interval),
                    _ => None,
                },
                _ => None,
            },
            _ => None,
        }
    }

    /// Takes a signal at a time. Where the signal is a Hello, the offset of
    /// the first heartbeat is drawn at random below the interval; in all else
    /// the session and the action are those of [`transition`].
    pub fn step(&mut self, signal: Signal, now: u64) -> (action: Action)
        ensures
            exists|jitter: u64|
                {
                    &&& announced_interval(signal@) matches Some(interval) ==> jitter < interval
                    &&& (final(self)@, action@) == #[trigger] transition(
                        old(self)@,
                        signal@,
                        now,
                        jitter,
                    )
                },
    {
        let jitter = match Session::announced(&signal) {
            Some(interval) => below(interval),
            None => 0,
        };
        self.advance(signal, now, jitter)
    }
}

} // verus!
