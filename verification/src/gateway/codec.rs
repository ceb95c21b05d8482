//! The wire envelope and its codec.
//!
//! A frame is a JSON object with the members `op` and `d`, and on dispatches
//! `s` and `t`. Parsing and string quoting are `serde_json`'s; which members
//! make an envelope, and which text an envelope is written as, is decided here.

use vstd::prelude::*;
use vstd::string::*;
use crate::json::{
    json_parsed, json_quoted, member_text, parse, quote, read_member, read_text, read_u64, slot_text,
    slot_u64, slot_view, Slot,
};
use crate::text::{decimal_text, push_decimal};

verus! {

/// The purpose of an envelope.
#[derive(Clone, Copy, Debug, PartialEq, Eq, Structural)]
pub enum Opcode {
    Dispatch,
    Heartbeat,
    Identify,
    Resume,
    Reconnect,
    InvalidSession,
    Hello,
    HeartbeatAck,
}

impl Opcode {
    /// The number that stands for this opcode on the wire.
    pub open spec fn code(self) -> u64 {
        match self {
            Opcode::Dispatch => 0,
            Opcode::Heartbeat => 1,
            Opcode::Identify => 2,
            Opcode::Resume => 6,
            Opcode::Reconnect => 7,
            Opcode::InvalidSession => 9,
            Opcode::Hello => 10,
            Opcode::HeartbeatAck => 11,
        }
    }

    /// The opcode that a number stands for, if any.
    pub open spec fn of_code(n: u64) -> Option<Opcode> {
        if n == 0 {
            Some(Opcode::Dispatch)
        } else if n == 1 {
            Some(Opcode::Heartbeat)
        } else if n == 2 {
            Some(Opcode::Identify)
        } else if n == 6 {
            Some(Opcode::Resume)
        } else if n == 7 {
            Some(Opcode::Reconnect)
        } else if n == 9 {
            Some(Opcode::InvalidSession)
        } else if n == 10 {
            Some(Opcode::Hello)
        } else if n == 11 {
            Some(Opcode::HeartbeatAck)
        } else {
            None
        }
    }

    /// The wire number of this opcode.
    pub fn to_code(self) -> (n: u64)
        ensures
            n == self.code(),
    {
        match self {
            Opcode::Dispatch => 0,
            Opcode::Heartbeat => 1,
            Opcode::Identify => 2,
            Opcode::Resume => 6,
            Opcode::Reconnect => 7,
            Opcode::InvalidSession => 9,
            Opcode::Hello => 10,
            Opcode::HeartbeatAck => 11,
        }
    }

    /// Reads an opcode from its wire number.
    pub fn from_code(n: u64) -> (r: Option<Opcode>)
        ensures
            r == Opcode::of_code(n),
    {
        if n == 0 {
            Some(Opcode::Dispatch)
        } else if n == 1 {
            Some(Opcode::Heartbeat)
        } else if n == 2 {
            Some(Opcode::Identify)
        } else if n == 6 {
            Some(Opcode::Resume)
        } else if n == 7 {
            Some(Opcode::Reconnect)
        } else if n == 9 {
            Some(Opcode::InvalidSession)
        } else if n == 10 {
            Some(Opcode::Hello)
        } else if n == 11 {
            Some(Opcode::HeartbeatAck)
        } else {
            None
        }
    }
}

/// Why a connection attempt or a session failed.
#[derive(Clone, Copy, Debug, PartialEq, Eq, Structural)]
pub enum GatewayError {
    /// The gateway address could not be resolved.
    DiscoveryFailed,
    /// The socket could not be opened.
    TransportOpenFailed,
    /// The Identify frame could not be sent.
    HandshakeRejected,
    /// A frame was not an envelope.
    MalformedFrame,
    /// The stream ended, was closed, or carried a frame that was no envelope.
    ConnectionLost,
    /// A heartbeat was not acknowledged in time.
    HeartbeatTimeout,
    /// The remote declared the session invalid.
    SessionInvalidated,
    /// A resume was asked for and could not be made.
    ResumeFailed,
}

/// One message of the gateway.
#[derive(Clone, Debug, PartialEq, Eq)]
pub struct Envelope {
    pub opcode: Opcode,
    /// The payload, as JSON text.
    pub payload: String,
    pub sequence: Option<u32>,
    pub event_name: Option<String>,
}

/// An envelope as a mathematical value.
pub struct EnvelopeView {
    pub opcode: Opcode,
    pub payload: Seq<char>,
    pub sequence: Option<u32>,
    pub event_name: Option<Seq<char>>,
}

impl View for Envelope {
    type V = EnvelopeView;

    open spec fn view(&self) -> EnvelopeView {
        EnvelopeView {
            opcode: self.opcode,
            payload: self.payload@,
            sequence: self.sequence,
            event_name: match self.event_name {
                Some(t) => Some(t@),
                None => None,
            },
        }
    }
}

/// The four members of a frame, as they were found in it.
pub struct Fields {
    pub op: Slot<u64>,
    pub d: Option<String>,
    pub s: Slot<u64>,
    pub t: Slot<String>,
}

/// The members of a frame as mathematical values.
pub struct FieldsView {
    pub op: Slot<u64>,
    pub d: Option<Seq<char>>,
    pub s: Slot<u64>,
    pub t: Slot<Seq<char>>,
}

impl View for Fields {
    type V = FieldsView;

    open spec fn view(&self) -> FieldsView {
        FieldsView {
            op: self.op,
            d: match self.d {
                Some(d) => Some(d@),
                None => None,
            },
            s: self.s,
            t: slot_view(self.t),
        }
    }
}

/// The members found in a frame; `None` where the text is not JSON.
pub open spec fn frame_fields(frame: Seq<char>) -> Option<FieldsView> {
    match json_parsed(frame) {
        None => None,
        Some(doc) => Some(
            FieldsView {
                op: slot_u64(doc, "op"@),
                d: member_text(doc, "d"@),
                s: slot_u64(doc, "s"@),
                t: slot_text(doc, "t"@),
            },
        ),
    }
}

/// The envelope that four members make. They make one when `op` holds one of
/// the eight opcodes, `d` is there, `s` is absent, null or a number that fits
/// 32 bits, and `t` is absent, null or a string.
pub open spec fn envelope_of(f: FieldsView) -> Result<EnvelopeView, GatewayError> {
    match (f.op, f.d) {
        (Slot::Holds(n), Some(d)) => match Opcode::of_code(n) {
            None => Err(GatewayError::MalformedFrame),
            Some(opcode) => {
                let s_ok = match f.s {
                    Slot::Holds(k) => k <= u32::MAX,
                    Slot::Mistyped => false,
                    _ => true,
                };
                if !s_ok || f.t is Mistyped {
                    Err(GatewayError::MalformedFrame)
                } else {
                    Ok(
                        EnvelopeView {
                            opcode,
                            payload: d,
                            sequence: match f.s {
                                Slot::Holds(k) => Some(k as u32),
                                _ => None,
                            },
                            event_name: match f.t {
                                Slot::Holds(t) => Some(t),
                                _ => None,
                            },
                        },
                    )
                }
            },
        },
        _ => Err(GatewayError::MalformedFrame),
    }
}

/// The members that an envelope is written with: `s` and `t` are left out,
/// not written as null, when the envelope has none.
pub open spec fn fields_of(e: EnvelopeView) -> FieldsView {
    FieldsView {
        op: Slot::Holds(e.opcode.code()),
        d: Some(e.payload),
        s: match e.sequence {
            Some(k) => Slot::Holds(k as u64),
            None => Slot::Missing,
        },
        t: match e.event_name {
            Some(t) => Slot::Holds(t),
            None => Slot::Missing,
        },
    }
}

/// The text of a frame with these members, in the order `op`, `d`, `s`, `t`.
/// A member is written only where its slot holds a value.
pub open spec fn frame_text(f: FieldsView) -> Seq<char> {
    "{"@ + (match f.op {
        Slot::Holds(n) => "\"op\":"@ + decimal_text(n as nat),
        _ => Seq::empty(),
    }) + (match f.d {
        Some(d) => ",\"d\":"@ + d,
        None => Seq::empty(),
    }) + (match f.s {
        Slot::Holds(k) => ",\"s\":"@ + decimal_text(k as nat),
        _ => Seq::empty(),
    }) + (match f.t {
        Slot::Holds(t) => ",\"t\":"@ + json_quoted(t),
        _ => Seq::empty(),
    }) + "}"@
}

/// The frame that an envelope is written as.
pub open spec fn encoded(e: EnvelopeView) -> Seq<char> {
    frame_text(fields_of(e))
}

/// What a frame decodes to.
pub open spec fn decoded(frame: Seq<char>) -> Result<EnvelopeView, GatewayError> {
    match frame_fields(frame) {
        None => Err(GatewayError::MalformedFrame),
        Some(f) => envelope_of(f),
    }
}

/// Whether a result of decoding is the one that the specification gives.
pub open spec fn decodes_to(r: Result<Envelope, GatewayError>, e: Result<EnvelopeView, GatewayError>) -> bool {
    match r {
        Ok(envelope) => e == Ok::<EnvelopeView, GatewayError>(envelope@),
        Err(error) => e == Err::<EnvelopeView, GatewayError>(error),
    }
}

impl Envelope {
    /// Whether the sequence number and the event name are there together or
    /// not at all, as they are on every frame that the gateway sends.
    pub open spec fn paired(self) -> bool {
        self.sequence is Some <==> self.event_name is Some
    }

    /// Checks that sequence number and event name come together.
    pub fn is_paired(&self) -> (r: bool)
        ensures
            r == self.paired(),
    {
        self.sequence.is_some() == self.event_name.is_some()
    }

    /// Makes an envelope of the members of a frame, or says that they make none.
    pub fn from_fields(fields: Fields) -> (r: Result<Envelope, GatewayError>)
        ensures
            decodes_to(r, envelope_of(fields@)),
    {
        let Fields { op, d, s, t } = fields;
        let code = match op {
            Slot::Holds(n) => n,
            _ => {
                return Err(GatewayError::MalformedFrame);
            },
        };
        let payload = match d {
            Some(d) => d,
            None => {
                return Err(GatewayError::MalformedFrame);
            },
        };
        let opcode = match Opcode::from_code(code) {
            Some(opcode) => opcode,
            None => {
                return Err(GatewayError::MalformedFrame);
            },
        };
        let sequence = match s {
            Slot::Holds(k) => {
                if k > 0xffff_ffff {
                    return Err(GatewayError::MalformedFrame);
                }
                Some(k as u32)
            },
            Slot::Mistyped => {
                return Err(GatewayError::MalformedFrame);
            },
            _ => None,
        };
        let event_name = match t {
            Slot::Holds(t) => Some(t),
            Slot::Mistyped => {
                return Err(GatewayError::MalformedFrame);
            },
            _ => None,
        };
        Ok(Envelope { opcode, payload, sequence, event_name })
    }

    /// Writes this envelope as a frame.
    pub fn encode(&self) -> (r: String)
        ensures
            r@ == encoded(self@),
    {
        match &self.event_name {
            Some(t) => encode(self.opcode, self.payload.as_str(), self.sequence, Some(t.as_str())),
            None => encode(self.opcode, self.payload.as_str(), self.sequence, None),
        }
    }
}

/// Reads the four members of a frame; `None` where the text is not JSON.
pub fn read_fields(frame: &str) -> (r: Option<Fields>)
    ensures
        r.is_some() == frame_fields(frame@).is_some(),
        r matches Some(f) ==> frame_fields(frame@) == Some(f@),
{
    match parse(frame) {
        Err(_) => None,
        Ok(doc) => {
            let op = read_u64(&doc, "op");
            let d = read_member(&doc, "d");
            let s = read_u64(&doc, "s");
            let t = read_text(&doc, "t");
            Some(Fields { op, d, s, t })
        },
    }
}

/// Decodes a frame. It fails with `MalformedFrame`, and only then, when the
/// text is not JSON or its members make no envelope.
pub fn decode(frame: &str) -> (r: Result<Envelope, GatewayError>)
    ensures
        decodes_to(r, decoded(frame@)),
{
    match read_fields(frame) {
        None => Err(GatewayError::MalformedFrame),
        Some(fields) => Envelope::from_fields(fields),
    }
}

/// Writes a frame: the opcode's number, the payload as it is given, and the
/// sequence number and the event name where there is one.
pub fn encode(opcode: Opcode, payload: &str, sequence: Option<u32>, event_name: Option<&str>) -> (r:
    String)
    ensures
        r@ == encoded(
            EnvelopeView {
                opcode,
                payload: payload@,
                sequence,
                event_name: match event_name {
                    Some(t) => Some(t@),
                    None => None,
                },
            },
        ),
{
    let mut r = String::from_str("{");
    r.append("\"op\":");
    push_decimal(&mut r, opcode.to_code());
    r.append(",\"d\":");
    r.append(payload);
    match sequence {
        Some(k) => {
            r.append(",\"s\":");
            push_decimal(&mut r, k as u64);
        },
        None => {
            assert(r@ + Seq::<char>::empty() =~= r@);
        },
    }
    match event_name {
        Some(t) => {
            r.append(",\"t\":");
            let q = quote(t);
            r.append(q.as_str());
        },
        None => {
            assert(r@ + Seq::<char>::empty() =~= r@);
        },
    }
    r.append("}");
    proof {
        let e = EnvelopeView {
            opcode,
            payload: payload@,
            sequence,
            event_name: match event_name {
                Some(t) => Some(t@),
                None => None,
            },
        };
        assert(r@ =~= encoded(e));
    }
    r
}

/// Writing an envelope and reading its members back gives the envelope
/// again: one written without sequence number and event name has neither
/// member, and one written with both has both, unchanged.
pub proof fn lemma_fields_round_trip(e: EnvelopeView)
    ensures
        envelope_of(fields_of(e)) == Ok::<EnvelopeView, GatewayError>(e),
        fields_of(e).s is Missing <==> e.sequence is None,
        fields_of(e).t is Missing <==> e.event_name is None,
        !(fields_of(e).s is Null) && !(fields_of(e).t is Null),
{
    let f = fields_of(e);
    assert(Opcode::of_code(e.opcode.code()) == Some(e.opcode));
    match e.sequence {
        Some(k) => {
            assert((k as u64) as u32 == k);
        },
        None => {},
    }
    assert(envelope_of(f)->Ok_0 =~= e);
}

/// Every opcode is read back from its wire number, and the eight numbers are
/// the only ones that stand for an opcode.
pub proof fn lemma_opcode_codes(op: Opcode, n: u64)
    ensures
        Opcode::of_code(op.code()) == Some(op),
        Opcode::of_code(n) matches Some(o) ==> o.code() == n,
        Opcode::of_code(n) is Some <==> (n == 0 || n == 1 || n == 2 || n == 6 || n == 7 || n == 9
            || n == 10 || n == 11),
{
}

} // verus!
