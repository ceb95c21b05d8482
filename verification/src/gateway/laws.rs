//! What holds of every run of a session.

use vstd::prelude::*;
use crate::gateway::codec::{EnvelopeView, GatewayError};
use crate::gateway::session::{
    address_of, credentials_of, heartbeat_frame, hello_interval, identify_frame, initial, later,
    resume_frame, send_failure, transition, ActionView, GatewayEventView, Phase, SessionView,
    SignalView, ACK_GRACE_MS,
};

verus! {

/// One thing that happened to a session: a signal, the time at which it came,
/// and the number that a Hello's offset is taken from.
pub struct Moment {
    pub signal: SignalView,
    pub now: u64,
    pub jitter: u64,
}

/// The session after one moment.
pub open spec fn after_moment(s: SessionView, m: Moment) -> SessionView {
    transition(s, m.signal, m.now, m.jitter).0
}

/// What the task is told to do at one moment.
pub open spec fn action_at(s: SessionView, m: Moment) -> ActionView {
    transition(s, m.signal, m.now, m.jitter).1
}

/// The session after a run of moments, the first of them first.
pub open spec fn run(s: SessionView, moments: Seq<Moment>) -> SessionView
    decreases moments.len(),
{
    if moments.len() == 0 {
        s
    } else {
        after_moment(run(s, moments.drop_last()), moments.last())
    }
}

/// How often a run tells the task to close the transport.
pub open spec fn closes(s: SessionView, moments: Seq<Moment>) -> nat
    decreases moments.len(),
{
    if moments.len() == 0 {
        0
    } else {
        let before = closes(s, moments.drop_last());
        if action_at(run(s, moments.drop_last()), moments.last()) is Close {
            before + 1
        } else {
            before
        }
    }
}

/// Whether a signal is a dispatch.
pub open spec fn is_dispatch(signal: SignalView) -> bool {
    signal matches SignalView::Envelope(e) && e.opcode is Dispatch
}

/// Whether a signal is the acknowledgement of a heartbeat.
pub open spec fn is_ack(signal: SignalView) -> bool {
    signal matches SignalView::Envelope(e) && e.opcode is HeartbeatAck
}

/// What a session's fields have to do with each other: a cause is recorded
/// only at the end; nothing is known before Hello; and from Hello on the
/// interval is positive and a heartbeat is scheduled.
pub open spec fn coherent(s: SessionView) -> bool {
    &&& s.cause is Some ==> s.phase is Terminated
    &&& s.phase is AwaitingHello ==> s.interval == 0 && s.next_heartbeat is None
        && s.ack_deadline is None && !s.sending && s.last_sequence is None && s.ready is None
    &&& (s.phase is Identifying || s.phase is Active || s.phase is Resuming) ==> s.interval > 0
        && s.next_heartbeat is Some
}

/// A new session is coherent, and every signal leaves a coherent session
/// coherent.
pub proof fn lemma_coherence(token: Seq<char>, s: SessionView, signal: SignalView, now: u64, jitter: u64)
    ensures
        coherent(initial(token)),
        coherent(s) ==> coherent(transition(s, signal, now, jitter).0),
{
}

/// A session that has ended stays as it is, whatever arrives, and asks for
/// nothing more.
pub proof fn lemma_end_is_final(s: SessionView, signal: SignalView, now: u64, jitter: u64)
    requires
        s.phase is Terminated,
    ensures
        transition(s, signal, now, jitter) == (s, ActionView::Idle),
{
}

/// The task is told to close the transport exactly when the session ends.
pub proof fn lemma_close_marks_the_end(s: SessionView, signal: SignalView, now: u64, jitter: u64)
    requires
        !(s.phase is Terminated),
    ensures
        transition(s, signal, now, jitter).1 is Close <==> transition(s, signal, now, jitter).0.phase
            is Terminated,
{
}

/// In any run of a session the transport is closed at most once, and once
/// exactly when the run ends the session.
pub proof fn lemma_closes_once(s: SessionView, moments: Seq<Moment>)
    requires
        !(s.phase is Terminated),
    ensures
        closes(s, moments) == (if run(s, moments).phase is Terminated {
            1nat
        } else {
            0nat
        }),
    decreases moments.len(),
{
    if moments.len() > 0 {
        lemma_closes_once(s, moments.drop_last());
        let before = run(s, moments.drop_last());
        let m = moments.last();
        if before.phase is Terminated {
            lemma_end_is_final(before, m.signal, m.now, m.jitter);
        } else {
            lemma_close_marks_the_end(before, m.signal, m.now, m.jitter);
        }
    }
}

/// A shutdown request ends any running session without a cause and has the
/// transport closed, whatever state the session is in and whatever else is
/// due at that time.
pub proof fn lemma_shutdown_closes(s: SessionView, now: u64, jitter: u64)
    requires
        !(s.phase is Terminated),
    ensures
        transition(s, SignalView::Shutdown, now, jitter) == (
            SessionView { phase: Phase::Terminated, cause: None, ..s },
            ActionView::Close,
        ),
{
}

/// A dispatch that is taken by a session past its handshake, before any
/// acknowledgement deadline has passed, leaves the session active with the
/// sequence number of that dispatch, whatever event it carries.
pub proof fn lemma_dispatch_keeps_sequence(s: SessionView, e: EnvelopeView, now: u64, jitter: u64)
    requires
        s.phase is Identifying || s.phase is Active,
        e.opcode is Dispatch,
        s.ack_deadline matches Some(d) ==> now < d,
    ensures
        transition(s, SignalView::Envelope(e), now, jitter).0.last_sequence == e.sequence,
        transition(s, SignalView::Envelope(e), now, jitter).0.phase is Active,
        transition(s, SignalView::Envelope(e), now, jitter).0.ack_deadline == s.ack_deadline,
{
}

/// After any run of dispatches fed to an active session, the sequence number
/// that the session holds is that of the last of them. The run is one in which
/// no dispatch comes at or after an acknowledgement deadline that is set.
pub proof fn lemma_sequence_follows_dispatches(s: SessionView, moments: Seq<Moment>)
    requires
        s.phase is Active,
        moments.len() > 0,
        forall|i: int| 0 <= i < moments.len() ==> is_dispatch(#[trigger] moments[i].signal),
        s.ack_deadline matches Some(d) ==> forall|i: int|
            0 <= i < moments.len() ==> (#[trigger] moments[i]).now < d,
    ensures
        run(s, moments).phase is Active,
        run(s, moments).ack_deadline == s.ack_deadline,
        run(s, moments).last_sequence == moments.last().signal->Envelope_0.sequence,
    decreases moments.len(),
{
    let m = moments.last();
    let prefix = moments.drop_last();
    assert(m == moments[moments.len() - 1]);
    assert(is_dispatch(m.signal));
    if prefix.len() > 0 {
        assert forall|i: int| 0 <= i < prefix.len() implies is_dispatch(
            #[trigger] prefix[i].signal,
        ) by {
            assert(prefix[i] == moments[i]);
        }
        if s.ack_deadline is Some {
            assert forall|i: int| 0 <= i < prefix.len() implies (#[trigger] prefix[i]).now
                < s.ack_deadline->0 by {
                assert(prefix[i] == moments[i]);
            }
        }
        lemma_sequence_follows_dispatches(s, prefix);
    } else {
        assert(run(s, prefix) == s);
    }
    lemma_dispatch_keeps_sequence(run(s, prefix), m.signal->Envelope_0, m.now, m.jitter);
}

/// Whether a signal is the remote asking for a heartbeat.
pub open spec fn is_heartbeat_request(signal: SignalView) -> bool {
    signal matches SignalView::Envelope(e) && e.opcode is Heartbeat
}

/// At most one acknowledgement deadline is set at a time, and a deadline is
/// set only for a heartbeat that was sent: a signal that leaves another
/// deadline than it found is the word that the heartbeat was sent, and the
/// deadline lies the grace period after that. The timer has a heartbeat sent
/// only while none is unacknowledged, and whatever is sent as a heartbeat
/// carries the last sequence number.
pub proof fn lemma_one_heartbeat_outstanding(s: SessionView, signal: SignalView, now: u64, jitter: u64)
    ensures
        ({
            let (t, action) = transition(s, signal, now, jitter);
            &&& t.ack_deadline is Some && t.ack_deadline != s.ack_deadline ==> {
                &&& signal is Sent
                &&& s.sending && !t.sending
                &&& t.ack_deadline == Some(later(now, ACK_GRACE_MS))
                &&& action is Idle
            }
            &&& t.sending && !s.sending ==> {
                &&& signal is HeartbeatDue || is_heartbeat_request(signal)
                &&& action == ActionView::Send(heartbeat_frame(s.last_sequence))
                &&& t.ack_deadline == s.ack_deadline
            }
            &&& signal is HeartbeatDue && action == ActionView::Send(heartbeat_frame(s.last_sequence))
                ==> s.ack_deadline is None
        }),
{
}

/// A heartbeat that the remote asks for is always handed out to be sent. In a
/// session past Hello, before any deadline has passed, a Heartbeat envelope
/// gives the heartbeat with the last sequence number; the deadline stays as
/// it is until word comes of the sending, and nothing else changes.
pub proof fn lemma_remote_heartbeat_is_answered(s: SessionView, e: EnvelopeView, now: u64, jitter: u64)
    requires
        s.phase is Identifying || s.phase is Active,
        e.opcode is Heartbeat,
        s.ack_deadline matches Some(d) ==> now < d,
    ensures
        transition(s, SignalView::Envelope(e), now, jitter) == (
            SessionView { sending: true, ..s },
            ActionView::Send(heartbeat_frame(s.last_sequence)),
        ),
{
}

/// The timer hands out a heartbeat and is set anew where none is
/// unacknowledged, and ends the session with `HeartbeatTimeout` where one is.
pub proof fn lemma_timer_heartbeat(s: SessionView, now: u64, jitter: u64)
    requires
        s.phase is Identifying || s.phase is Active,
        s.ack_deadline matches Some(d) ==> now < d,
    ensures
        transition(s, SignalView::HeartbeatDue, now, jitter) == (if s.ack_deadline is None {
            (
                SessionView { sending: true, next_heartbeat: Some(later(now, s.interval)), ..s },
                ActionView::Send(heartbeat_frame(s.last_sequence)),
            )
        } else {
            (
                SessionView {
                    phase: Phase::Terminated,
                    cause: Some(GatewayError::HeartbeatTimeout),
                    ..s
                },
                ActionView::Close,
            )
        }),
{
}

/// The deadline is set when the heartbeat was sent. Word that the heartbeat
/// which was handed out was sent sets the deadline the grace period after
/// that word, in place of any deadline that an earlier heartbeat had set, and
/// changes nothing else. Where no heartbeat was handed out, word that
/// something was sent changes nothing, unless a deadline has passed.
pub proof fn lemma_sent_heartbeat_sets_deadline(s: SessionView, now: u64, jitter: u64)
    requires
        !(s.phase is Terminated),
    ensures
        s.sending ==> transition(s, SignalView::Sent, now, jitter) == (
            SessionView { sending: false, ack_deadline: Some(later(now, ACK_GRACE_MS)), ..s },
            ActionView::Idle,
        ),
        !s.sending && (s.ack_deadline matches Some(d) ==> now < d) ==> transition(
            s,
            SignalView::Sent,
            now,
            jitter,
        ) == (s, ActionView::Idle),
{
}

/// A frame that could not be sent ends the session, whatever the time, with
/// the cause that goes with the phase. No deadline is set for a heartbeat
/// that was not sent: the deadline is what it was before the heartbeat was
/// asked for, and so are the sequence number and what Ready gave.
pub proof fn lemma_failed_send_ends_session(s: SessionView, now: u64, jitter: u64)
    requires
        !(s.phase is Terminated),
    ensures
        transition(s, SignalView::SendFailed, now, jitter) == (
            SessionView {
                phase: Phase::Terminated,
                cause: Some(send_failure(s.phase)),
                sending: false,
                ..s
            },
            ActionView::Close,
        ),
        transition(s, SignalView::SendFailed, now, jitter).0.ack_deadline == s.ack_deadline,
        s.phase is Identifying ==> send_failure(s.phase) == GatewayError::HandshakeRejected,
        s.phase is Active ==> send_failure(s.phase) == GatewayError::ConnectionLost,
        s.phase is Resuming ==> send_failure(s.phase) == GatewayError::ResumeFailed,
{
}

/// A heartbeat that is asked for and cannot be sent leaves the deadline as
/// it was: after the request of the remote, or the timer, and then the word
/// that the frame could not be sent, the session has ended with the deadline
/// that it held before.
pub proof fn lemma_unsent_heartbeat_sets_no_deadline(
    s: SessionView,
    request: SignalView,
    now: u64,
    then: u64,
    jitter: u64,
)
    requires
        s.phase is Identifying || s.phase is Active,
        request is HeartbeatDue || is_heartbeat_request(request),
        request is HeartbeatDue ==> s.ack_deadline is None,
        s.ack_deadline matches Some(d) ==> now < d,
    ensures
        ({
            let (asked, action) = transition(s, request, now, jitter);
            let (after, last) = transition(asked, SignalView::SendFailed, then, jitter);
            &&& action == ActionView::Send(heartbeat_frame(s.last_sequence))
            &&& last is Close
            &&& after.phase is Terminated
            &&& after.cause == Some(send_failure(s.phase))
            &&& after.ack_deadline == s.ack_deadline
            &&& after.last_sequence == s.last_sequence
            &&& after.ready == s.ready
        }),
{
}

/// An acknowledgement that comes in time clears the deadline and changes
/// nothing else; where no deadline is set it changes nothing at all.
pub proof fn lemma_ack_clears_deadline(s: SessionView, e: EnvelopeView, now: u64, jitter: u64)
    requires
        s.phase is Identifying || s.phase is Active,
        e.opcode is HeartbeatAck,
        s.ack_deadline matches Some(d) ==> now < d,
    ensures
        transition(s, SignalView::Envelope(e), now, jitter) == (
            SessionView { ack_deadline: None, ..s },
            ActionView::Idle,
        ),
        s.ack_deadline is None ==> transition(s, SignalView::Envelope(e), now, jitter).0 == s,
{
}

/// Once the acknowledgement deadline has passed and no heartbeat is on its
/// way, whatever arrives next ends the session with `HeartbeatTimeout`,
/// unless it is a shutdown request or the word that a frame could not be
/// sent, which end it on their own account.
pub proof fn lemma_missed_ack_ends_session(s: SessionView, signal: SignalView, now: u64, jitter: u64)
    requires
        !(s.phase is Terminated),
        !(signal is Shutdown),
        !(signal is SendFailed),
        !s.sending,
        s.ack_deadline matches Some(d) && now >= d,
    ensures
        transition(s, signal, now, jitter) == (
            SessionView {
                phase: Phase::Terminated,
                cause: Some(GatewayError::HeartbeatTimeout),
                ..s
            },
            ActionView::Close,
        ),
{
}

/// Nothing but an acknowledgement clears a deadline that is set, and nothing
/// but a new heartbeat that the remote asks for moves it: after any other
/// signal the session has ended or the deadline stands.
pub proof fn lemma_deadline_stands(s: SessionView, signal: SignalView, now: u64, jitter: u64)
    requires
        s.ack_deadline is Some,
        !s.sending,
        !is_ack(signal),
        !is_heartbeat_request(signal),
    ensures
        transition(s, signal, now, jitter).0.phase is Terminated || (transition(
            s,
            signal,
            now,
            jitter,
        ).0.ack_deadline == s.ack_deadline && !transition(s, signal, now, jitter).0.sending && !(
        s.phase is Terminated)),
{
}

/// Whether a run holds neither an acknowledgement nor a request of the
/// remote for a new heartbeat.
pub open spec fn unanswered(moments: Seq<Moment>) -> bool {
    forall|i: int|
        0 <= i < moments.len() ==> !is_ack(#[trigger] moments[i].signal) && !is_heartbeat_request(
            moments[i].signal,
        )
}

/// Heartbeat liveness. A session has sent its last heartbeat and waits for
/// the acknowledgement. If none comes, then whatever else does, the session
/// has ended by the first moment at or after the deadline.
pub proof fn lemma_heartbeat_liveness(s: SessionView, moments: Seq<Moment>)
    requires
        s.ack_deadline is Some,
        !s.sending,
        moments.len() > 0,
        moments.last().now >= s.ack_deadline->0,
        unanswered(moments),
    ensures
        run(s, moments).phase is Terminated,
{
    lemma_deadline_stands_in_run(s, moments.drop_last());
    let before = run(s, moments.drop_last());
    let m = moments.last();
    if before.phase is Terminated {
        lemma_end_is_final(before, m.signal, m.now, m.jitter);
    }
}

/// Heartbeat liveness, with the cause. Where nothing else has ended the
/// session before the deadline passes, and what arrives then is neither a
/// shutdown request nor the word that a frame could not be sent, the session
/// ends with `HeartbeatTimeout`.
pub proof fn lemma_heartbeat_timeout(s: SessionView, moments: Seq<Moment>)
    requires
        s.ack_deadline is Some,
        !s.sending,
        moments.len() > 0,
        moments.last().now >= s.ack_deadline->0,
        !(moments.last().signal is Shutdown),
        !(moments.last().signal is SendFailed),
        !(run(s, moments.drop_last()).phase is Terminated),
        unanswered(moments),
    ensures
        run(s, moments).phase is Terminated,
        run(s, moments).cause == Some(GatewayError::HeartbeatTimeout),
{
    let prefix = moments.drop_last();
    assert forall|i: int| 0 <= i < prefix.len() implies !is_ack(#[trigger] prefix[i].signal)
        && !is_heartbeat_request(prefix[i].signal) by {
        assert(prefix[i] == moments[i]);
    }
    lemma_deadline_stands_in_run(s, prefix);
    let m = moments.last();
    lemma_missed_ack_ends_session(run(s, prefix), m.signal, m.now, m.jitter);
}

/// A run without acknowledgements and without new heartbeats leaves a
/// deadline that is set as it is, unless it ends the session.
pub proof fn lemma_deadline_stands_in_run(s: SessionView, moments: Seq<Moment>)
    requires
        s.ack_deadline is Some,
        !s.sending,
        unanswered(moments),
    ensures
        run(s, moments).phase is Terminated || (run(s, moments).ack_deadline == s.ack_deadline
            && !run(s, moments).sending),
    decreases moments.len(),
{
    if moments.len() > 0 {
        let prefix = moments.drop_last();
        assert forall|i: int| 0 <= i < prefix.len() implies !is_ack(#[trigger] prefix[i].signal)
            && !is_heartbeat_request(prefix[i].signal) by {
            assert(prefix[i] == moments[i]);
        }
        lemma_deadline_stands_in_run(s, prefix);
        let before = run(s, prefix);
        let m = moments.last();
        assert(m == moments[moments.len() - 1]);
        if before.phase is Terminated {
            lemma_end_is_final(before, m.signal, m.now, m.jitter);
        } else {
            lemma_deadline_stands(before, m.signal, m.now, m.jitter);
        }
    }
}

/// A reconnect request that finds credentials is answered with a resume at
/// the address made of the url that Ready gave, and with the frame that
/// carries the token, the session id and the last sequence number. The
/// address depends on nothing else.
pub proof fn lemma_resume_goes_to_resume_url(s: SessionView, e: EnvelopeView, now: u64, jitter: u64)
    requires
        s.phase is Identifying || s.phase is Active,
        e.opcode is Reconnect,
        s.ack_deadline matches Some(d) ==> now < d,
    ensures
        match credentials_of(s) {
            Some(c) => transition(s, SignalView::Envelope(e), now, jitter) == (
                SessionView { phase: Phase::Resuming, ..s },
                ActionView::Resume {
                    url: address_of(c.resume_url),
                    frame: resume_frame(s.token, c.session_id, c.last_sequence),
                },
            ),
            None => transition(s, SignalView::Envelope(e), now, jitter) == (
                SessionView {
                    phase: Phase::Terminated,
                    cause: Some(GatewayError::ResumeFailed),
                    ..s
                },
                ActionView::Close,
            ),
        },
        credentials_of(s) matches Some(c) ==> s.ready matches Some(r) && c.resume_url
            == r.resume_gateway_url,
{
}

/// The first Hello is answered with Identify, and the first heartbeat is set
/// less than one interval after it.
pub proof fn lemma_hello_is_answered_with_identify(
    s: SessionView,
    e: EnvelopeView,
    now: u64,
    jitter: u64,
)
    requires
        s.phase is AwaitingHello,
        coherent(s),
        e.opcode is Hello,
        hello_interval(e.payload) matches Some(interval) && interval > 0,
    ensures
        ({
            let (t, action) = transition(s, SignalView::Envelope(e), now, jitter);
            let interval = hello_interval(e.payload)->0;
            &&& action == ActionView::Send(identify_frame(s.token))
            &&& t.phase is Identifying
            &&& t.interval == interval
            &&& t.ack_deadline is None
            &&& t.next_heartbeat matches Some(due) && now <= due && due - now < interval
        }),
{
    let interval = hello_interval(e.payload)->0;
    assert(jitter % interval < interval);
}

/// An invalid session ends any running session on the spot: nothing is sent
/// and no resume is asked for.
pub proof fn lemma_invalid_session_ends(s: SessionView, e: EnvelopeView, now: u64, jitter: u64)
    requires
        !(s.phase is Terminated),
        e.opcode is InvalidSession,
        s.ack_deadline matches Some(d) ==> now < d,
    ensures
        transition(s, SignalView::Envelope(e), now, jitter) == (
            SessionView {
                phase: Phase::Terminated,
                cause: Some(GatewayError::SessionInvalidated),
                ..s
            },
            ActionView::Close,
        ),
{
}

/// The events that a run hands to the consumer, in order.
pub open spec fn forwarded(s: SessionView, moments: Seq<Moment>) -> Seq<GatewayEventView>
    decreases moments.len(),
{
    if moments.len() == 0 {
        Seq::empty()
    } else {
        let before = forwarded(s, moments.drop_last());
        match action_at(run(s, moments.drop_last()), moments.last()) {
            ActionView::Forward(event) => before.push(event),
            _ => before,
        }
    }
}

/// Whether a signal is a dispatch of an interaction.
pub open spec fn is_interaction(signal: SignalView) -> bool {
    signal matches SignalView::Envelope(e) && e.opcode is Dispatch && e.event_name == Some(
        "INTERACTION_CREATE"@,
    )
}

/// Ready is never handed to the consumer: no signal in any state has it
/// forwarded.
pub proof fn lemma_ready_is_never_forwarded(s: SessionView, signal: SignalView, now: u64, jitter: u64)
    ensures
        !(transition(s, signal, now, jitter).1 matches ActionView::Forward(
            GatewayEventView::Ready(_),
        )),
{
    reveal_strlit("READY");
    reveal_strlit("INTERACTION_CREATE");
}

/// A dispatch of an interaction that is taken by a session past Hello,
/// before any deadline has passed, is handed to the consumer as it is, once:
/// the one action is to forward the interaction with the payload of the
/// dispatch, and the sequence number of the dispatch is kept.
pub proof fn lemma_interaction_is_forwarded(s: SessionView, e: EnvelopeView, now: u64, jitter: u64)
    requires
        s.phase is Identifying || s.phase is Active,
        is_interaction(SignalView::Envelope(e)),
        s.ack_deadline matches Some(d) ==> now < d,
    ensures
        transition(s, SignalView::Envelope(e), now, jitter) == (
            SessionView { phase: Phase::Active, last_sequence: e.sequence, ..s },
            ActionView::Forward(GatewayEventView::InteractionCreate(e.payload)),
        ),
{
    reveal_strlit("READY");
    reveal_strlit("INTERACTION_CREATE");
    assert("INTERACTION_CREATE"@.len() != "READY"@.len());
}

/// One signal hands the consumer one event at most, and a run hands on what
/// its signals do, in their order.
pub proof fn lemma_forwarded_grows(s: SessionView, moments: Seq<Moment>, m: Moment)
    ensures
        forwarded(s, moments.push(m)) == (match action_at(run(s, moments), m) {
            ActionView::Forward(event) => forwarded(s, moments).push(event),
            _ => forwarded(s, moments),
        }),
        run(s, moments.push(m)) == after_moment(run(s, moments), m),
{
    assert(moments.push(m).drop_last() =~= moments);
    assert(moments.push(m).last() == m);
}

/// Once a session has ended, the consumer is handed nothing more: a run of
/// a session that has ended forwards no event, whatever arrives.
pub proof fn lemma_nothing_follows_the_end(s: SessionView, moments: Seq<Moment>)
    requires
        s.phase is Terminated,
    ensures
        forwarded(s, moments) == Seq::<GatewayEventView>::empty(),
        run(s, moments) == s,
    decreases moments.len(),
{
    if moments.len() > 0 {
        lemma_nothing_follows_the_end(s, moments.drop_last());
        let m = moments.last();
        lemma_end_is_final(s, m.signal, m.now, m.jitter);
    }
}

/// After an invalid session nothing more is handed to the consumer: the
/// envelope itself forwards nothing and ends the session, and so does
/// nothing that arrives after it.
pub proof fn lemma_invalid_session_exhausts_events(
    s: SessionView,
    invalid: Moment,
    later_moments: Seq<Moment>,
)
    requires
        !(s.phase is Terminated),
        invalid.signal matches SignalView::Envelope(e) && e.opcode is InvalidSession,
    ensures
        run(s, seq![invalid] + later_moments).phase is Terminated,
        forwarded(s, seq![invalid] + later_moments) == Seq::<GatewayEventView>::empty(),
    decreases later_moments.len(),
{
    let first = seq![invalid];
    assert(first.drop_last() =~= Seq::<Moment>::empty());
    assert(first.last() == invalid);
    assert(run(s, first.drop_last()) == s);
    assert(forwarded(s, first.drop_last()) == Seq::<GatewayEventView>::empty());
    let ended = run(s, first);
    assert(ended.phase is Terminated);
    assert(forwarded(s, first) == Seq::<GatewayEventView>::empty());
    if later_moments.len() == 0 {
        assert(first + later_moments =~= first);
    } else {
        let shorter = later_moments.drop_last();
        lemma_invalid_session_exhausts_events(s, invalid, shorter);
        assert((first + later_moments).drop_last() =~= first + shorter);
        assert((first + later_moments).last() == later_moments.last());
        let m = later_moments.last();
        lemma_end_is_final(run(s, first + shorter), m.signal, m.now, m.jitter);
    }
}

} // verus!
