//! The client-facing side of a RabbitMQ session: the handshake Warpgate
//! plays as a broker, up to the point where the client's connection is
//! spliced onto the target's.
//!
//! AMQP's handshake is driven entirely by the client: Warpgate answers the
//! protocol header with a synthetic `Connection.Start` advertising `PLAIN`
//! as the only SASL mechanism, then reads the `StartOk` back to recover the
//! `user#target` selector and password carried in its response. The session
//! is a state machine: the caller performs each action (reading, writing,
//! authorizing, dialing the target, relaying) and reports what happened.
use vstd::prelude::*;

use crate::frames::{
    close_frame, open_ok_frame, spec_close_frame, spec_open_ok_frame, spec_start_frame,
    start_frame, ConnectionMethod, FrameKind, OutboundFrame, OutboundFrameSpec,
};
use crate::idle::{format_span, humantime_text};
use crate::relay::RelayEnd;
use crate::sasl::{
    law_plain_response_round_trip, parse_plain_response, plain_response_bytes, plain_response_split,
};
use crate::span::Span;
use crate::text::{push_str, str_eq, utf8_lossy};
use crate::tune::{protocol_header, PROTOCOL_HEADER};

verus! {

/// Where a client session stands in the handshake.
#[derive(Clone, Copy, Debug, PartialEq, Eq, Structural)]
pub enum SessionPhase {
    /// Waiting for the client's protocol header.
    AwaitHeader,
    /// `Connection.Start` sent; waiting for `StartOk`.
    AwaitStartOk,
    /// The credentials are being checked and a target selected.
    Authorizing,
    /// Logged in (`Connection.Tune` sent); waiting for `TuneOk`.
    AwaitTuneOk,
    /// Waiting for `Connection.Open`.
    AwaitOpen,
    /// Dialing the target broker.
    Connecting,
    /// Relaying bytes between client and target.
    Relaying,
    /// The session is over.
    Finished,
}

/// What the caller observed after performing the last action.
#[derive(Clone, Debug, PartialEq, Eq)]
pub enum SessionEvent {
    /// The client's 8-byte protocol header.
    HeaderRead(Vec<u8>),
    /// The protocol header could not be read.
    HeaderUnreadable,
    /// A frame from the client.
    FrameRead(FrameKind),
    /// Authorization ended without an approved target.
    AuthorizationEnded,
    /// A target was approved; whether it is a RabbitMQ target.
    TargetApproved { rabbitmq: bool },
    /// The target broker accepted Warpgate's login and opened the vhost.
    TargetConnected,
    /// Dialing or logging into the target broker failed.
    TargetFailed,
    /// The relay ended.
    RelayEnded(RelayEnd),
}

/// What the caller does next.
#[derive(Clone, Debug, PartialEq, Eq)]
pub enum SessionAction {
    /// Answer with the protocol header Warpgate supports and end.
    ReplyHeaderAndFinish,
    /// Write the frame, then read the client's next frame.
    SendAndRead(OutboundFrame),
    /// Run authorization with these credentials; the `user#target` selector
    /// is the username.
    Authorize { username: String, password: String },
    /// Read the client's next frame.
    ReadFrame,
    /// Dial the target broker and open this virtual host there.
    Connect { virtual_host: String },
    /// Write the frame (`Connection.OpenOk`), then relay.
    OpenAndRelay(OutboundFrame),
    /// Write the `Connection.Close`, give the client a moment to answer, end.
    CloseAndFinish(OutboundFrame),
    /// As `CloseAndFinish`, then report the target's error.
    CloseAndFail(OutboundFrame),
    /// End the session.
    Finish,
}

/// A session action as plain values.
pub enum SessionActionSpec {
    ReplyHeaderAndFinish,
    SendAndRead(OutboundFrameSpec),
    Authorize { username: Seq<char>, password: Seq<char> },
    ReadFrame,
    Connect { virtual_host: Seq<char> },
    OpenAndRelay(OutboundFrameSpec),
    CloseAndFinish(OutboundFrameSpec),
    CloseAndFail(OutboundFrameSpec),
    Finish,
}

impl View for SessionAction {
    type V = SessionActionSpec;

    open spec fn view(&self) -> SessionActionSpec {
        match self {
            SessionAction::ReplyHeaderAndFinish => SessionActionSpec::ReplyHeaderAndFinish,
            SessionAction::SendAndRead(f) => SessionActionSpec::SendAndRead(f@),
            SessionAction::Authorize { username, password } => SessionActionSpec::Authorize {
                username: username@,
                password: password@,
            },
            SessionAction::ReadFrame => SessionActionSpec::ReadFrame,
            SessionAction::Connect { virtual_host } => SessionActionSpec::Connect {
                virtual_host: virtual_host@,
            },
            SessionAction::OpenAndRelay(f) => SessionActionSpec::OpenAndRelay(f@),
            SessionAction::CloseAndFinish(f) => SessionActionSpec::CloseAndFinish(f@),
            SessionAction::CloseAndFail(f) => SessionActionSpec::CloseAndFail(f@),
            SessionAction::Finish => SessionActionSpec::Finish,
        }
    }
}

/// The reply text of a close for a frame other than the one expected.
pub open spec fn expected_text(method: Seq<char>) -> Seq<char> {
    "COMMAND_INVALID - expected Connection."@ + method
}

/// Closing with `code` and `text`, then finishing.
pub open spec fn close_and_finish(code: u16, text: Seq<char>) -> (SessionPhase, SessionActionSpec) {
    (SessionPhase::Finished, SessionActionSpec::CloseAndFinish(spec_close_frame(code, text)))
}

/// The close a client gets when its session was idle too long.
pub open spec fn idle_close_text(elapsed: Span, timeout: Span) -> Seq<char> {
    "CONNECTION_FORCED - Session idle for "@ + humantime_text(elapsed.secs, elapsed.nanos)
        + " exceeded configured timeout of "@ + humantime_text(timeout.secs, timeout.nanos)
        + ". Please reconnect."@
}

/// The close a client gets when its login was refused.
pub open spec fn denied_text() -> Seq<char> {
    "ACCESS_REFUSED - Login was refused using authentication mechanism PLAIN. For details see the broker logfile."@
}

/// The spans an event carries are well formed.
pub open spec fn event_wf(event: SessionEvent) -> bool {
    event matches SessionEvent::RelayEnded(RelayEnd::IdleTimeout { elapsed, timeout }) ==> (
    elapsed.wf() && timeout.wf())
}

/// How a client session moves on an event: the next phase and the action
/// to perform. `version` is Warpgate's version, sent in `Connection.Start`.
pub open spec fn spec_session_step(
    phase: SessionPhase,
    event: SessionEvent,
    version: Seq<char>,
) -> (SessionPhase, SessionActionSpec) {
    match phase {
        SessionPhase::AwaitHeader => match event {
            SessionEvent::HeaderRead(h) => if h@ == protocol_header() {
                (SessionPhase::AwaitStartOk, SessionActionSpec::SendAndRead(spec_start_frame(version)))
            } else {
                (SessionPhase::Finished, SessionActionSpec::ReplyHeaderAndFinish)
            },
            _ => (SessionPhase::Finished, SessionActionSpec::Finish),
        },
        SessionPhase::AwaitStartOk => match event {
            SessionEvent::FrameRead(
                FrameKind::Connection { channel, method: ConnectionMethod::StartOk { mechanism, response } },
            ) if channel == 0 => if mechanism@ != "PLAIN"@ {
                close_and_finish(503, "COMMAND_INVALID - only the PLAIN SASL mechanism is supported"@)
            } else {
                match plain_response_split(response@) {
                    None => close_and_finish(503, "COMMAND_INVALID - malformed PLAIN response"@),
                    Some((user, pass)) => (
                        SessionPhase::Authorizing,
                        SessionActionSpec::Authorize {
                            username: utf8_lossy(user),
                            password: utf8_lossy(pass),
                        },
                    ),
                }
            },
            SessionEvent::FrameRead(_) => close_and_finish(503, expected_text("StartOk"@)),
            _ => (SessionPhase::Finished, SessionActionSpec::Finish),
        },
        SessionPhase::Authorizing => match event {
            SessionEvent::TargetApproved { rabbitmq } => if rabbitmq {
                (SessionPhase::AwaitTuneOk, SessionActionSpec::ReadFrame)
            } else {
                close_and_finish(530, "NOT_ALLOWED - Warpgate target not found"@)
            },
            _ => (SessionPhase::Finished, SessionActionSpec::Finish),
        },
        SessionPhase::AwaitTuneOk => match event {
            SessionEvent::FrameRead(
                FrameKind::Connection { channel, method: ConnectionMethod::TuneOk },
            ) if channel == 0 => (SessionPhase::AwaitOpen, SessionActionSpec::ReadFrame),
            SessionEvent::FrameRead(_) => close_and_finish(503, expected_text("TuneOk"@)),
            _ => (SessionPhase::Finished, SessionActionSpec::Finish),
        },
        SessionPhase::AwaitOpen => match event {
            SessionEvent::FrameRead(
                FrameKind::Connection { channel, method: ConnectionMethod::Open { virtual_host } },
            ) if channel == 0 => (
                SessionPhase::Connecting,
                SessionActionSpec::Connect { virtual_host: virtual_host@ },
            ),
            SessionEvent::FrameRead(_) => close_and_finish(503, expected_text("Open"@)),
            _ => (SessionPhase::Finished, SessionActionSpec::Finish),
        },
        SessionPhase::Connecting => match event {
            SessionEvent::TargetConnected => (
                SessionPhase::Relaying,
                SessionActionSpec::OpenAndRelay(spec_open_ok_frame()),
            ),
            SessionEvent::TargetFailed => (
                SessionPhase::Finished,
                SessionActionSpec::CloseAndFail(
                    spec_close_frame(541, "INTERNAL_ERROR - Warpgate target connection failed"@),
                ),
            ),
            _ => (SessionPhase::Finished, SessionActionSpec::Finish),
        },
        SessionPhase::Relaying => match event {
            SessionEvent::RelayEnded(RelayEnd::IdleTimeout { elapsed, timeout }) =>
                close_and_finish(530, idle_close_text(elapsed, timeout)),
            _ => (SessionPhase::Finished, SessionActionSpec::Finish),
        },
        SessionPhase::Finished => (SessionPhase::Finished, SessionActionSpec::Finish),
    }
}

fn close_with(code: u16, text: &str) -> (r: (SessionPhase, SessionAction))
    ensures
        (r.0, r.1@) == close_and_finish(code, text@),
{
    (SessionPhase::Finished, SessionAction::CloseAndFinish(close_frame(code, String::from_str(text))))
}

fn expected_close(method: &str) -> (r: (SessionPhase, SessionAction))
    ensures
        (r.0, r.1@) == close_and_finish(503, expected_text(method@)),
{
    let mut text = String::from_str("COMMAND_INVALID - expected Connection.");
    push_str(&mut text, method);
    (SessionPhase::Finished, SessionAction::CloseAndFinish(close_frame(503, text)))
}

/// The text of the close sent when a session was idle for too long.
pub fn idle_close(elapsed: Span, timeout: Span) -> (text: String)
    requires
        elapsed.wf(),
        timeout.wf(),
    ensures
        text@ == idle_close_text(elapsed, timeout),
{
    let mut text = String::from_str("CONNECTION_FORCED - Session idle for ");
    let e = format_span(elapsed);
    push_str(&mut text, e.as_str());
    push_str(&mut text, " exceeded configured timeout of ");
    let t = format_span(timeout);
    push_str(&mut text, t.as_str());
    push_str(&mut text, ". Please reconnect.");
    text
}

/// The `Connection.Close` a refused login gets: AMQP has no other way to
/// tell the client.
pub fn denied_close_frame() -> (f: OutboundFrame)
    ensures
        f@ == spec_close_frame(530, denied_text()),
{
    close_frame(
        530,
        String::from_str(
            "ACCESS_REFUSED - Login was refused using authentication mechanism PLAIN. For details see the broker logfile.",
        ),
    )
}

fn is_protocol_header(h: &Vec<u8>) -> (r: bool)
    ensures
        r == (h@ == protocol_header()),
{
    if h.len() != 8 {
        return false;
    }
    let ok = h[0] == PROTOCOL_HEADER[0] && h[1] == PROTOCOL_HEADER[1] && h[2] == PROTOCOL_HEADER[2]
        && h[3] == PROTOCOL_HEADER[3] && h[4] == PROTOCOL_HEADER[4] && h[5] == PROTOCOL_HEADER[5]
        && h[6] == PROTOCOL_HEADER[6] && h[7] == PROTOCOL_HEADER[7];
    if ok {
        assert(h@ =~= protocol_header());
    } else {
        assert(h@ != protocol_header()) by {
            if h@ == protocol_header() {
                assert(h@[0] == 0x41u8);
            }
        }
    }
    ok
}

/// Advances a client session by one event: returns the next phase and the
/// action the caller performs.
pub fn session_step(phase: SessionPhase, event: SessionEvent, version: &str) -> (r: (
    SessionPhase,
    SessionAction,
))
    requires
        event_wf(event),
    ensures
        (r.0, r.1@) == spec_session_step(phase, event, version@),
{
    match phase {
        SessionPhase::AwaitHeader => match event {
            SessionEvent::HeaderRead(h) => if is_protocol_header(&h) {
                (SessionPhase::AwaitStartOk, SessionAction::SendAndRead(start_frame(version)))
            } else {
                (SessionPhase::Finished, SessionAction::ReplyHeaderAndFinish)
            },
            _ => (SessionPhase::Finished, SessionAction::Finish),
        },
        SessionPhase::AwaitStartOk => match event {
            SessionEvent::FrameRead(
                FrameKind::Connection { channel, method: ConnectionMethod::StartOk { mechanism, response } },
            ) if channel == 0 => if !str_eq(mechanism.as_str(), "PLAIN") {
                close_with(503, "COMMAND_INVALID - only the PLAIN SASL mechanism is supported")
            } else {
                match parse_plain_response(response.as_slice()) {
                    None => close_with(503, "COMMAND_INVALID - malformed PLAIN response"),
                    Some((username, password)) => (
                        SessionPhase::Authorizing,
                        SessionAction::Authorize { username, password },
                    ),
                }
            },
            SessionEvent::FrameRead(_) => expected_close("StartOk"),
            _ => (SessionPhase::Finished, SessionAction::Finish),
        },
        SessionPhase::Authorizing => match event {
            SessionEvent::TargetApproved { rabbitmq } => if rabbitmq {
                (SessionPhase::AwaitTuneOk, SessionAction::ReadFrame)
            } else {
                close_with(530, "NOT_ALLOWED - Warpgate target not found")
            },
            _ => (SessionPhase::Finished, SessionAction::Finish),
        },
        SessionPhase::AwaitTuneOk => match event {
            SessionEvent::FrameRead(
                FrameKind::Connection { channel, method: ConnectionMethod::TuneOk },
            ) if channel == 0 => (SessionPhase::AwaitOpen, SessionAction::ReadFrame),
            SessionEvent::FrameRead(_) => expected_close("TuneOk"),
            _ => (SessionPhase::Finished, SessionAction::Finish),
        },
        SessionPhase::AwaitOpen => match event {
            SessionEvent::FrameRead(
                FrameKind::Connection { channel, method: ConnectionMethod::Open { virtual_host } },
            ) if channel == 0 => (SessionPhase::Connecting, SessionAction::Connect { virtual_host }),
            SessionEvent::FrameRead(_) => expected_close("Open"),
            _ => (SessionPhase::Finished, SessionAction::Finish),
        },
        SessionPhase::Connecting => match event {
            SessionEvent::TargetConnected => (
                SessionPhase::Relaying,
                SessionAction::OpenAndRelay(open_ok_frame()),
            ),
            SessionEvent::TargetFailed => (
                SessionPhase::Finished,
                SessionAction::CloseAndFail(
                    close_frame(541, String::from_str("INTERNAL_ERROR - Warpgate target connection failed")),
                ),
            ),
            _ => (SessionPhase::Finished, SessionAction::Finish),
        },
        SessionPhase::Relaying => match event {
            SessionEvent::RelayEnded(RelayEnd::IdleTimeout { elapsed, timeout }) => (
                SessionPhase::Finished,
                SessionAction::CloseAndFinish(close_frame(530, idle_close(elapsed, timeout))),
            ),
            _ => (SessionPhase::Finished, SessionAction::Finish),
        },
        SessionPhase::Finished => (SessionPhase::Finished, SessionAction::Finish),
    }
}

/// How far a phase is along the handshake.
pub open spec fn phase_rank(phase: SessionPhase) -> int {
    match phase {
        SessionPhase::AwaitHeader => 0,
        SessionPhase::AwaitStartOk => 1,
        SessionPhase::Authorizing => 2,
        SessionPhase::AwaitTuneOk => 3,
        SessionPhase::AwaitOpen => 4,
        SessionPhase::Connecting => 5,
        SessionPhase::Relaying => 6,
        SessionPhase::Finished => 7,
    }
}

/// Every event moves a session strictly forward along the handshake, so a
/// session ends after at most seven events; once finished it only finishes.
pub proof fn law_session_moves_forward(phase: SessionPhase, event: SessionEvent, version: Seq<char>)
    ensures
        ({
            let (next, action) = spec_session_step(phase, event, version);
            &&& phase != SessionPhase::Finished ==> phase_rank(next) > phase_rank(phase)
            &&& phase == SessionPhase::Finished ==> next == SessionPhase::Finished && action
                is Finish
        }),
{
}

/// A client whose protocol header is not AMQP 0-9-1 gets Warpgate's header
/// back and nothing else.
pub proof fn law_session_rejects_foreign_header(h: Vec<u8>, version: Seq<char>)
    requires
        h@ != protocol_header(),
    ensures
        spec_session_step(SessionPhase::AwaitHeader, SessionEvent::HeaderRead(h), version) == (
        SessionPhase::Finished, SessionActionSpec::ReplyHeaderAndFinish),
{
}

/// Authorization is only ever asked for with the credentials of a `PLAIN`
/// `Connection.StartOk` on channel 0, and they are exactly the username and
/// password its response carries.
pub proof fn law_session_authorizes_plain_credentials(
    phase: SessionPhase,
    event: SessionEvent,
    version: Seq<char>,
)
    ensures
        spec_session_step(phase, event, version).1 matches SessionActionSpec::Authorize {
            username,
            password,
        } ==> {
            &&& phase == SessionPhase::AwaitStartOk
            &&& event matches SessionEvent::FrameRead(
                FrameKind::Connection {
                    channel,
                    method: ConnectionMethod::StartOk { mechanism, response },
                },
            )
            &&& channel == 0
            &&& mechanism@ == "PLAIN"@
            &&& plain_response_split(response@) matches Some((user, pass))
            &&& username == utf8_lossy(user)
            &&& password == utf8_lossy(pass)
        },
{
}

/// The target is dialed only for the virtual host of the client's own
/// `Connection.Open`, after its `TuneOk`; bytes are relayed only once the
/// target connection succeeded.
pub proof fn law_session_relays_only_after_open(
    phase: SessionPhase,
    event: SessionEvent,
    version: Seq<char>,
)
    ensures
        spec_session_step(phase, event, version).1 matches SessionActionSpec::Connect {
            virtual_host: vhost,
        } ==> {
            &&& phase == SessionPhase::AwaitOpen
            &&& event matches SessionEvent::FrameRead(
                FrameKind::Connection { channel, method: ConnectionMethod::Open { virtual_host } },
            )
            &&& channel == 0
            &&& vhost == virtual_host@
        },
        spec_session_step(phase, event, version).1 is OpenAndRelay ==> phase
            == SessionPhase::Connecting && event is TargetConnected,
        spec_session_step(phase, event, version).0 == SessionPhase::Relaying ==> phase
            == SessionPhase::Connecting,
{
}

/// The `Connection.Close` an action sends, if it sends one.
pub open spec fn closing_frame(action: SessionActionSpec) -> Option<OutboundFrameSpec> {
    match action {
        SessionActionSpec::CloseAndFinish(f) => Some(f),
        SessionActionSpec::CloseAndFail(f) => Some(f),
        _ => None,
    }
}

/// Every refusal is a `Connection.Close` with code 503 (command invalid),
/// 530 (not allowed) or 541 (internal error), after which the session ends.
pub proof fn law_session_closes_with_amqp_codes(
    phase: SessionPhase,
    event: SessionEvent,
    version: Seq<char>,
)
    ensures
        ({
            let (next, action) = spec_session_step(phase, event, version);
            closing_frame(action) matches Some(f) ==> {
                &&& next == SessionPhase::Finished
                &&& f.channel == 0
                &&& f.method matches crate::frames::OutboundMethodSpec::Close { reply_code, .. }
                &&& (reply_code == 503 || reply_code == 530 || reply_code == 541)
            }
        }),
{
}

/// The phase a session reaches from `phase` through `events`.
pub open spec fn session_run(phase: SessionPhase, events: Seq<SessionEvent>, version: Seq<char>) -> SessionPhase
    decreases events.len(),
{
    if events.len() == 0 {
        phase
    } else {
        session_run(spec_session_step(phase, events[0], version).0, events.drop_first(), version)
    }
}

proof fn lemma_finished_stays(events: Seq<SessionEvent>, version: Seq<char>)
    ensures
        session_run(SessionPhase::Finished, events, version) == SessionPhase::Finished,
    decreases events.len(),
{
    if events.len() > 0 {
        lemma_finished_stays(events.drop_first(), version);
    }
}

/// A run that ends up relaying either is there already, or its first event
/// moves the session on (not to `Finished`) and the rest of the run relays.
proof fn lemma_relaying_run(phase: SessionPhase, events: Seq<SessionEvent>, version: Seq<char>)
    requires
        session_run(phase, events, version) == SessionPhase::Relaying,
    ensures
        phase == SessionPhase::Relaying && events.len() == 0 || events.len() > 0
            && spec_session_step(phase, events[0], version).0 != SessionPhase::Finished
            && session_run(spec_session_step(phase, events[0], version).0, events.drop_first(), version)
            == SessionPhase::Relaying,
{
    if events.len() > 0 {
        let next = spec_session_step(phase, events[0], version).0;
        if next == SessionPhase::Finished {
            lemma_finished_stays(events.drop_first(), version);
        }
        if phase == SessionPhase::Relaying {
            lemma_finished_stays(events.drop_first(), version);
        }
    }
}

/// A client's bytes are relayed to a target only after the whole handshake,
/// in order: an AMQP 0-9-1 protocol header; a `PLAIN` `StartOk` on channel
/// 0 with a well-formed response; an approved RabbitMQ target; `TuneOk` and
/// `Open` on channel 0; and a successful target connection - exactly six
/// events.
pub proof fn law_session_relays_only_after_full_handshake(events: Seq<SessionEvent>, version: Seq<char>)
    requires
        session_run(SessionPhase::AwaitHeader, events, version) == SessionPhase::Relaying,
    ensures
        events.len() == 6,
        events[0] matches SessionEvent::HeaderRead(h) && h@ == protocol_header(),
        events[1] matches SessionEvent::FrameRead(
            FrameKind::Connection { channel, method: ConnectionMethod::StartOk { mechanism, response } },
        ) && channel == 0 && mechanism@ == "PLAIN"@ && plain_response_split(response@) is Some,
        events[2] == (SessionEvent::TargetApproved { rabbitmq: true }),
        events[3] matches SessionEvent::FrameRead(
            FrameKind::Connection { channel, method: ConnectionMethod::TuneOk },
        ) && channel == 0,
        events[4] matches SessionEvent::FrameRead(
            FrameKind::Connection { channel, method: ConnectionMethod::Open { .. } },
        ) && channel == 0,
        events[5] == SessionEvent::TargetConnected,
{
    let e0 = events;
    lemma_relaying_run(SessionPhase::AwaitHeader, e0, version);
    let p1 = spec_session_step(SessionPhase::AwaitHeader, e0[0], version).0;
    let e1 = e0.drop_first();
    lemma_relaying_run(p1, e1, version);
    let p2 = spec_session_step(p1, e1[0], version).0;
    let e2 = e1.drop_first();
    lemma_relaying_run(p2, e2, version);
    let p3 = spec_session_step(p2, e2[0], version).0;
    let e3 = e2.drop_first();
    lemma_relaying_run(p3, e3, version);
    let p4 = spec_session_step(p3, e3[0], version).0;
    let e4 = e3.drop_first();
    lemma_relaying_run(p4, e4, version);
    let p5 = spec_session_step(p4, e4[0], version).0;
    let e5 = e4.drop_first();
    lemma_relaying_run(p5, e5, version);
    let p6 = spec_session_step(p5, e5[0], version).0;
    let e6 = e5.drop_first();
    lemma_relaying_run(p6, e6, version);
    assert(p1 == SessionPhase::AwaitStartOk);
    assert(p2 == SessionPhase::Authorizing);
    assert(p3 == SessionPhase::AwaitTuneOk);
    assert(p4 == SessionPhase::AwaitOpen);
    assert(p5 == SessionPhase::Connecting);
    assert(p6 == SessionPhase::Relaying);
    assert(events[1] == e1[0]);
    assert(events[2] == e2[0]);
    assert(events[3] == e3[0]);
    assert(events[4] == e4[0]);
    assert(events[5] == e5[0]);
}

/// The client handshake goes through for a well-behaved client: the AMQP
/// 0-9-1 header gets `Connection.Start`; a `PLAIN` `StartOk` on channel 0
/// whose response is `NUL user NUL password` (user without NUL) is handed to
/// authorization with exactly that user and password (decoded leniently);
/// an approved RabbitMQ target gets the client on to `TuneOk`; `TuneOk`
/// leads to `Open`; every `Open` on channel 0, whatever its virtual host,
/// dials the target for that very virtual host; a connected target is
/// answered with `OpenOk` and relayed.
pub proof fn law_session_accepts_well_behaved_client(
    version: Seq<char>,
    h: Vec<u8>,
    user: Seq<u8>,
    pass: Seq<u8>,
    mechanism: String,
    response: Vec<u8>,
    virtual_host: String,
)
    requires
        forall|i: int| 0 <= i < user.len() ==> user[i] != 0,
    ensures
        h@ == protocol_header() ==> spec_session_step(
            SessionPhase::AwaitHeader,
            SessionEvent::HeaderRead(h),
            version,
        ) == (SessionPhase::AwaitStartOk, SessionActionSpec::SendAndRead(spec_start_frame(version))),
        mechanism@ == "PLAIN"@ && response@ == plain_response_bytes(user, pass) ==> spec_session_step(
            SessionPhase::AwaitStartOk,
            SessionEvent::FrameRead(
                FrameKind::Connection {
                    channel: 0,
                    method: ConnectionMethod::StartOk { mechanism, response },
                },
            ),
            version,
        ) == (SessionPhase::Authorizing, SessionActionSpec::Authorize {
            username: utf8_lossy(user),
            password: utf8_lossy(pass),
        }),
        spec_session_step(
            SessionPhase::Authorizing,
            SessionEvent::TargetApproved { rabbitmq: true },
            version,
        ) == (SessionPhase::AwaitTuneOk, SessionActionSpec::ReadFrame),
        spec_session_step(
            SessionPhase::AwaitTuneOk,
            SessionEvent::FrameRead(FrameKind::Connection { channel: 0, method: ConnectionMethod::TuneOk }),
            version,
        ) == (SessionPhase::AwaitOpen, SessionActionSpec::ReadFrame),
        spec_session_step(
            SessionPhase::AwaitOpen,
            SessionEvent::FrameRead(
                FrameKind::Connection {
                    channel: 0,
                    method: ConnectionMethod::Open { virtual_host },
                },
            ),
            version,
        ) == (SessionPhase::Connecting, SessionActionSpec::Connect { virtual_host: virtual_host@ }),
        spec_session_step(SessionPhase::Connecting, SessionEvent::TargetConnected, version) == (
            SessionPhase::Relaying,
            SessionActionSpec::OpenAndRelay(spec_open_ok_frame()),
        ),
{
    law_plain_response_round_trip(user, pass);
}

/// A refused or failed session is closed with the matching AMQP reply: a
/// `StartOk` with another mechanism with 503 (only `PLAIN`), an approved
/// target that is no RabbitMQ target with 530, a target that cannot be
/// reached with 541, an idle session with 530 and the idle text.
pub proof fn law_session_refusals(
    version: Seq<char>,
    mechanism: String,
    response: Vec<u8>,
    elapsed: Span,
    timeout: Span,
)
    ensures
        mechanism@ != "PLAIN"@ ==> spec_session_step(
            SessionPhase::AwaitStartOk,
            SessionEvent::FrameRead(
                FrameKind::Connection {
                    channel: 0,
                    method: ConnectionMethod::StartOk { mechanism, response },
                },
            ),
            version,
        ) == close_and_finish(503, "COMMAND_INVALID - only the PLAIN SASL mechanism is supported"@),
        spec_session_step(
            SessionPhase::Authorizing,
            SessionEvent::TargetApproved { rabbitmq: false },
            version,
        ) == close_and_finish(530, "NOT_ALLOWED - Warpgate target not found"@),
        spec_session_step(SessionPhase::Connecting, SessionEvent::TargetFailed, version) == (
            SessionPhase::Finished,
            SessionActionSpec::CloseAndFail(
                spec_close_frame(541, "INTERNAL_ERROR - Warpgate target connection failed"@),
            ),
        ),
        spec_session_step(
            SessionPhase::Relaying,
            SessionEvent::RelayEnded(RelayEnd::IdleTimeout { elapsed, timeout }),
            version,
        ) == close_and_finish(530, idle_close_text(elapsed, timeout)),
{
}

} // verus!
