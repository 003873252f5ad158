//! The target-facing side of a RabbitMQ session: Warpgate logs into the
//! target broker with its own configured credentials and opens the virtual
//! host the client asked for. On success the connection is ready for the two
//! sides to be blindly relayed to each other.
//!
//! The handshake is a state machine over the frames the target sends: the
//! caller writes the protocol header, then reads a frame, steps, performs
//! the action, and repeats until the machine is done or fails.
use vstd::prelude::*;

use crate::frames::{
    open_frame, spec_open_frame, spec_start_ok_frame, spec_tune_ok_frame, start_ok_frame,
    tune_ok_frame, ConnectionMethod, FrameKind, InboundFrame, OutboundFrame, OutboundFrameSpec,
    RabbitMqError, RabbitMqErrorSpec,
};
use crate::sasl::{has_plain_word, mechanisms_contains_plain};
use crate::text::{decimal, push_decimal, push_str, utf8_lossy};
use crate::frames::OutboundMethodSpec;
use crate::tune::{negotiated, TuneOffer};

verus! {

/// What Warpgate logs into a target broker with.
#[derive(Clone, Debug, PartialEq, Eq)]
pub struct TargetLogin {
    pub username: String,
    pub password: String,
    /// The virtual host the client asked for.
    pub virtual_host: String,
    /// Warpgate's version, sent in the client properties.
    pub version: String,
}

/// Where the target handshake stands.
#[derive(Clone, Copy, Debug, PartialEq, Eq, Structural)]
pub enum ClientPhase {
    /// Protocol header sent; waiting for `Connection.Start`.
    AwaitStart,
    /// `StartOk` sent; waiting for `Connection.Tune`.
    AwaitTune,
    /// `TuneOk` and `Open` sent; waiting for `Connection.OpenOk`.
    AwaitOpenOk,
    /// The connection is open.
    Open,
    /// The handshake failed.
    Failed,
}

/// What the caller does next.
#[derive(Clone, Debug, PartialEq, Eq)]
pub enum ClientAction {
    /// Write the frame, then read the target's next frame.
    SendAndRead(OutboundFrame),
    /// Write both frames, then read the target's next frame.
    SendBothAndRead(OutboundFrame, OutboundFrame),
    /// The connection is open and ready to relay.
    Done,
    /// The handshake failed with this error.
    Fail(RabbitMqError),
}

/// A client action as plain values.
pub enum ClientActionSpec {
    SendAndRead(OutboundFrameSpec),
    SendBothAndRead(OutboundFrameSpec, OutboundFrameSpec),
    Done,
    Fail(RabbitMqErrorSpec),
}

impl View for ClientAction {
    type V = ClientActionSpec;

    open spec fn view(&self) -> ClientActionSpec {
        match self {
            ClientAction::SendAndRead(f) => ClientActionSpec::SendAndRead(f@),
            ClientAction::SendBothAndRead(f, g) => ClientActionSpec::SendBothAndRead(f@, g@),
            ClientAction::Done => ClientActionSpec::Done,
            ClientAction::Fail(e) => ClientActionSpec::Fail(e@),
        }
    }
}

/// The error for a frame other than the one expected from the target.
pub open spec fn unexpected_text(expected: Seq<char>, description: Seq<char>) -> Seq<char> {
    "expected Connection."@ + expected + " from target, got "@ + description
}

/// The error for a target's `Connection.Close`: `code: text`.
pub open spec fn remote_error_text(code: u16, text: Seq<char>) -> Seq<char> {
    decimal(code as nat) + ": "@ + text
}

/// Failing with an error.
pub open spec fn fail_with(e: RabbitMqErrorSpec) -> (ClientPhase, ClientActionSpec) {
    (ClientPhase::Failed, ClientActionSpec::Fail(e))
}

/// How the target handshake moves on a frame from the target.
pub open spec fn spec_client_step(phase: ClientPhase, frame: InboundFrame, login: TargetLogin) -> (
    ClientPhase,
    ClientActionSpec,
) {
    let unexpected = |what: Seq<char>|
        fail_with(RabbitMqErrorSpec::ProtocolError(unexpected_text(what, frame.description@)));
    match phase {
        ClientPhase::AwaitStart => match frame.kind {
            FrameKind::Connection { channel, method: ConnectionMethod::Start { mechanisms } } if channel
                == 0 => if has_plain_word(utf8_lossy(mechanisms@)) {
                (
                    ClientPhase::AwaitTune,
                    ClientActionSpec::SendAndRead(
                        spec_start_ok_frame(login.version@, login.username@, login.password@),
                    ),
                )
            } else {
                fail_with(
                    RabbitMqErrorSpec::ProtocolError(
                        "target does not support the PLAIN SASL mechanism"@,
                    ),
                )
            },
            _ => unexpected("Start"@),
        },
        ClientPhase::AwaitTune => match frame.kind {
            FrameKind::Connection { channel, method: ConnectionMethod::Tune(offer) } if channel == 0 => (
                ClientPhase::AwaitOpenOk,
                ClientActionSpec::SendBothAndRead(
                    spec_tune_ok_frame(offer),
                    spec_open_frame(login.virtual_host@),
                ),
            ),
            FrameKind::Connection {
                channel,
                method: ConnectionMethod::Close { reply_code, reply_text },
            } if channel == 0 => fail_with(
                RabbitMqErrorSpec::RemoteError(remote_error_text(reply_code, reply_text@)),
            ),
            _ => unexpected("Tune"@),
        },
        ClientPhase::AwaitOpenOk => match frame.kind {
            FrameKind::Connection { channel, method: ConnectionMethod::OpenOk } if channel == 0 => (
                ClientPhase::Open,
                ClientActionSpec::Done,
            ),
            FrameKind::Connection {
                channel,
                method: ConnectionMethod::Close { reply_code, reply_text },
            } if channel == 0 => fail_with(
                RabbitMqErrorSpec::RemoteError(remote_error_text(reply_code, reply_text@)),
            ),
            _ => unexpected("OpenOk"@),
        },
        ClientPhase::Open => (ClientPhase::Open, ClientActionSpec::Done),
        ClientPhase::Failed => fail_with(
            RabbitMqErrorSpec::ProtocolError("the target handshake already failed"@),
        ),
    }
}

fn unexpected_frame(expected: &str, description: &String) -> (r: (ClientPhase, ClientAction))
    ensures
        (r.0, r.1@) == fail_with(
            RabbitMqErrorSpec::ProtocolError(unexpected_text(expected@, description@)),
        ),
{
    let mut text = String::from_str("expected Connection.");
    push_str(&mut text, expected);
    push_str(&mut text, " from target, got ");
    push_str(&mut text, description.as_str());
    (ClientPhase::Failed, ClientAction::Fail(RabbitMqError::ProtocolError(text)))
}

fn remote_error(code: u16, reply_text: &String) -> (r: (ClientPhase, ClientAction))
    ensures
        (r.0, r.1@) == fail_with(
            RabbitMqErrorSpec::RemoteError(remote_error_text(code, reply_text@)),
        ),
{
    let mut text = String::new();
    push_decimal(&mut text, code as u64);
    push_str(&mut text, ": ");
    push_str(&mut text, reply_text.as_str());
    (ClientPhase::Failed, ClientAction::Fail(RabbitMqError::RemoteError(text)))
}

/// Advances the target handshake by one frame read from the target.
pub fn client_step(phase: ClientPhase, frame: &InboundFrame, login: &TargetLogin) -> (r: (
    ClientPhase,
    ClientAction,
))
    ensures
        (r.0, r.1@) == spec_client_step(phase, *frame, *login),
{
    match phase {
        ClientPhase::AwaitStart => match &frame.kind {
            FrameKind::Connection { channel, method: ConnectionMethod::Start { mechanisms } } if *channel
                == 0 => if mechanisms_contains_plain(mechanisms.as_slice()) {
                (
                    ClientPhase::AwaitTune,
                    ClientAction::SendAndRead(
                        start_ok_frame(
                            login.version.as_str(),
                            login.username.as_str(),
                            login.password.as_str(),
                        ),
                    ),
                )
            } else {
                (
                    ClientPhase::Failed,
                    ClientAction::Fail(
                        RabbitMqError::ProtocolError(
                            String::from_str("target does not support the PLAIN SASL mechanism"),
                        ),
                    ),
                )
            },
            _ => unexpected_frame("Start", &frame.description),
        },
        ClientPhase::AwaitTune => match &frame.kind {
            FrameKind::Connection { channel, method: ConnectionMethod::Tune(offer) } if *channel
                == 0 => (
                ClientPhase::AwaitOpenOk,
                ClientAction::SendBothAndRead(
                    tune_ok_frame(offer),
                    open_frame(login.virtual_host.clone()),
                ),
            ),
            FrameKind::Connection {
                channel,
                method: ConnectionMethod::Close { reply_code, reply_text },
            } if *channel == 0 => remote_error(*reply_code, reply_text),
            _ => unexpected_frame("Tune", &frame.description),
        },
        ClientPhase::AwaitOpenOk => match &frame.kind {
            FrameKind::Connection { channel, method: ConnectionMethod::OpenOk } if *channel == 0 => (
                ClientPhase::Open,
                ClientAction::Done,
            ),
            FrameKind::Connection {
                channel,
                method: ConnectionMethod::Close { reply_code, reply_text },
            } if *channel == 0 => remote_error(*reply_code, reply_text),
            _ => unexpected_frame("OpenOk", &frame.description),
        },
        ClientPhase::Open => (ClientPhase::Open, ClientAction::Done),
        ClientPhase::Failed => (
            ClientPhase::Failed,
            ClientAction::Fail(
                RabbitMqError::ProtocolError(String::from_str("the target handshake already failed")),
            ),
        ),
    }
}

/// How far the target handshake is.
pub open spec fn client_rank(phase: ClientPhase) -> int {
    match phase {
        ClientPhase::AwaitStart => 0,
        ClientPhase::AwaitTune => 1,
        ClientPhase::AwaitOpenOk => 2,
        ClientPhase::Open => 3,
        ClientPhase::Failed => 3,
    }
}

/// Each frame moves the target handshake forward or ends it: it is over
/// (open or failed) after at most three frames, and stays over.
pub proof fn law_client_moves_forward(phase: ClientPhase, frame: InboundFrame, login: TargetLogin)
    ensures
        ({
            let (next, action) = spec_client_step(phase, frame, login);
            &&& client_rank(phase) < 3 ==> client_rank(next) > client_rank(phase)
            &&& phase == ClientPhase::Open ==> next == ClientPhase::Open && action is Done
            &&& phase == ClientPhase::Failed ==> next == ClientPhase::Failed && action is Fail
            &&& (next == ClientPhase::Failed <==> action is Fail)
        }),
{
}

/// Warpgate only logs into a target that offered `PLAIN` on channel 0, and
/// the response it sends is `NUL username NUL password` of the configured
/// credentials.
pub proof fn law_client_logs_in_with_plain(phase: ClientPhase, frame: InboundFrame, login: TargetLogin)
    ensures
        spec_client_step(phase, frame, login).1 matches ClientActionSpec::SendAndRead(f) ==> {
            &&& phase == ClientPhase::AwaitStart
            &&& frame.kind matches FrameKind::Connection {
                channel,
                method: ConnectionMethod::Start { mechanisms },
            }
            &&& channel == 0
            &&& has_plain_word(utf8_lossy(mechanisms@))
            &&& f == spec_start_ok_frame(login.version@, login.username@, login.password@)
        },
{
}

/// After the target's `Tune`, Warpgate answers with limits that never
/// exceed the target's offer and opens exactly the client's virtual host.
pub proof fn law_client_tunes_within_offer_and_opens_client_vhost(
    phase: ClientPhase,
    frame: InboundFrame,
    login: TargetLogin,
)
    ensures
        spec_client_step(phase, frame, login).1 matches ClientActionSpec::SendBothAndRead(t, o) ==> {
            &&& phase == ClientPhase::AwaitTune
            &&& frame.kind matches FrameKind::Connection {
                channel,
                method: ConnectionMethod::Tune(offer),
            }
            &&& channel == 0
            &&& t.method matches OutboundMethodSpec::TuneOk(ok)
            &&& (offer.channel_max != 0 ==> ok.channel_max <= offer.channel_max)
            &&& (offer.frame_max != 0 ==> ok.frame_max <= offer.frame_max)
            &&& ok.heartbeat <= offer.heartbeat
            &&& (ok.channel_max, ok.frame_max, ok.heartbeat) == negotiated(offer)
            &&& o == spec_open_frame(login.virtual_host@)
        },
        spec_client_step(phase, frame, login).0 == ClientPhase::Open ==> phase
            == ClientPhase::AwaitOpenOk || phase == ClientPhase::Open,
{
}

/// The phase the target handshake reaches from `phase` through `frames`.
pub open spec fn client_run(phase: ClientPhase, frames: Seq<InboundFrame>, login: TargetLogin) -> ClientPhase
    decreases frames.len(),
{
    if frames.len() == 0 {
        phase
    } else {
        client_run(spec_client_step(phase, frames[0], login).0, frames.drop_first(), login)
    }
}

proof fn lemma_failed_stays(frames: Seq<InboundFrame>, login: TargetLogin)
    ensures
        client_run(ClientPhase::Failed, frames, login) == ClientPhase::Failed,
    decreases frames.len(),
{
    if frames.len() > 0 {
        lemma_failed_stays(frames.drop_first(), login);
    }
}

proof fn lemma_opening_run(phase: ClientPhase, frames: Seq<InboundFrame>, login: TargetLogin)
    requires
        client_run(phase, frames, login) == ClientPhase::Open,
        phase != ClientPhase::Open,
    ensures
        frames.len() > 0,
        spec_client_step(phase, frames[0], login).0 != ClientPhase::Failed,
        client_run(spec_client_step(phase, frames[0], login).0, frames.drop_first(), login)
            == ClientPhase::Open,
{
    if frames.len() > 0 && spec_client_step(phase, frames[0], login).0 == ClientPhase::Failed {
        lemma_failed_stays(frames.drop_first(), login);
    }
}

/// The target connection is open only after the target sent, on channel 0
/// and in this order, a `Connection.Start` offering `PLAIN`, a
/// `Connection.Tune`, and a `Connection.OpenOk`.
pub proof fn law_client_opens_only_after_full_handshake(frames: Seq<InboundFrame>, login: TargetLogin)
    requires
        client_run(ClientPhase::AwaitStart, frames, login) == ClientPhase::Open,
    ensures
        frames.len() >= 3,
        frames[0].kind matches FrameKind::Connection {
            channel,
            method: ConnectionMethod::Start { mechanisms },
        } && channel == 0 && has_plain_word(utf8_lossy(mechanisms@)),
        frames[1].kind matches FrameKind::Connection {
            channel,
            method: ConnectionMethod::Tune(_),
        } && channel == 0,
        frames[2].kind matches FrameKind::Connection { channel, method: ConnectionMethod::OpenOk }
            && channel == 0,
{
    lemma_opening_run(ClientPhase::AwaitStart, frames, login);
    let p1 = spec_client_step(ClientPhase::AwaitStart, frames[0], login).0;
    let f1 = frames.drop_first();
    lemma_opening_run(p1, f1, login);
    let p2 = spec_client_step(p1, f1[0], login).0;
    let f2 = f1.drop_first();
    lemma_opening_run(p2, f2, login);
    assert(p1 == ClientPhase::AwaitTune);
    assert(p2 == ClientPhase::AwaitOpenOk);
    assert(frames[1] == f1[0]);
    assert(frames[2] == f2[0]);
}

/// The target handshake goes through with a well-behaved broker: a
/// `Connection.Start` on channel 0 whose mechanism list (decoded leniently)
/// has `PLAIN` among its white-space-separated words, wherever it stands in
/// the list, is answered with the `PLAIN` `StartOk` of the configured
/// credentials; a `Tune` on channel 0 with `TuneOk` within the offer and the
/// `Open` of the client's virtual host; an `OpenOk` on channel 0 opens the
/// connection. A list without `PLAIN` fails, and a `Close` from the target
/// fails with its code and text.
pub proof fn law_client_accepts_well_behaved_target(
    login: TargetLogin,
    description: String,
    mechanisms: Vec<u8>,
    offer: TuneOffer,
    reply_code: u16,
    reply_text: String,
)
    ensures
        ({
            let start = InboundFrame {
                kind: FrameKind::Connection {
                    channel: 0,
                    method: ConnectionMethod::Start { mechanisms },
                },
                description,
            };
            &&& has_plain_word(utf8_lossy(mechanisms@)) ==> spec_client_step(
                ClientPhase::AwaitStart,
                start,
                login,
            ) == (ClientPhase::AwaitTune, ClientActionSpec::SendAndRead(
                spec_start_ok_frame(login.version@, login.username@, login.password@),
            ))
            &&& !has_plain_word(utf8_lossy(mechanisms@)) ==> spec_client_step(
                ClientPhase::AwaitStart,
                start,
                login,
            ) == fail_with(
                RabbitMqErrorSpec::ProtocolError("target does not support the PLAIN SASL mechanism"@),
            )
        }),
        spec_client_step(
            ClientPhase::AwaitTune,
            InboundFrame {
                kind: FrameKind::Connection { channel: 0, method: ConnectionMethod::Tune(offer) },
                description,
            },
            login,
        ) == (ClientPhase::AwaitOpenOk, ClientActionSpec::SendBothAndRead(
            spec_tune_ok_frame(offer),
            spec_open_frame(login.virtual_host@),
        )),
        spec_client_step(
            ClientPhase::AwaitOpenOk,
            InboundFrame {
                kind: FrameKind::Connection { channel: 0, method: ConnectionMethod::OpenOk },
                description,
            },
            login,
        ) == (ClientPhase::Open, ClientActionSpec::Done),
        ({
            let close = InboundFrame {
                kind: FrameKind::Connection {
                    channel: 0,
                    method: ConnectionMethod::Close { reply_code, reply_text },
                },
                description,
            };
            &&& spec_client_step(ClientPhase::AwaitTune, close, login) == fail_with(
                RabbitMqErrorSpec::RemoteError(remote_error_text(reply_code, reply_text@)),
            )
            &&& spec_client_step(ClientPhase::AwaitOpenOk, close, login) == fail_with(
                RabbitMqErrorSpec::RemoteError(remote_error_text(reply_code, reply_text@)),
            )
        }),
{
}

} // verus!
