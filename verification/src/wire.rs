//! The AMQP 0-9-1 frame codec of the handshake: decoding a frame read from a
//! peer into the plain frame model, and encoding the frames Warpgate sends.
//! The byte-level work is `amq-protocol`'s spec-generated parser and
//! generator; this module checks what goes in and maps what comes out.
use vstd::prelude::*;
use vstd::string::StringSliceAdditionalSpecFns;
use vstd::utf8::encode_utf8;

use amq_protocol::frame::{gen_frame, parse_frame, AMQPFrame};
use amq_protocol::protocol::connection::{self, AMQPMethod};
use amq_protocol::protocol::AMQPClass;
use amq_protocol::types::{AMQPValue, FieldTable, LongString, ShortString};

use crate::frames::{
    announced_size, frame_remainder_len, frame_too_large_text, ConnectionMethod, FrameKind,
    InboundFrame, OutboundFrame, OutboundFrameSpec, OutboundMethod, OutboundMethodSpec,
    PeerProperties, RabbitMqError, RabbitMqErrorSpec, MAX_HANDSHAKE_FRAME_SIZE,
};
use crate::text::push_str;
use crate::tune::TuneOffer;

verus! {

#[verifier::external_type_specification]
#[verifier::external_body]
pub struct ExAMQPFrame(AMQPFrame);

#[verifier::external_type_specification]
#[verifier::external_body]
pub struct ExAMQPMethod(AMQPMethod);

#[verifier::external_type_specification]
#[verifier::external_body]
pub struct ExFieldTable(FieldTable);

/// A Connection-class method as plain values.
pub enum ConnectionMethodSpec {
    Start { mechanisms: Seq<u8> },
    StartOk { mechanism: Seq<char>, response: Seq<u8> },
    Tune(TuneOffer),
    TuneOk,
    Open { virtual_host: Seq<char> },
    OpenOk,
    Close { reply_code: u16, reply_text: Seq<char> },
    Other,
}

/// A frame kind as plain values.
pub enum FrameKindSpec {
    Connection { channel: u16, method: ConnectionMethodSpec },
    Other,
}

/// A frame read from a peer, as plain values.
pub struct InboundFrameSpec {
    pub kind: FrameKindSpec,
    pub description: Seq<char>,
}

impl View for ConnectionMethod {
    type V = ConnectionMethodSpec;

    open spec fn view(&self) -> ConnectionMethodSpec {
        match self {
            ConnectionMethod::Start { mechanisms } => ConnectionMethodSpec::Start {
                mechanisms: mechanisms@,
            },
            ConnectionMethod::StartOk { mechanism, response } => ConnectionMethodSpec::StartOk {
                mechanism: mechanism@,
                response: response@,
            },
            ConnectionMethod::Tune(t) => ConnectionMethodSpec::Tune(*t),
            ConnectionMethod::TuneOk => ConnectionMethodSpec::TuneOk,
            ConnectionMethod::Open { virtual_host } => ConnectionMethodSpec::Open {
                virtual_host: virtual_host@,
            },
            ConnectionMethod::OpenOk => ConnectionMethodSpec::OpenOk,
            ConnectionMethod::Close { reply_code, reply_text } => ConnectionMethodSpec::Close {
                reply_code: *reply_code,
                reply_text: reply_text@,
            },
            ConnectionMethod::Other => ConnectionMethodSpec::Other,
        }
    }
}

impl View for FrameKind {
    type V = FrameKindSpec;

    open spec fn view(&self) -> FrameKindSpec {
        match self {
            FrameKind::Connection { channel, method } => FrameKindSpec::Connection {
                channel: *channel,
                method: method@,
            },
            FrameKind::Other => FrameKindSpec::Other,
        }
    }
}

impl View for InboundFrame {
    type V = InboundFrameSpec;

    open spec fn view(&self) -> InboundFrameSpec {
        InboundFrameSpec { kind: self.kind@, description: self.description@ }
    }
}

/// What `amq_protocol::frame::parse_frame` makes of `bytes`: the frame it
/// decodes, in the plain model with its `Debug` rendering, or the `Debug`
/// rendering of the error it reports.
pub uninterp spec fn amqp_decode(bytes: Seq<u8>) -> Result<InboundFrameSpec, Seq<char>>;

/// What `amq_protocol::frame::gen_frame`, run by `cookie_factory::gen_simple`
/// into an empty buffer, makes of the method frame `frame`: its bytes, or
/// the `Debug` rendering of the error it reports.
pub uninterp spec fn amqp_encode(frame: OutboundFrameSpec) -> Result<Seq<u8>, Seq<char>>;

/// The kind of a decoded frame, in the plain model (a step of
/// `decode_frame`'s conversion).
#[verifier::external_body]
fn frame_kind(frame: AMQPFrame) -> FrameKind {
    match frame {
        AMQPFrame::Method(channel, AMQPClass::Connection(m)) => FrameKind::Connection {
            channel,
            method: connection_method(m),
        },
        _ => FrameKind::Other,
    }
}

/// A decoded Connection-class method, in the plain model (a step of
/// `decode_frame`'s conversion).
#[verifier::external_body]
fn connection_method(m: AMQPMethod) -> ConnectionMethod {
    match m {
        AMQPMethod::Start(s) => ConnectionMethod::Start { mechanisms: s.mechanisms.as_bytes().to_vec() },
        AMQPMethod::StartOk(s) => ConnectionMethod::StartOk {
            mechanism: s.mechanism.as_str().to_owned(),
            response: s.response.as_bytes().to_vec(),
        },
        AMQPMethod::Tune(t) => ConnectionMethod::Tune(
            TuneOffer { channel_max: t.channel_max, frame_max: t.frame_max, heartbeat: t.heartbeat },
        ),
        _ => connection_method_rest(m),
    }
}

/// The decoded Connection-class methods after `Tune`, in the plain model
/// (a step of `decode_frame`'s conversion).
#[verifier::external_body]
fn connection_method_rest(m: AMQPMethod) -> ConnectionMethod {
    match m {
        AMQPMethod::TuneOk(_) => ConnectionMethod::TuneOk,
        AMQPMethod::Open(o) => ConnectionMethod::Open { virtual_host: o.virtual_host.as_str().to_owned() },
        AMQPMethod::OpenOk(_) => ConnectionMethod::OpenOk,
        AMQPMethod::Close(c) => ConnectionMethod::Close {
            reply_code: c.reply_code,
            reply_text: c.reply_text.as_str().to_owned(),
        },
        _ => ConnectionMethod::Other,
    }
}

/// `amq_protocol::frame::parse_frame(bytes)`, with the frame converted to
/// the plain model and rendered with `Debug`, or the error rendered with
/// `Debug`. Trusted: the outcome is the named decoding of `bytes`. The
/// parser reports malformed input as an error value; the conversion moves
/// the fields the handshake reads and maps every other frame or method to
/// `Other`.
#[verifier::external_body]
fn decode_frame(bytes: &[u8]) -> (r: Result<InboundFrame, String>)
    ensures
        match r {
            Ok(f) => amqp_decode(bytes@) == Ok::<InboundFrameSpec, Seq<char>>(f@),
            Err(e) => amqp_decode(bytes@) == Err::<InboundFrameSpec, Seq<char>>(e@),
        },
{
    match parse_frame(bytes) {
        Ok((_, frame)) => Ok(InboundFrame { description: format!("{frame:?}"), kind: frame_kind(frame) }),
        Err(error) => Err(format!("{error:?}")),
    }
}

/// The error for a frame the decoder refused, with its report.
pub open spec fn malformed_frame_text(report: Seq<char>) -> Seq<char> {
    "malformed AMQP frame: "@ + report
}

/// Maps the decoder's outcome to the handshake's: a decoded frame is
/// passed on; a refusal becomes a protocol error naming the decoder's
/// report.
pub fn frame_from_decoded(decoded: Result<InboundFrame, String>) -> (r: Result<
    InboundFrame,
    RabbitMqError,
>)
    ensures
        match decoded {
            Ok(f) => r == Ok::<InboundFrame, RabbitMqError>(f),
            Err(report) => r matches Err(e) && e@ == RabbitMqErrorSpec::ProtocolError(
                malformed_frame_text(report@),
            ),
        },
{
    match decoded {
        Ok(f) => Ok(f),
        Err(report) => {
            let mut text = String::from_str("malformed AMQP frame: ");
            push_str(&mut text, report.as_str());
            Err(RabbitMqError::ProtocolError(text))
        },
    }
}

/// Decodes a frame from its 7-byte header and the rest read after it: a
/// header announcing more than a handshake frame may hold is refused
/// before anything is decoded; otherwise the header and the rest are
/// decoded together.
pub fn read_frame_body(header: &[u8], rest: &[u8]) -> (r: Result<InboundFrame, RabbitMqError>)
    requires
        header@.len() == 7,
    ensures
        announced_size(header@) > MAX_HANDSHAKE_FRAME_SIZE ==> (r matches Err(e) && e@
            == RabbitMqErrorSpec::ProtocolError(frame_too_large_text(announced_size(header@)))),
        announced_size(header@) <= MAX_HANDSHAKE_FRAME_SIZE ==> match amqp_decode(header@ + rest@) {
            Ok(f) => r matches Ok(g) && g@ == f,
            Err(report) => r matches Err(e) && e@ == RabbitMqErrorSpec::ProtocolError(
                malformed_frame_text(report),
            ),
        },
{
    match frame_remainder_len(header) {
        Err(e) => {
            return Err(e);
        },
        Ok(_) => {},
    }
    let mut buf: Vec<u8> = Vec::new();
    for i in 0..header.len()
        invariant
            buf@ == header@.take(i as int),
    {
        buf.push(header[i]);
        assert(header@.take(i + 1) == header@.take(i as int).push(header@[i as int]));
    }
    assert(header@.take(header@.len() as int) == header@);
    for i in 0..rest.len()
        invariant
            buf@ == header@ + rest@.take(i as int),
    {
        buf.push(rest[i]);
        assert(rest@.take(i + 1) == rest@.take(i as int).push(rest@[i as int]));
    }
    assert(rest@.take(rest@.len() as int) == rest@);
    frame_from_decoded(decode_frame(buf.as_slice()))
}

/// An AMQP short string holds at most 255 bytes.
pub open spec fn short_string_fits(s: Seq<char>) -> bool {
    encode_utf8(s).len() <= 255
}

/// Every short string of the frame fits its 255-byte limit.
pub open spec fn frame_short_strings_fit(f: OutboundFrameSpec) -> bool {
    method_short_strings_fit(f.method)
}

/// Every short string of the method fits its 255-byte limit.
pub open spec fn method_short_strings_fit(m: OutboundMethodSpec) -> bool {
    match m {
        OutboundMethodSpec::StartOk { mechanism, locale, .. } => short_string_fits(mechanism)
            && short_string_fits(locale),
        OutboundMethodSpec::Open { virtual_host } => short_string_fits(virtual_host),
        OutboundMethodSpec::Close { reply_text, .. } => short_string_fits(reply_text),
        _ => true,
    }
}

fn fits(s: &String) -> (b: bool)
    ensures
        b == short_string_fits(s@),
{
    s.as_str().as_bytes().len() <= 255
}

/// Whether every short string of `f` fits its 255-byte limit, which the
/// encoder needs.
pub fn frame_fits(f: &OutboundFrame) -> (b: bool)
    ensures
        b == frame_short_strings_fit(f@),
{
    match &f.method {
        OutboundMethod::StartOk { mechanism, locale, .. } => fits(mechanism) && fits(locale),
        OutboundMethod::Open { virtual_host } => fits(virtual_host),
        OutboundMethod::Close { reply_text, .. } => fits(reply_text),
        _ => true,
    }
}

/// The `server-properties`/`client-properties` table (a step of
/// `encode_amqp_frame`'s conversion).
#[verifier::external_body]
fn peer_table(p: &PeerProperties) -> FieldTable {
    let mut table = FieldTable::default();
    table.insert(ShortString::from("product"), AMQPValue::LongString(LongString::from(p.product.clone())));
    table.insert(ShortString::from("version"), AMQPValue::LongString(LongString::from(p.version.clone())));
    table
}

/// `Connection.Start` (a step of `encode_amqp_frame`'s conversion).
#[verifier::external_body]
fn amqp_start(major: u8, minor: u8, p: &PeerProperties, mechanisms: &[u8], locales: &[u8]) -> AMQPMethod {
    AMQPMethod::Start(connection::Start {
        version_major: major,
        version_minor: minor,
        server_properties: peer_table(p),
        mechanisms: LongString::from(mechanisms.to_vec()),
        locales: LongString::from(locales.to_vec()),
    })
}

/// `Connection.StartOk` (a step of `encode_amqp_frame`'s conversion).
/// `ShortString::from` panics on a string over 255 bytes, so both short
/// strings must fit.
#[verifier::external_body]
fn amqp_start_ok(p: &PeerProperties, mechanism: &str, response: &[u8], locale: &str) -> AMQPMethod
    requires
        short_string_fits(mechanism@),
        short_string_fits(locale@),
{
    AMQPMethod::StartOk(connection::StartOk {
        client_properties: peer_table(p),
        mechanism: ShortString::from(mechanism),
        response: LongString::from(response.to_vec()),
        locale: ShortString::from(locale),
    })
}

/// `Connection.Close` (a step of `encode_amqp_frame`'s conversion).
/// `ShortString::from` panics on a string over 255 bytes, so the reply text
/// must fit.
#[verifier::external_body]
fn amqp_close(reply_code: u16, reply_text: &str, class_id: u16, method_id: u16) -> AMQPMethod
    requires
        short_string_fits(reply_text@),
{
    AMQPMethod::Close(connection::Close {
        reply_code,
        reply_text: ShortString::from(reply_text),
        class_id,
        method_id,
    })
}

/// `Connection.Tune` (a step of `encode_amqp_frame`'s conversion).
#[verifier::external_body]
fn amqp_tune(t: &TuneOffer) -> AMQPMethod {
    AMQPMethod::Tune(connection::Tune {
        channel_max: t.channel_max,
        frame_max: t.frame_max,
        heartbeat: t.heartbeat,
    })
}

/// `Connection.TuneOk` (a step of `encode_amqp_frame`'s conversion).
#[verifier::external_body]
fn amqp_tune_ok(t: &TuneOffer) -> AMQPMethod {
    AMQPMethod::TuneOk(connection::TuneOk {
        channel_max: t.channel_max,
        frame_max: t.frame_max,
        heartbeat: t.heartbeat,
    })
}

/// A Connection-class method Warpgate writes, as `amq-protocol`'s value (a
/// step of `encode_amqp_frame`'s conversion). `ShortString::from` panics on
/// a string over 255 bytes, so every short string of the method must fit.
#[verifier::external_body]
fn amqp_method(m: &OutboundMethod) -> AMQPMethod
    requires
        method_short_strings_fit(m@),
{
    match m {
        OutboundMethod::Start { version_major, version_minor, server_properties, mechanisms, locales } =>
            amqp_start(*version_major, *version_minor, server_properties, mechanisms, locales),
        OutboundMethod::StartOk { client_properties, mechanism, response, locale } =>
            amqp_start_ok(client_properties, mechanism, response, locale),
        OutboundMethod::Tune(t) => amqp_tune(t),
        OutboundMethod::TuneOk(t) => amqp_tune_ok(t),
        OutboundMethod::Open { virtual_host } =>
            AMQPMethod::Open(connection::Open { virtual_host: ShortString::from(virtual_host.as_str()) }),
        OutboundMethod::OpenOk => AMQPMethod::OpenOk(connection::OpenOk {}),
        OutboundMethod::Close { reply_code, reply_text, class_id, method_id } =>
            amqp_close(*reply_code, reply_text, *class_id, *method_id),
    }
}

/// `cookie_factory::gen_simple(gen_frame(&frame), Vec::new())` for the
/// Connection-class method frame `f` stands for. Trusted: the outcome is
/// the named encoding of `f`. `ShortString::from` panics on a string over
/// 255 bytes, so every short string of `f` must fit.
#[verifier::external_body]
fn encode_amqp_frame(f: &OutboundFrame) -> (r: Result<Vec<u8>, String>)
    requires
        frame_short_strings_fit(f@),
    ensures
        match r {
            Ok(b) => amqp_encode(f@) == Ok::<Seq<u8>, Seq<char>>(b@),
            Err(e) => amqp_encode(f@) == Err::<Seq<u8>, Seq<char>>(e@),
        },
{
    let frame = AMQPFrame::Method(f.channel, AMQPClass::Connection(amqp_method(&f.method)));
    cookie_factory::gen_simple(gen_frame(&frame), Vec::new()).map_err(|error| format!("{error:?}"))
}

/// The error for a frame the encoder refused, with its report.
pub open spec fn encode_failed_text(report: Seq<char>) -> Seq<char> {
    "failed to encode AMQP frame: "@ + report
}

/// The bytes of frame `f` on the wire, or a protocol error naming the
/// encoder's report where it refuses the frame.
pub fn encode_frame(f: &OutboundFrame) -> (r: Result<Vec<u8>, RabbitMqError>)
    requires
        frame_short_strings_fit(f@),
    ensures
        match amqp_encode(f@) {
            Ok(b) => r matches Ok(v) && v@ == b,
            Err(report) => r matches Err(e) && e@ == RabbitMqErrorSpec::ProtocolError(
                encode_failed_text(report),
            ),
        },
{
    match encode_amqp_frame(f) {
        Ok(b) => Ok(b),
        Err(report) => {
            let mut text = String::from_str("failed to encode AMQP frame: ");
            push_str(&mut text, report.as_str());
            Err(RabbitMqError::ProtocolError(text))
        },
    }
}

} // verus!
