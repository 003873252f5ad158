//! The AMQP 0-9-1 frames the RabbitMQ handshake reads and writes, as plain
//! values, and the size check applied to a frame header before its payload
//! is read. Encoding and decoding the wire bytes is `amq-protocol`'s work;
//! this module states which frames Warpgate sends and what it reads.
use vstd::prelude::*;
use vstd::string::StringSliceAdditionalSpecFns;
use vstd::utf8::encode_utf8;

use crate::sasl::{law_plain_text_round_trip, plain_response, plain_response_bytes, plain_response_split};
use crate::text::{decimal, push_decimal, push_str};
use crate::tune::{negotiate_tune, negotiated, OUR_CHANNEL_MAX, OUR_FRAME_MAX, OUR_HEARTBEAT, TuneOffer};

verus! {

/// An error ending a RabbitMQ handshake.
#[derive(Clone, Debug, PartialEq, Eq)]
pub enum RabbitMqError {
    /// The peer broke the protocol.
    ProtocolError(String),
    /// The target broker refused, answering with `Connection.Close`.
    RemoteError(String),
}

/// A handshake error as text.
pub enum RabbitMqErrorSpec {
    ProtocolError(Seq<char>),
    RemoteError(Seq<char>),
}

impl View for RabbitMqError {
    type V = RabbitMqErrorSpec;

    open spec fn view(&self) -> RabbitMqErrorSpec {
        match self {
            RabbitMqError::ProtocolError(s) => RabbitMqErrorSpec::ProtocolError(s@),
            RabbitMqError::RemoteError(s) => RabbitMqErrorSpec::RemoteError(s@),
        }
    }
}

/// A Connection-class method, with the fields the handshake reads.
#[derive(Clone, Debug, PartialEq, Eq)]
pub enum ConnectionMethod {
    Start { mechanisms: Vec<u8> },
    StartOk { mechanism: String, response: Vec<u8> },
    Tune(TuneOffer),
    TuneOk,
    Open { virtual_host: String },
    OpenOk,
    Close { reply_code: u16, reply_text: String },
    /// Any other Connection-class method.
    Other,
}

/// What kind of frame arrived.
#[derive(Clone, Debug, PartialEq, Eq)]
pub enum FrameKind {
    /// A method frame of the Connection class, on `channel`.
    Connection { channel: u16, method: ConnectionMethod },
    /// Any other frame: another class's method, content, heartbeat.
    Other,
}

/// A frame read from a peer: what it is, and its `Debug` rendering for
/// error messages.
#[derive(Clone, Debug, PartialEq, Eq)]
pub struct InboundFrame {
    pub kind: FrameKind,
    pub description: String,
}

/// The `server-properties`/`client-properties` table Warpgate identifies
/// itself with: its product name and version, as long strings.
#[derive(Clone, Debug, PartialEq, Eq)]
pub struct PeerProperties {
    pub product: Vec<u8>,
    pub version: Vec<u8>,
}

/// A Connection-class method Warpgate writes.
#[derive(Clone, Debug, PartialEq, Eq)]
pub enum OutboundMethod {
    Start {
        version_major: u8,
        version_minor: u8,
        server_properties: PeerProperties,
        mechanisms: Vec<u8>,
        locales: Vec<u8>,
    },
    StartOk {
        client_properties: PeerProperties,
        mechanism: String,
        response: Vec<u8>,
        locale: String,
    },
    Tune(TuneOffer),
    TuneOk(TuneOffer),
    Open { virtual_host: String },
    OpenOk,
    Close { reply_code: u16, reply_text: String, class_id: u16, method_id: u16 },
}

/// A method frame Warpgate writes on `channel`.
#[derive(Clone, Debug, PartialEq, Eq)]
pub struct OutboundFrame {
    pub channel: u16,
    pub method: OutboundMethod,
}

/// The peer-properties table as bytes.
pub struct PeerPropertiesSpec {
    pub product: Seq<u8>,
    pub version: Seq<u8>,
}

/// An outbound method as plain sequences.
pub enum OutboundMethodSpec {
    Start {
        version_major: u8,
        version_minor: u8,
        server_properties: PeerPropertiesSpec,
        mechanisms: Seq<u8>,
        locales: Seq<u8>,
    },
    StartOk {
        client_properties: PeerPropertiesSpec,
        mechanism: Seq<char>,
        response: Seq<u8>,
        locale: Seq<char>,
    },
    Tune(TuneOffer),
    TuneOk(TuneOffer),
    Open { virtual_host: Seq<char> },
    OpenOk,
    Close { reply_code: u16, reply_text: Seq<char>, class_id: u16, method_id: u16 },
}

/// An outbound frame as plain sequences.
pub struct OutboundFrameSpec {
    pub channel: u16,
    pub method: OutboundMethodSpec,
}

impl View for PeerProperties {
    type V = PeerPropertiesSpec;

    open spec fn view(&self) -> PeerPropertiesSpec {
        PeerPropertiesSpec { product: self.product@, version: self.version@ }
    }
}

impl View for OutboundMethod {
    type V = OutboundMethodSpec;

    open spec fn view(&self) -> OutboundMethodSpec {
        match self {
            OutboundMethod::Start {
                version_major,
                version_minor,
                server_properties,
                mechanisms,
                locales,
            } => OutboundMethodSpec::Start {
                version_major: *version_major,
                version_minor: *version_minor,
                server_properties: server_properties@,
                mechanisms: mechanisms@,
                locales: locales@,
            },
            OutboundMethod::StartOk { client_properties, mechanism, response, locale } =>
                OutboundMethodSpec::StartOk {
                client_properties: client_properties@,
                mechanism: mechanism@,
                response: response@,
                locale: locale@,
            },
            OutboundMethod::Tune(t) => OutboundMethodSpec::Tune(*t),
            OutboundMethod::TuneOk(t) => OutboundMethodSpec::TuneOk(*t),
            OutboundMethod::Open { virtual_host } => OutboundMethodSpec::Open {
                virtual_host: virtual_host@,
            },
            OutboundMethod::OpenOk => OutboundMethodSpec::OpenOk,
            OutboundMethod::Close { reply_code, reply_text, class_id, method_id } =>
                OutboundMethodSpec::Close {
                reply_code: *reply_code,
                reply_text: reply_text@,
                class_id: *class_id,
                method_id: *method_id,
            },
        }
    }
}

impl View for OutboundFrame {
    type V = OutboundFrameSpec;

    open spec fn view(&self) -> OutboundFrameSpec {
        OutboundFrameSpec { channel: self.channel, method: self.method@ }
    }
}

/// The bytes of `Warpgate`.
pub open spec fn product_name() -> Seq<u8> {
    seq![0x57u8, 0x61, 0x72, 0x70, 0x67, 0x61, 0x74, 0x65]
}

/// The bytes of `PLAIN`.
pub open spec fn plain_bytes() -> Seq<u8> {
    seq![0x50u8, 0x4c, 0x41, 0x49, 0x4e]
}

/// The bytes of `en_US`.
pub open spec fn en_us_bytes() -> Seq<u8> {
    seq![0x65u8, 0x6e, 0x5f, 0x55, 0x53]
}

/// The properties table Warpgate sends, for its `version`.
pub open spec fn spec_peer_properties(version: Seq<char>) -> PeerPropertiesSpec {
    PeerPropertiesSpec { product: product_name(), version: encode_utf8(version) }
}

/// `server-properties`/`client-properties` table Warpgate identifies itself
/// with on both sides of the proxy.
pub fn peer_properties(version: &str) -> (p: PeerProperties)
    ensures
        p@ == spec_peer_properties(version@),
{
    let product: Vec<u8> = vec![0x57u8, 0x61, 0x72, 0x70, 0x67, 0x61, 0x74, 0x65];
    let bytes = version.as_bytes();
    let mut v: Vec<u8> = Vec::new();
    for i in 0..bytes.len()
        invariant
            bytes@ == version.spec_bytes(),
            v@ == bytes@.take(i as int),
    {
        v.push(bytes[i]);
        assert(bytes@.take(i + 1) == bytes@.take(i as int).push(bytes@[i as int]));
    }
    assert(bytes@.take(bytes@.len() as int) == bytes@);
    assert(product@ == product_name());
    PeerProperties { product, version: v }
}

/// The `Connection.Start` Warpgate answers a client's protocol header with:
/// AMQP 0-9, `PLAIN` as the only mechanism, `en_US` as the only locale.
pub open spec fn spec_start_frame(version: Seq<char>) -> OutboundFrameSpec {
    OutboundFrameSpec {
        channel: 0,
        method: OutboundMethodSpec::Start {
            version_major: 0,
            version_minor: 9,
            server_properties: spec_peer_properties(version),
            mechanisms: plain_bytes(),
            locales: en_us_bytes(),
        },
    }
}

/// Builds the `Connection.Start` frame Warpgate offers its clients.
pub fn start_frame(version: &str) -> (f: OutboundFrame)
    ensures
        f@ == spec_start_frame(version@),
{
    let mechanisms: Vec<u8> = vec![0x50u8, 0x4c, 0x41, 0x49, 0x4e];
    let locales: Vec<u8> = vec![0x65u8, 0x6e, 0x5f, 0x55, 0x53];
    assert(mechanisms@ == plain_bytes());
    assert(locales@ == en_us_bytes());
    OutboundFrame {
        channel: 0,
        method: OutboundMethod::Start {
            version_major: 0,
            version_minor: 9,
            server_properties: peer_properties(version),
            mechanisms,
            locales,
        },
    }
}

/// The `Connection.Tune` Warpgate offers its clients: its own fixed limits.
pub open spec fn spec_tune_frame() -> OutboundFrameSpec {
    OutboundFrameSpec {
        channel: 0,
        method: OutboundMethodSpec::Tune(
            TuneOffer {
                channel_max: OUR_CHANNEL_MAX,
                frame_max: OUR_FRAME_MAX,
                heartbeat: OUR_HEARTBEAT,
            },
        ),
    }
}

/// Builds the `Connection.Tune` frame that tells a client it is logged in.
pub fn tune_frame() -> (f: OutboundFrame)
    ensures
        f@ == spec_tune_frame(),
{
    OutboundFrame {
        channel: 0,
        method: OutboundMethod::Tune(
            TuneOffer {
                channel_max: OUR_CHANNEL_MAX,
                frame_max: OUR_FRAME_MAX,
                heartbeat: OUR_HEARTBEAT,
            },
        ),
    }
}

/// The `Connection.OpenOk` frame.
pub open spec fn spec_open_ok_frame() -> OutboundFrameSpec {
    OutboundFrameSpec { channel: 0, method: OutboundMethodSpec::OpenOk }
}

/// Builds the `Connection.OpenOk` frame.
pub fn open_ok_frame() -> (f: OutboundFrame)
    ensures
        f@ == spec_open_ok_frame(),
{
    OutboundFrame { channel: 0, method: OutboundMethod::OpenOk }
}

/// A `Connection.Close` with the given reply, not pointing at any method.
pub open spec fn spec_close_frame(reply_code: u16, reply_text: Seq<char>) -> OutboundFrameSpec {
    OutboundFrameSpec {
        channel: 0,
        method: OutboundMethodSpec::Close { reply_code, reply_text, class_id: 0, method_id: 0 },
    }
}

/// Builds a `Connection.Close` frame with the given reply.
pub fn close_frame(reply_code: u16, reply_text: String) -> (f: OutboundFrame)
    ensures
        f@ == spec_close_frame(reply_code, reply_text@),
{
    OutboundFrame {
        channel: 0,
        method: OutboundMethod::Close { reply_code, reply_text, class_id: 0, method_id: 0 },
    }
}

/// The `Connection.StartOk` Warpgate logs into a target with.
pub open spec fn spec_start_ok_frame(
    version: Seq<char>,
    username: Seq<char>,
    password: Seq<char>,
) -> OutboundFrameSpec {
    OutboundFrameSpec {
        channel: 0,
        method: OutboundMethodSpec::StartOk {
            client_properties: spec_peer_properties(version),
            mechanism: "PLAIN"@,
            response: plain_response_bytes(encode_utf8(username), encode_utf8(password)),
            locale: "en_US"@,
        },
    }
}

/// Builds the `Connection.StartOk` frame that logs into a target broker
/// with `PLAIN` as `username`/`password`.
pub fn start_ok_frame(version: &str, username: &str, password: &str) -> (f: OutboundFrame)
    ensures
        f@ == spec_start_ok_frame(version@, username@, password@),
{
    OutboundFrame {
        channel: 0,
        method: OutboundMethod::StartOk {
            client_properties: peer_properties(version),
            mechanism: String::from_str("PLAIN"),
            response: plain_response(username, password),
            locale: String::from_str("en_US"),
        },
    }
}

/// The `Connection.TuneOk` Warpgate answers a target's `Tune` with.
pub open spec fn spec_tune_ok_frame(offer: TuneOffer) -> OutboundFrameSpec {
    let (channel_max, frame_max, heartbeat) = negotiated(offer);
    OutboundFrameSpec {
        channel: 0,
        method: OutboundMethodSpec::TuneOk(TuneOffer { channel_max, frame_max, heartbeat }),
    }
}

/// Builds the `Connection.TuneOk` answering a target's `Tune`.
pub fn tune_ok_frame(offer: &TuneOffer) -> (f: OutboundFrame)
    ensures
        f@ == spec_tune_ok_frame(*offer),
{
    let (channel_max, frame_max, heartbeat) = negotiate_tune(offer);
    OutboundFrame {
        channel: 0,
        method: OutboundMethod::TuneOk(TuneOffer { channel_max, frame_max, heartbeat }),
    }
}

/// The `Connection.Open` of a virtual host.
pub open spec fn spec_open_frame(virtual_host: Seq<char>) -> OutboundFrameSpec {
    OutboundFrameSpec { channel: 0, method: OutboundMethodSpec::Open { virtual_host } }
}

/// Builds the `Connection.Open` of `virtual_host`.
pub fn open_frame(virtual_host: String) -> (f: OutboundFrame)
    ensures
        f@ == spec_open_frame(virtual_host@),
{
    OutboundFrame { channel: 0, method: OutboundMethod::Open { virtual_host } }
}

/// Frames larger than this during the handshake are rejected outright rather
/// than trusted for an allocation - well above `OUR_FRAME_MAX`, since a real
/// client's `client-properties` table can be sizeable, but far below anything
/// a well-behaved peer would ever send before the connection is even tuned.
pub const MAX_HANDSHAKE_FRAME_SIZE: u32 = 1048576;

/// The payload size a 7-byte frame header announces (big-endian, bytes 3..7).
pub open spec fn announced_size(header: Seq<u8>) -> int {
    header[3] * 16777216 + header[4] * 65536 + header[5] * 256 + header[6]
}

/// The announced size is the big-endian number in header bytes 3 to 6:
/// byte 3 is its most significant byte and byte 6 its least.
pub proof fn law_announced_size_is_big_endian(header: Seq<u8>)
    requires
        header.len() == 7,
    ensures
        0 <= announced_size(header) < 0x1_0000_0000,
        announced_size(header) / 16777216 == header[3],
        (announced_size(header) / 65536) % 256 == header[4],
        (announced_size(header) / 256) % 256 == header[5],
        announced_size(header) % 256 == header[6],
{
    let (a, b, c, d) = (header[3] as int, header[4] as int, header[5] as int, header[6] as int);
    assert(0 <= a * 16777216 + b * 65536 + c * 256 + d < 0x1_0000_0000
        && (a * 16777216 + b * 65536 + c * 256 + d) / 16777216 == a
        && ((a * 16777216 + b * 65536 + c * 256 + d) / 65536) % 256 == b
        && ((a * 16777216 + b * 65536 + c * 256 + d) / 256) % 256 == c
        && (a * 16777216 + b * 65536 + c * 256 + d) % 256 == d) by (nonlinear_arith)
        requires
            0 <= a < 256,
            0 <= b < 256,
            0 <= c < 256,
            0 <= d < 256,
    ;
}

/// The error for an oversized handshake frame.
pub open spec fn frame_too_large_text(size: int) -> Seq<char> {
    "frame too large ("@ + decimal(size as nat) + " bytes)"@
}

/// Checks the size a frame header announces: the number of bytes still to
/// read (payload and frame-end octet), or an error for frames too large to
/// be part of a handshake.
pub fn frame_remainder_len(header: &[u8]) -> (r: Result<usize, RabbitMqError>)
    requires
        header@.len() == 7,
    ensures
        announced_size(header@) <= MAX_HANDSHAKE_FRAME_SIZE ==> r == Ok::<usize, RabbitMqError>(
            (announced_size(header@) + 1) as usize,
        ),
        announced_size(header@) > MAX_HANDSHAKE_FRAME_SIZE ==> (r matches Err(e) && e@
            == RabbitMqErrorSpec::ProtocolError(frame_too_large_text(announced_size(header@)))),
{
    let size: u64 = (header[3] as u64) * 16777216 + (header[4] as u64) * 65536 + (header[5] as u64)
        * 256 + (header[6] as u64);
    if size > 1048576 {
        let mut text = String::from_str("frame too large (");
        push_decimal(&mut text, size);
        push_str(&mut text, " bytes)");
        return Err(RabbitMqError::ProtocolError(text));
    }
    Ok((size + 1) as usize)
}

proof fn lemma_ascii_bytes(chars: Seq<char>, bytes: Seq<u8>)
    requires
        vstd::utf8::is_ascii_chars(chars),
        chars.len() == bytes.len(),
        forall|i: int| 0 <= i < chars.len() ==> chars[i] as u8 == bytes[i],
    ensures
        encode_utf8(chars) == bytes,
{
    vstd::utf8::is_ascii_chars_encode_utf8(chars);
    assert(encode_utf8(chars) =~= bytes);
}

/// The handshake frames are the standard ones: Warpgate offers AMQP 0-9,
/// exactly the `PLAIN` mechanism and the `en_US` locale, and names itself
/// `Warpgate` with its version; it logs into targets with mechanism `PLAIN`,
/// locale `en_US` and the response `NUL username NUL password`, which
/// splits back into the UTF-8 credentials; every handshake frame goes on
/// channel 0; `Connection.Open` carries the virtual host as given and
/// `Connection.Close` the reply given, pointing at no method.
pub proof fn law_handshake_frames_are_standard(
    version: Seq<char>,
    username: Seq<char>,
    password: Seq<char>,
    virtual_host: Seq<char>,
    reply_code: u16,
    reply_text: Seq<char>,
)
    ensures
        spec_start_frame(version).channel == 0,
        spec_start_frame(version).method matches OutboundMethodSpec::Start {
            version_major,
            version_minor,
            server_properties,
            mechanisms,
            locales,
        } && version_major == 0 && version_minor == 9 && mechanisms == encode_utf8(
            seq!['P', 'L', 'A', 'I', 'N'],
        ) && locales == encode_utf8(seq!['e', 'n', '_', 'U', 'S']) && server_properties.product
            == encode_utf8(seq!['W', 'a', 'r', 'p', 'g', 'a', 't', 'e'])
            && server_properties.version == encode_utf8(version),
        spec_start_ok_frame(version, username, password).channel == 0,
        spec_start_ok_frame(version, username, password).method matches OutboundMethodSpec::StartOk {
            client_properties,
            mechanism,
            response,
            locale,
        } && mechanism == seq!['P', 'L', 'A', 'I', 'N'] && locale == seq!['e', 'n', '_', 'U', 'S']
            && client_properties.product == encode_utf8(seq!['W', 'a', 'r', 'p', 'g', 'a', 't', 'e'])
            && client_properties.version == encode_utf8(version) && ((forall|i: int|
            0 <= i < username.len() ==> username[i] != '\0') ==> plain_response_split(response)
            == Some((encode_utf8(username), encode_utf8(password)))),
        spec_open_frame(virtual_host) == (OutboundFrameSpec {
            channel: 0,
            method: OutboundMethodSpec::Open { virtual_host },
        }),
        spec_close_frame(reply_code, reply_text) == (OutboundFrameSpec {
            channel: 0,
            method: OutboundMethodSpec::Close { reply_code, reply_text, class_id: 0, method_id: 0 },
        }),
        spec_open_ok_frame() == (OutboundFrameSpec { channel: 0, method: OutboundMethodSpec::OpenOk }),
{
    lemma_ascii_bytes(seq!['P', 'L', 'A', 'I', 'N'], plain_bytes());
    lemma_ascii_bytes(seq!['e', 'n', '_', 'U', 'S'], en_us_bytes());
    lemma_ascii_bytes(seq!['W', 'a', 'r', 'p', 'g', 'a', 't', 'e'], product_name());
    reveal_strlit("PLAIN");
    reveal_strlit("en_US");
    assert("PLAIN"@ =~= seq!['P', 'L', 'A', 'I', 'N']);
    assert("en_US"@ =~= seq!['e', 'n', '_', 'U', 'S']);
    if forall|i: int| 0 <= i < username.len() ==> username[i] != '\0' {
        law_plain_text_round_trip(username, password);
    }
}

} // verus!
