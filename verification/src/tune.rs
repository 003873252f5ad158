//! The connection tuning Warpgate offers its clients and negotiates with
//! target brokers.
use vstd::prelude::*;

verus! {

/// AMQP 0-9-1 protocol header clients open a connection with:
/// `AMQP\x00\x00\x09\x01`.
pub const PROTOCOL_HEADER: [u8; 8] = [0x41, 0x4d, 0x51, 0x50, 0x00, 0x00, 0x09, 0x01];

/// The protocol header as a sequence of bytes.
pub open spec fn protocol_header() -> Seq<u8> {
    seq![0x41u8, 0x4d, 0x51, 0x50, 0x00, 0x00, 0x09, 0x01]
}

/// Tune values Warpgate offers to the client. They're fixed rather than
/// negotiated with the target up front, since the target isn't known (nor
/// dialed) until after the client's credentials arrive - these match
/// RabbitMQ's own defaults so proxying to a real RabbitMQ broker negotiates
/// identically.
pub const OUR_CHANNEL_MAX: u16 = 2047;

/// The frame-max Warpgate offers to the client.
pub const OUR_FRAME_MAX: u32 = 131_072;

/// The heartbeat interval (seconds) Warpgate offers to the client.
pub const OUR_HEARTBEAT: u16 = 60;

/// The limits a broker proposes in `Connection.Tune`.
#[derive(Clone, Copy, Debug, PartialEq, Eq, Structural)]
pub struct TuneOffer {
    pub channel_max: u16,
    pub frame_max: u32,
    pub heartbeat: u16,
}

/// Our limit, tightened to the target's where it imposes one (`0` means
/// "no limit").
pub open spec fn within_offer_u16(ours: u16, theirs: u16) -> u16 {
    if theirs == 0 {
        ours
    } else if theirs < ours {
        theirs
    } else {
        ours
    }
}

/// Our frame-max, tightened to the target's where it imposes one.
pub open spec fn within_offer_u32(ours: u32, theirs: u32) -> u32 {
    if theirs == 0 {
        ours
    } else if theirs < ours {
        theirs
    } else {
        ours
    }
}

/// The heartbeat to use: disabled if either side disables it, else the
/// shorter of the two.
pub open spec fn heartbeat_within(ours: u16, theirs: u16) -> u16 {
    if theirs == 0 || ours == 0 {
        0
    } else if theirs < ours {
        theirs
    } else {
        ours
    }
}

/// The `TuneOk` values Warpgate answers a target's `Tune` with.
pub open spec fn negotiated(target: TuneOffer) -> (u16, u32, u16) {
    (
        within_offer_u16(OUR_CHANNEL_MAX, target.channel_max),
        within_offer_u32(OUR_FRAME_MAX, target.frame_max),
        heartbeat_within(OUR_HEARTBEAT, target.heartbeat),
    )
}

/// TuneOk sent to the target has to stay within what it just offered; the
/// values already promised to the client (`OUR_*`) are used as-is only when
/// the target imposes no stricter limit (`0` conventionally means "no
/// limit"). A target requiring a *smaller* frame-max than what the client was
/// already told is a rare mismatch this proxy doesn't reconcile.
pub fn negotiate_tune(target: &TuneOffer) -> (r: (u16, u32, u16))
    ensures
        r == negotiated(*target),
{
    let channel_max = if target.channel_max == 0 {
        OUR_CHANNEL_MAX
    } else if target.channel_max < OUR_CHANNEL_MAX {
        target.channel_max
    } else {
        OUR_CHANNEL_MAX
    };
    let frame_max = if target.frame_max == 0 {
        OUR_FRAME_MAX
    } else if target.frame_max < OUR_FRAME_MAX {
        target.frame_max
    } else {
        OUR_FRAME_MAX
    };
    let heartbeat = if target.heartbeat == 0 || OUR_HEARTBEAT == 0 {
        0
    } else if target.heartbeat < OUR_HEARTBEAT {
        target.heartbeat
    } else {
        OUR_HEARTBEAT
    };
    (channel_max, frame_max, heartbeat)
}

/// The negotiated values never exceed what the target offered (where it set
/// a limit) nor what Warpgate already promised the client; a target that
/// sets no limit gets Warpgate's own values; the heartbeat is disabled
/// exactly when the target disables it; and each value is one of the two
/// offered, so it is the smaller of them, never tightened further.
pub proof fn law_tune_never_exceeds_offer(target: TuneOffer)
    ensures
        ({
            let (channel_max, frame_max, heartbeat) = negotiated(target);
            &&& target.channel_max != 0 ==> channel_max <= target.channel_max
            &&& target.frame_max != 0 ==> frame_max <= target.frame_max
            &&& heartbeat <= target.heartbeat
            &&& channel_max <= OUR_CHANNEL_MAX
            &&& frame_max <= OUR_FRAME_MAX
            &&& heartbeat <= OUR_HEARTBEAT
            &&& target.channel_max == 0 ==> channel_max == OUR_CHANNEL_MAX
            &&& target.frame_max == 0 ==> frame_max == OUR_FRAME_MAX
            &&& (heartbeat == 0 <==> target.heartbeat == 0)
            &&& channel_max == target.channel_max || channel_max == OUR_CHANNEL_MAX
            &&& frame_max == target.frame_max || frame_max == OUR_FRAME_MAX
            &&& heartbeat == target.heartbeat || heartbeat == OUR_HEARTBEAT
        }),
{
}

/// Offering Warpgate's own values back negotiates them unchanged.
pub proof fn law_tune_own_offer_is_fixed_point()
    ensures
        negotiated(
            TuneOffer {
                channel_max: OUR_CHANNEL_MAX,
                frame_max: OUR_FRAME_MAX,
                heartbeat: OUR_HEARTBEAT,
            },
        ) == (OUR_CHANNEL_MAX, OUR_FRAME_MAX, OUR_HEARTBEAT),
{
}

} // verus!
