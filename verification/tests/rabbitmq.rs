use warpgate_tunnel::client::{client_step, ClientAction, ClientPhase, TargetLogin};
use warpgate_tunnel::frames::{
    close_frame, frame_remainder_len, open_frame, open_ok_frame, peer_properties, start_frame,
    start_ok_frame, tune_frame, tune_ok_frame, ConnectionMethod, FrameKind, InboundFrame,
    OutboundFrame, OutboundMethod, PeerProperties, RabbitMqError,
};
use warpgate_tunnel::idle::{count_ascii_digits, default_idle_timeout, parse_idle_timeout};
use warpgate_tunnel::wire::{encode_frame, frame_fits, read_frame_body};
use warpgate_tunnel::relay::{relay_on_read, relay_wait, ReadOutcome, RelayEnd, RelayStep, RelayWait};
use warpgate_tunnel::sasl::{mechanisms_contains_plain, parse_plain_response, plain_response};
use warpgate_tunnel::session::{
    denied_close_frame, idle_close, session_step, SessionAction, SessionEvent, SessionPhase,
};
use warpgate_tunnel::span::Span;
use warpgate_tunnel::tune::{
    negotiate_tune, TuneOffer, OUR_CHANNEL_MAX, OUR_FRAME_MAX, OUR_HEARTBEAT, PROTOCOL_HEADER,
};

#[test]
fn tune_negotiation_never_exceeds_the_targets_offer() {
    assert_eq!(
        negotiate_tune(&TuneOffer { channel_max: 100, frame_max: 4096, heartbeat: 30 }),
        (100, 4096, 30)
    );
    // 0 conventionally means "no limit" - fall back to our own values.
    assert_eq!(
        negotiate_tune(&TuneOffer { channel_max: 0, frame_max: 0, heartbeat: 0 }),
        (OUR_CHANNEL_MAX, OUR_FRAME_MAX, 0)
    );
}

#[test]
fn tune_negotiation_keeps_our_values_below_a_larger_offer() {
    assert_eq!(
        negotiate_tune(&TuneOffer { channel_max: 65535, frame_max: 1_000_000, heartbeat: 600 }),
        (OUR_CHANNEL_MAX, OUR_FRAME_MAX, OUR_HEARTBEAT)
    );
    assert_eq!(
        negotiate_tune(&TuneOffer { channel_max: 0, frame_max: 8192, heartbeat: 0 }),
        (OUR_CHANNEL_MAX, 8192, 0)
    );
}

#[test]
fn explicit_zero_disables() {
    assert_eq!(parse_idle_timeout(Some("0")), None);
    assert_eq!(parse_idle_timeout(Some("0s")), None);
}

#[test]
fn valid_duration_is_used() {
    assert_eq!(parse_idle_timeout(Some("30m")), Some(Span::from_secs(30 * 60)));
}

#[test]
fn unset_or_unparseable_uses_default() {
    assert_eq!(parse_idle_timeout(None), Some(default_idle_timeout()));
    assert_eq!(parse_idle_timeout(Some("garbage")), Some(default_idle_timeout()));
}

#[test]
fn idle_timeout_is_trimmed_and_blank_uses_default() {
    assert_eq!(parse_idle_timeout(Some("  90s \n")), Some(Span::from_secs(90)));
    assert_eq!(parse_idle_timeout(Some("   ")), Some(default_idle_timeout()));
    assert_eq!(parse_idle_timeout(Some("")), Some(default_idle_timeout()));
    assert_eq!(parse_idle_timeout(Some("250ms")), Some(Span { secs: 0, nanos: 250_000_000 }));
    assert_eq!(default_idle_timeout(), Span::from_secs(600));
}

#[test]
fn idle_close_renders_durations_with_humantime() {
    assert_eq!(
        idle_close(Span { secs: 0, nanos: 32_000_000 }, Span::from_secs(1)),
        "CONNECTION_FORCED - Session idle for 32ms exceeded configured timeout of 1s. Please reconnect."
    );
}

#[test]
fn mechanisms_list_offers_plain() {
    assert!(mechanisms_contains_plain(b"PLAIN"));
    assert!(mechanisms_contains_plain(b"AMQPLAIN PLAIN"));
    assert!(mechanisms_contains_plain(b"PLAIN AMQPLAIN"));
    assert!(mechanisms_contains_plain(b"  EXTERNAL\tPLAIN\n"));
    assert!(mechanisms_contains_plain(b"AMQPLAIN\xc2\xa0PLAIN"));
    assert!(mechanisms_contains_plain(b"\xff PLAIN"));
    assert!(!mechanisms_contains_plain(b"AMQPLAIN"));
    assert!(!mechanisms_contains_plain(b"PLAINTEXT"));
    assert!(!mechanisms_contains_plain(b"\xffPLAIN"));
    assert!(!mechanisms_contains_plain(b"plain"));
    assert!(!mechanisms_contains_plain(b""));
}

#[test]
fn plain_response_is_parsed() {
    assert_eq!(
        parse_plain_response(b"\0myuser\0mypass"),
        Some(("myuser".to_string(), "mypass".to_string()))
    );
    assert_eq!(
        parse_plain_response(b"authz\0user#target\0pa\0ss"),
        Some(("user#target".to_string(), "pa\0ss".to_string()))
    );
    assert_eq!(parse_plain_response(b"\0\0"), Some((String::new(), String::new())));
    assert_eq!(parse_plain_response(b"\0only-a-user"), None);
    assert_eq!(parse_plain_response(b"no-separators"), None);
    assert_eq!(
        parse_plain_response(b"\0us\xffer\0pw"),
        Some(("us\u{fffd}er".to_string(), "pw".to_string()))
    );
}

#[test]
fn plain_response_round_trips() {
    let response = plain_response("myuser", "mypass");
    assert_eq!(response, b"\0myuser\0mypass".to_vec());
    assert_eq!(
        parse_plain_response(&response),
        Some(("myuser".to_string(), "mypass".to_string()))
    );
}

#[test]
fn frame_sizes_are_checked() {
    assert_eq!(frame_remainder_len(&[1, 0, 0, 0, 0, 0, 4]), Ok(5));
    assert_eq!(frame_remainder_len(&[1, 0, 0, 0, 0x10, 0, 0]), Ok(1_048_577));
    assert_eq!(
        frame_remainder_len(&[1, 0, 0, 0, 0x10, 0, 1]),
        Err(RabbitMqError::ProtocolError("frame too large (1048577 bytes)".to_string()))
    );
    assert_eq!(
        frame_remainder_len(&[1, 0, 0, 0xff, 0xff, 0xff, 0xff]),
        Err(RabbitMqError::ProtocolError("frame too large (4294967295 bytes)".to_string()))
    );
}

#[test]
fn handshake_frames_hold_warpgates_values() {
    assert_eq!(
        peer_properties("1.2.3"),
        PeerProperties { product: b"Warpgate".to_vec(), version: b"1.2.3".to_vec() }
    );
    assert_eq!(
        start_frame("1.2.3"),
        OutboundFrame {
            channel: 0,
            method: OutboundMethod::Start {
                version_major: 0,
                version_minor: 9,
                server_properties: peer_properties("1.2.3"),
                mechanisms: b"PLAIN".to_vec(),
                locales: b"en_US".to_vec(),
            },
        }
    );
    assert_eq!(
        tune_frame().method,
        OutboundMethod::Tune(TuneOffer { channel_max: 2047, frame_max: 131_072, heartbeat: 60 })
    );
    assert_eq!(open_ok_frame().method, OutboundMethod::OpenOk);
    assert_eq!(
        denied_close_frame(),
        close_frame(
            530,
            "ACCESS_REFUSED - Login was refused using authentication mechanism PLAIN. For details see the broker logfile.".to_string()
        )
    );
}

fn frame(channel: u16, method: ConnectionMethod) -> SessionEvent {
    SessionEvent::FrameRead(FrameKind::Connection { channel, method })
}

fn close(code: u16, text: &str) -> SessionAction {
    SessionAction::CloseAndFinish(close_frame(code, text.to_string()))
}

#[test]
fn session_walks_through_a_successful_handshake() {
    let v = "1.2.3";
    let (p, a) = session_step(SessionPhase::AwaitHeader, SessionEvent::HeaderRead(PROTOCOL_HEADER.to_vec()), v);
    assert_eq!((p, a), (SessionPhase::AwaitStartOk, SessionAction::SendAndRead(start_frame(v))));
    let start_ok = frame(
        0,
        ConnectionMethod::StartOk { mechanism: "PLAIN".to_string(), response: b"\0alice#mq\0secret".to_vec() },
    );
    let (p, a) = session_step(p, start_ok, v);
    assert_eq!(p, SessionPhase::Authorizing);
    assert_eq!(
        a,
        SessionAction::Authorize { username: "alice#mq".to_string(), password: "secret".to_string() }
    );
    let (p, a) = session_step(p, SessionEvent::TargetApproved { rabbitmq: true }, v);
    assert_eq!((p, a), (SessionPhase::AwaitTuneOk, SessionAction::ReadFrame));
    let (p, a) = session_step(p, frame(0, ConnectionMethod::TuneOk), v);
    assert_eq!((p, a), (SessionPhase::AwaitOpen, SessionAction::ReadFrame));
    let (p, a) = session_step(p, frame(0, ConnectionMethod::Open { virtual_host: "/my-vhost".to_string() }), v);
    assert_eq!(
        (p, a),
        (SessionPhase::Connecting, SessionAction::Connect { virtual_host: "/my-vhost".to_string() })
    );
    let (p, a) = session_step(p, SessionEvent::TargetConnected, v);
    assert_eq!((p, a), (SessionPhase::Relaying, SessionAction::OpenAndRelay(open_ok_frame())));
    let (p, a) = session_step(p, SessionEvent::RelayEnded(RelayEnd::Eof), v);
    assert_eq!((p, a), (SessionPhase::Finished, SessionAction::Finish));
}

#[test]
fn session_refuses_what_it_cannot_serve() {
    let v = "1.2.3";
    let (p, a) = session_step(SessionPhase::AwaitHeader, SessionEvent::HeaderRead(b"AMQP\x00\x00\x08\x00".to_vec()), v);
    assert_eq!((p, a), (SessionPhase::Finished, SessionAction::ReplyHeaderAndFinish));
    let (_, a) = session_step(SessionPhase::AwaitHeader, SessionEvent::HeaderUnreadable, v);
    assert_eq!(a, SessionAction::Finish);
    let (_, a) = session_step(
        SessionPhase::AwaitStartOk,
        frame(0, ConnectionMethod::StartOk { mechanism: "AMQPLAIN".to_string(), response: vec![] }),
        v,
    );
    assert_eq!(a, close(503, "COMMAND_INVALID - only the PLAIN SASL mechanism is supported"));
    let (_, a) = session_step(
        SessionPhase::AwaitStartOk,
        frame(0, ConnectionMethod::StartOk { mechanism: "PLAIN".to_string(), response: b"\0alice".to_vec() }),
        v,
    );
    assert_eq!(a, close(503, "COMMAND_INVALID - malformed PLAIN response"));
    let (_, a) = session_step(
        SessionPhase::AwaitStartOk,
        frame(1, ConnectionMethod::StartOk { mechanism: "PLAIN".to_string(), response: b"\0a\0b".to_vec() }),
        v,
    );
    assert_eq!(a, close(503, "COMMAND_INVALID - expected Connection.StartOk"));
    let (_, a) = session_step(SessionPhase::Authorizing, SessionEvent::TargetApproved { rabbitmq: false }, v);
    assert_eq!(a, close(530, "NOT_ALLOWED - Warpgate target not found"));
    let (p, a) = session_step(SessionPhase::Authorizing, SessionEvent::AuthorizationEnded, v);
    assert_eq!((p, a), (SessionPhase::Finished, SessionAction::Finish));
    let (_, a) = session_step(SessionPhase::AwaitTuneOk, SessionEvent::FrameRead(FrameKind::Other), v);
    assert_eq!(a, close(503, "COMMAND_INVALID - expected Connection.TuneOk"));
    let (_, a) = session_step(SessionPhase::AwaitOpen, frame(0, ConnectionMethod::TuneOk), v);
    assert_eq!(a, close(503, "COMMAND_INVALID - expected Connection.Open"));
    let (_, a) = session_step(SessionPhase::Connecting, SessionEvent::TargetFailed, v);
    assert_eq!(
        a,
        SessionAction::CloseAndFail(close_frame(541, "INTERNAL_ERROR - Warpgate target connection failed".to_string()))
    );
}

#[test]
fn session_closes_idle_sessions_with_both_durations() {
    let elapsed = Span::from_secs(601);
    let timeout = Span::from_secs(600);
    assert_eq!(
        idle_close(elapsed, timeout),
        "CONNECTION_FORCED - Session idle for 10m 1s exceeded configured timeout of 10m. Please reconnect."
    );
    let (p, a) = session_step(
        SessionPhase::Relaying,
        SessionEvent::RelayEnded(RelayEnd::IdleTimeout { elapsed, timeout }),
        "1.2.3",
    );
    assert_eq!(p, SessionPhase::Finished);
    assert_eq!(
        a,
        close(530, "CONNECTION_FORCED - Session idle for 10m 1s exceeded configured timeout of 10m. Please reconnect.")
    );
}

fn inbound(channel: u16, method: ConnectionMethod, description: &str) -> InboundFrame {
    InboundFrame { kind: FrameKind::Connection { channel, method }, description: description.to_string() }
}

fn login() -> TargetLogin {
    TargetLogin {
        username: "myuser".to_string(),
        password: "mypass".to_string(),
        virtual_host: "/my-vhost".to_string(),
        version: "1.2.3".to_string(),
    }
}

#[test]
fn client_handshake_against_mock_broker_frames() {
    let login = login();
    let start = inbound(0, ConnectionMethod::Start { mechanisms: b"PLAIN".to_vec() }, "Start");
    let (p, a) = client_step(ClientPhase::AwaitStart, &start, &login);
    assert_eq!(p, ClientPhase::AwaitTune);
    let expected = start_ok_frame("1.2.3", "myuser", "mypass");
    match &expected.method {
        OutboundMethod::StartOk { mechanism, response, locale, .. } => {
            assert_eq!(mechanism, "PLAIN");
            assert_eq!(response, b"\0myuser\0mypass");
            assert_eq!(locale, "en_US");
        }
        other => panic!("unexpected {other:?}"),
    }
    assert_eq!(a, ClientAction::SendAndRead(expected));
    let tune = inbound(0, ConnectionMethod::Tune(TuneOffer { channel_max: 100, frame_max: 4096, heartbeat: 30 }), "Tune");
    let (p, a) = client_step(p, &tune, &login);
    assert_eq!(p, ClientPhase::AwaitOpenOk);
    let tune_ok = tune_ok_frame(&TuneOffer { channel_max: 100, frame_max: 4096, heartbeat: 30 });
    assert_eq!(tune_ok.method, OutboundMethod::TuneOk(TuneOffer { channel_max: 100, frame_max: 4096, heartbeat: 30 }));
    assert_eq!(a, ClientAction::SendBothAndRead(tune_ok, open_frame("/my-vhost".to_string())));
    let (p, a) = client_step(p, &inbound(0, ConnectionMethod::OpenOk, "OpenOk"), &login);
    assert_eq!((p, a), (ClientPhase::Open, ClientAction::Done));
}

#[test]
fn client_handshake_reports_target_errors() {
    let login = login();
    let (p, a) = client_step(
        ClientPhase::AwaitStart,
        &inbound(0, ConnectionMethod::Start { mechanisms: b"AMQPLAIN EXTERNAL".to_vec() }, "Start"),
        &login,
    );
    assert_eq!(p, ClientPhase::Failed);
    assert_eq!(
        a,
        ClientAction::Fail(RabbitMqError::ProtocolError("target does not support the PLAIN SASL mechanism".to_string()))
    );
    let (_, a) = client_step(ClientPhase::AwaitStart, &inbound(0, ConnectionMethod::OpenOk, "OpenOk-ish"), &login);
    assert_eq!(
        a,
        ClientAction::Fail(RabbitMqError::ProtocolError(
            "expected Connection.Start from target, got OpenOk-ish".to_string()
        ))
    );
    let refused = inbound(0, ConnectionMethod::Close { reply_code: 403, reply_text: "ACCESS_REFUSED".to_string() }, "Close");
    let (_, a) = client_step(ClientPhase::AwaitTune, &refused, &login);
    assert_eq!(a, ClientAction::Fail(RabbitMqError::RemoteError("403: ACCESS_REFUSED".to_string())));
    let (_, a) = client_step(ClientPhase::AwaitOpenOk, &refused, &login);
    assert_eq!(a, ClientAction::Fail(RabbitMqError::RemoteError("403: ACCESS_REFUSED".to_string())));
    let other = InboundFrame { kind: FrameKind::Other, description: "Heartbeat".to_string() };
    let (_, a) = client_step(ClientPhase::AwaitOpenOk, &other, &login);
    assert_eq!(
        a,
        ClientAction::Fail(RabbitMqError::ProtocolError("expected Connection.OpenOk from target, got Heartbeat".to_string()))
    );
    let (_, a) = client_step(ClientPhase::AwaitTune, &other, &login);
    assert_eq!(
        a,
        ClientAction::Fail(RabbitMqError::ProtocolError("expected Connection.Tune from target, got Heartbeat".to_string()))
    );
}

#[test]
fn relay_waits_within_the_idle_deadline() {
    assert_eq!(relay_wait(None, Span::from_secs(1_000_000)), RelayWait::Wait(Span::from_secs(5)));
    let timeout = Span::from_secs(600);
    assert_eq!(relay_wait(Some(timeout), Span::from_secs(0)), RelayWait::Wait(Span::from_secs(5)));
    assert_eq!(relay_wait(Some(timeout), Span::from_secs(599)), RelayWait::Wait(Span::from_secs(1)));
    assert_eq!(
        relay_wait(Some(timeout), Span { secs: 598, nanos: 500_000_000 }),
        RelayWait::Wait(Span { secs: 1, nanos: 500_000_000 })
    );
    assert_eq!(relay_wait(Some(timeout), Span::from_secs(600)), RelayWait::Wait(Span::from_secs(0)));
    let elapsed = Span { secs: 600, nanos: 1 };
    assert_eq!(
        relay_wait(Some(timeout), elapsed),
        RelayWait::Finish(RelayEnd::IdleTimeout { elapsed, timeout })
    );
}

#[test]
fn relay_reads_forward_or_end() {
    assert_eq!(relay_on_read(ReadOutcome::Read(0)), RelayStep::Finish(RelayEnd::Eof));
    assert_eq!(relay_on_read(ReadOutcome::Read(42)), RelayStep::Forward(42));
    assert_eq!(relay_on_read(ReadOutcome::Failed), RelayStep::Finish(RelayEnd::Eof));
    assert_eq!(relay_on_read(ReadOutcome::TimedOut), RelayStep::Continue);
}

#[test]
fn idle_timeouts_with_too_many_digits_fall_back_to_the_default() {
    assert_eq!(count_ascii_digits("1h 30m 15s"), 5);
    assert_eq!(parse_idle_timeout(Some("99999999999s")), Some(Span::from_secs(99_999_999_999)));
    assert_eq!(parse_idle_timeout(Some("999999999999s")), Some(default_idle_timeout()));
    assert_eq!(parse_idle_timeout(Some("18446744073709551615s 1000ms")), Some(default_idle_timeout()));
}

#[test]
fn frames_round_trip_through_the_codec() {
    let tune = tune_frame();
    let bytes = encode_frame(&tune).unwrap();
    assert_eq!(bytes[0], 1);
    assert_eq!(*bytes.last().unwrap(), 0xCE);
    let decoded = read_frame_body(&bytes[..7], &bytes[7..]).unwrap();
    assert_eq!(
        decoded.kind,
        FrameKind::Connection {
            channel: 0,
            method: ConnectionMethod::Tune(TuneOffer {
                channel_max: OUR_CHANNEL_MAX,
                frame_max: OUR_FRAME_MAX,
                heartbeat: OUR_HEARTBEAT,
            }),
        }
    );
    let open = open_frame("/vhost".to_string());
    let bytes = encode_frame(&open).unwrap();
    let decoded = read_frame_body(&bytes[..7], &bytes[7..]).unwrap();
    assert_eq!(
        decoded.kind,
        FrameKind::Connection { channel: 0, method: ConnectionMethod::Open { virtual_host: "/vhost".to_string() } }
    );
    let start_ok = start_ok_frame("1.0", "alice", "pw");
    let bytes = encode_frame(&start_ok).unwrap();
    let decoded = read_frame_body(&bytes[..7], &bytes[7..]).unwrap();
    assert_eq!(
        decoded.kind,
        FrameKind::Connection {
            channel: 0,
            method: ConnectionMethod::StartOk { mechanism: "PLAIN".to_string(), response: plain_response("alice", "pw") },
        }
    );
}

#[test]
fn heartbeats_decode_as_other_frames() {
    let decoded = read_frame_body(&[8, 0, 0, 0, 0, 0, 0], &[0xCE]).unwrap();
    assert_eq!(decoded.kind, FrameKind::Other);
    assert_eq!(decoded.description, "Heartbeat");
}

#[test]
fn malformed_and_oversized_frames_are_refused() {
    match read_frame_body(&[1, 0, 0, 0, 0, 0, 1], &[0, 0x12]) {
        Err(RabbitMqError::ProtocolError(text)) => assert!(text.starts_with("malformed AMQP frame: ")),
        other => panic!("unexpected {other:?}"),
    }
    assert_eq!(
        read_frame_body(&[1, 0, 0, 0, 0x10, 0, 1], &[]),
        Err(RabbitMqError::ProtocolError("frame too large (1048577 bytes)".to_string()))
    );
}

#[test]
fn short_strings_over_255_bytes_do_not_fit() {
    assert!(frame_fits(&open_frame("a".repeat(255))));
    assert!(!frame_fits(&open_frame("a".repeat(256))));
    assert!(!frame_fits(&close_frame(320, "\u{e9}".repeat(128))));
    assert!(frame_fits(&tune_frame()));
}

#[test]
fn plain_responses_round_trip_unicode_credentials() {
    let response = plain_response("j\u{fc}rgen", "p\u{e4}ss\0word");
    assert_eq!(
        parse_plain_response(&response),
        Some(("j\u{fc}rgen".to_string(), "p\u{e4}ss\0word".to_string()))
    );
}
