use memcards::events::{EventData, StreamType};
use memcards::json::JsonValue;
use memcards::protocol::{classify_frame, InboundMessage};

fn jstr(s: &str) -> JsonValue {
    JsonValue::Str(s.to_string())
}

fn jnum(u: u64) -> JsonValue {
    JsonValue::Num { u_val: Some(u), i_val: Some(u as i64), f64_bits: (u as f64).to_bits() }
}

fn jobj(pairs: Vec<(&str, JsonValue)>) -> JsonValue {
    JsonValue::Object(pairs.into_iter().map(|(k, v)| (k.to_string(), v)).collect())
}

#[test]
fn connection_ack_carries_settings() {
    let frame = jobj(vec![("type", jstr("tpa_connection_ack")), ("settings", jstr("raw"))]);
    match classify_frame(&frame).unwrap() {
        InboundMessage::ConnectionAck { settings } => assert!(settings.is_some()),
        _ => panic!("expected an acknowledgment"),
    }
    let bare = jobj(vec![("type", jstr("connection_ack"))]);
    match classify_frame(&bare).unwrap() {
        InboundMessage::ConnectionAck { settings } => assert!(settings.is_none()),
        _ => panic!("expected an acknowledgment"),
    }
}

#[test]
fn connection_error_falls_back_to_fixed_wording() {
    let frame = jobj(vec![("type", jstr("connection_error"))]);
    match classify_frame(&frame).unwrap() {
        InboundMessage::ConnectionError { message } => {
            assert_eq!(message, "Unknown connection error");
        }
        _ => panic!("expected an error"),
    }
}

#[test]
fn transcription_stream_parses_with_language_suffix() {
    let data = jobj(vec![
        ("text", jstr("hello there")),
        ("isFinal", JsonValue::Bool(true)),
        ("startTime", jnum(5)),
        ("endTime", jnum(9)),
    ]);
    let frame = jobj(vec![
        ("type", jstr("data_stream")),
        ("streamType", jstr("transcription:en-US")),
        ("data", data),
    ]);
    match classify_frame(&frame).unwrap() {
        InboundMessage::Stream { tag, data } => {
            assert_eq!(tag, StreamType::Transcription);
            match data {
                EventData::Transcription(t) => {
                    assert_eq!(t.text, "hello there");
                    assert!(t.is_final);
                    assert_eq!(t.start_time, 5);
                    assert_eq!(t.duration, None);
                }
                _ => panic!("expected a transcription"),
            }
        }
        _ => panic!("expected a stream event"),
    }
}

#[test]
fn malformed_stream_payload_is_ignored_with_a_trace() {
    let frame = jobj(vec![
        ("type", jstr("data_stream")),
        ("streamType", jstr("button_press")),
        ("data", jobj(vec![("timestamp", jstr("t"))])),
    ]);
    assert!(matches!(classify_frame(&frame).unwrap(), InboundMessage::Ignored));
}

#[test]
fn unknown_stream_is_passed_through_raw() {
    let frame = jobj(vec![
        ("type", jstr("data_stream")),
        ("streamType", jstr("something_new")),
        ("data", jstr("payload")),
    ]);
    match classify_frame(&frame).unwrap() {
        InboundMessage::Stream { tag, data } => {
            assert_eq!(tag, StreamType::All);
            assert!(matches!(data, EventData::Generic(_)));
        }
        _ => panic!("expected the raw fallback"),
    }
}

#[test]
fn battery_stream_checks_the_level_range() {
    let good = jobj(vec![
        ("type", jstr("data_stream")),
        ("streamType", jstr("glasses_battery_update")),
        (
            "data",
            jobj(vec![
                ("level", jnum(95)),
                ("isCharging", JsonValue::Bool(false)),
                ("timestamp", jstr("t")),
            ]),
        ),
    ]);
    match classify_frame(&good).unwrap() {
        InboundMessage::Stream { tag, data } => {
            assert_eq!(tag, StreamType::GlassesBatteryUpdate);
            match data {
                EventData::GlassesBattery(b) => assert_eq!(b.level, 95),
                _ => panic!("expected battery data"),
            }
        }
        _ => panic!("expected a stream event"),
    }
    let out_of_range = jobj(vec![
        ("type", jstr("data_stream")),
        ("streamType", jstr("glasses_battery_update")),
        (
            "data",
            jobj(vec![
                ("level", jnum(300)),
                ("isCharging", JsonValue::Bool(false)),
                ("timestamp", jstr("t")),
            ]),
        ),
    ]);
    assert!(matches!(classify_frame(&out_of_range).unwrap(), InboundMessage::Ignored));
}

#[test]
fn settings_update_needs_its_payload() {
    let with = jobj(vec![("type", jstr("settings_update")), ("settings", jstr("x"))]);
    assert!(matches!(classify_frame(&with).unwrap(), InboundMessage::SettingsUpdate { .. }));
    let without = jobj(vec![("type", jstr("settings_update"))]);
    assert!(matches!(classify_frame(&without).unwrap(), InboundMessage::Ignored));
}

#[test]
fn permission_error_collects_string_details() {
    let frame = jobj(vec![
        ("type", jstr("permission_error")),
        ("message", jstr("not allowed")),
        ("details", JsonValue::Array(vec![jstr("microphone"), jnum(3), jstr("camera")])),
    ]);
    match classify_frame(&frame).unwrap() {
        InboundMessage::PermissionError { message, details } => {
            assert_eq!(message, "not allowed");
            assert_eq!(details, vec!["microphone".to_string(), "camera".to_string()]);
        }
        _ => panic!("expected a permission error"),
    }
}

#[test]
fn dashboard_and_custom_messages() {
    let mode = jobj(vec![("type", jstr("dashboard_mode_changed")), ("mode", jstr("expanded"))]);
    match classify_frame(&mode).unwrap() {
        InboundMessage::DashboardModeChanged { mode } => assert_eq!(mode, "expanded"),
        _ => panic!("expected a mode change"),
    }
    let always_on = jobj(vec![
        ("type", jstr("dashboard_always_on_changed")),
        ("enabled", JsonValue::Bool(true)),
    ]);
    match classify_frame(&always_on).unwrap() {
        InboundMessage::DashboardAlwaysOnChanged { enabled } => assert!(enabled),
        _ => panic!("expected an always-on change"),
    }
    let custom = jobj(vec![
        ("type", jstr("custom_message")),
        ("action", jstr("ping")),
        ("payload", jstr("x")),
    ]);
    match classify_frame(&custom).unwrap() {
        InboundMessage::CustomMessage { action, .. } => assert_eq!(action, "ping"),
        _ => panic!("expected a custom message"),
    }
    let incomplete = jobj(vec![("type", jstr("custom_message")), ("action", jstr("ping"))]);
    assert!(matches!(classify_frame(&incomplete).unwrap(), InboundMessage::Ignored));
}

#[test]
fn lifecycle_and_unknown_frames() {
    let stopped = jobj(vec![("type", jstr("app_stopped"))]);
    assert!(matches!(classify_frame(&stopped).unwrap(), InboundMessage::AppStopped { .. }));
    let ack = jobj(vec![("type", jstr("subscription_update_ack"))]);
    assert!(matches!(classify_frame(&ack).unwrap(), InboundMessage::SubscriptionAck { .. }));
    let unknown = jobj(vec![("type", jstr("mystery"))]);
    match classify_frame(&unknown).unwrap() {
        InboundMessage::Unhandled { msg_type } => assert_eq!(msg_type, "mystery"),
        _ => panic!("expected the unhandled fallback"),
    }
}

#[test]
fn frame_without_type_is_malformed() {
    let frame = jobj(vec![("data", jstr("x"))]);
    assert!(classify_frame(&frame).is_err());
    let non_object = jstr("just text");
    assert!(classify_frame(&non_object).is_err());
}

#[test]
fn json_accessors_read_their_own_shape() {
    let v = jobj(vec![("a", jnum(7)), ("b", JsonValue::Bool(true)), ("c", jstr("s"))]);
    assert_eq!(v.get("a").and_then(|m| m.as_u64()), Some(7));
    assert_eq!(v.get("b").and_then(|m| m.as_bool()), Some(true));
    assert_eq!(v.get("c").and_then(|m| m.as_str()), Some("s"));
    assert!(v.get("missing").is_none());
    assert!(jnum(7).get("a").is_none());
    assert_eq!(jnum(7).as_i64(), Some(7));
}
