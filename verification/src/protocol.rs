//! The inbound protocol: one closed tagged type for every frame the session
//! host can push, the classifier that reads a JSON frame into it, and the
//! dispatcher that fans a classified frame out over the event bus.
//!
//! A frame that is recognized but carries nothing to act on becomes
//! `Ignored`; an unknown discriminator becomes `Unhandled` with its name, so
//! nothing is ever dropped without a trace.

use vstd::prelude::*;

use crate::errors::ProtocolError;
use crate::event_manager::{kind_count, tag_count, EventManager, StreamHandler, SystemHandler};
use crate::events::{
    audio_chunk_parses, audio_chunk_represents, battery_parses, battery_represents,
    button_press_parses, button_press_represents, calendar_event_parses,
    calendar_event_represents, head_position_parses, head_position_represents, location_parses,
    location_represents, parse_audio_chunk, parse_battery, parse_button_press,
    parse_calendar_event, parse_head_position, parse_location, parse_phone_notification,
    parse_photo_taken, parse_transcription, parse_translation, parse_vad, parse_vps_coordinates,
    phone_notification_parses, phone_notification_represents, photo_taken_parses,
    photo_taken_represents, spec_bool_member, spec_str_member, transcription_parses,
    transcription_represents, translation_parses, translation_represents, vad_parses,
    vad_represents, vps_coordinates_parses, vps_coordinates_represents, EventData, StreamType,
    SystemEvent, SystemEventKind,
};
use crate::json::JsonValue;
use crate::text::{starts_with, starts_with_str, str_eq};

verus! {

/// Every inbound frame, classified.
#[derive(Debug)]
pub enum InboundMessage<'a> {
    /// The host acknowledged the connection, possibly delivering settings.
    ConnectionAck { settings: Option<&'a JsonValue> },
    /// The host refused the connection.
    ConnectionError { message: String },
    /// One telemetry event on a stream.
    Stream { tag: StreamType, data: EventData<'a> },
    /// The user's settings changed.
    SettingsUpdate { settings: &'a JsonValue },
    /// A subscription was refused for lack of permission.
    PermissionError { message: String, details: Vec<String> },
    /// The dashboard switched modes.
    DashboardModeChanged { mode: String },
    /// The dashboard's always-on state flipped.
    DashboardAlwaysOnChanged { enabled: bool },
    /// An application-defined message.
    CustomMessage { action: String, payload: &'a JsonValue },
    /// The host stopped the application; carries the whole frame.
    AppStopped { payload: &'a JsonValue },
    /// The host confirmed the subscription list; carries the whole frame.
    SubscriptionAck { payload: &'a JsonValue },
    /// A recognized frame with nothing to act on.
    Ignored,
    /// A frame whose discriminator this protocol does not know.
    Unhandled { msg_type: String },
}

/// The message member of `v`, or the given default when absent or not a string.
pub open spec fn message_or(v: JsonValue, default: Seq<char>) -> Seq<char> {
    match spec_str_member(v, "message"@) {
        Some(m) => m,
        None => default,
    }
}

/// The string elements of `items`, in order, the rest skipped.
pub open spec fn string_values(items: Seq<JsonValue>) -> Seq<Seq<char>>
    decreases items.len(),
{
    if items.len() == 0 {
        Seq::empty()
    } else {
        let rest = string_values(items.drop_first());
        match items[0].spec_as_str() {
            Some(s) => seq![s] + rest,
            None => rest,
        }
    }
}

/// The string elements of the `details` member, when it is an array.
pub open spec fn permission_details(v: JsonValue) -> Seq<Seq<char>> {
    match v.spec_get("details"@) {
        Some(d) => match d.spec_as_array() {
            Some(items) => string_values(items),
            None => Seq::empty(),
        },
        None => Seq::empty(),
    }
}

/// The view of a list of owned strings.
pub open spec fn strings_view(v: Vec<String>) -> Seq<Seq<char>> {
    v@.map_values(|s: String| s@)
}

/// The stream discriminator of a data frame; `unknown` when absent.
pub open spec fn stream_type_of(v: JsonValue) -> Seq<char> {
    match spec_str_member(v, "streamType"@) {
        Some(s) => s,
        None => "unknown"@,
    }
}

/// How a data-stream payload under discriminator `st` is classified.
pub open spec fn data_stream_classifies<'a>(
    data: JsonValue,
    st: Seq<char>,
    m: InboundMessage<'a>,
) -> bool {
    if st == "translation"@ {
        if translation_parses(data) {
            m matches InboundMessage::Stream {
                tag: StreamType::Translation,
                data: EventData::Translation(d),
            } && translation_represents(data, d)
        } else {
            m == InboundMessage::Ignored
        }
    } else if st == "head_position"@ {
        if head_position_parses(data) {
            m matches InboundMessage::Stream {
                tag: StreamType::HeadPosition,
                data: EventData::HeadPosition(d),
            } && head_position_represents(data, d)
        } else {
            m == InboundMessage::Ignored
        }
    } else if st == "button_press"@ {
        if button_press_parses(data) {
            m matches InboundMessage::Stream {
                tag: StreamType::ButtonPress,
                data: EventData::ButtonPress(d),
            } && button_press_represents(data, d)
        } else {
            m == InboundMessage::Ignored
        }
    } else if st == "location_update"@ {
        if location_parses(data) {
            m matches InboundMessage::Stream {
                tag: StreamType::LocationUpdate,
                data: EventData::LocationUpdate(d),
            } && location_represents(data, d)
        } else {
            m == InboundMessage::Ignored
        }
    } else if st == "vad"@ {
        if vad_parses(data) {
            m matches InboundMessage::Stream {
                tag: StreamType::Vad,
                data: EventData::VoiceActivity(d),
            } && vad_represents(data, d)
        } else {
            m == InboundMessage::Ignored
        }
    } else if st == "phone_notification"@ {
        if phone_notification_parses(data) {
            m matches InboundMessage::Stream {
                tag: StreamType::PhoneNotification,
                data: EventData::PhoneNotification(d),
            } && phone_notification_represents(data, d)
        } else {
            m == InboundMessage::Ignored
        }
    } else if st == "calendar_event"@ {
        if calendar_event_parses(data) {
            m matches InboundMessage::Stream {
                tag: StreamType::CalendarEvent,
                data: EventData::CalendarEvent(d),
            } && calendar_event_represents(data, d)
        } else {
            m == InboundMessage::Ignored
        }
    } else if st == "glasses_battery_update"@ {
        if battery_parses(data) {
            m matches InboundMessage::Stream {
                tag: StreamType::GlassesBatteryUpdate,
                data: EventData::GlassesBattery(d),
            } && battery_represents(data, d)
        } else {
            m == InboundMessage::Ignored
        }
    } else if st == "phone_battery_update"@ {
        if battery_parses(data) {
            m matches InboundMessage::Stream {
                tag: StreamType::PhoneBatteryUpdate,
                data: EventData::PhoneBattery(d),
            } && battery_represents(data, d)
        } else {
            m == InboundMessage::Ignored
        }
    } else if st == "vps_coordinates"@ {
        if vps_coordinates_parses(data) {
            m matches InboundMessage::Stream {
                tag: StreamType::VpsCoordinates,
                data: EventData::VpsCoordinates(d),
            } && vps_coordinates_represents(data, d)
        } else {
            m == InboundMessage::Ignored
        }
    } else if st == "photo_taken"@ {
        if photo_taken_parses(data) {
            m matches InboundMessage::Stream {
                tag: StreamType::PhotoTaken,
                data: EventData::PhotoTaken(d),
            } && photo_taken_represents(data, d)
        } else {
            m == InboundMessage::Ignored
        }
    } else if st == "audio_chunk"@ {
        if audio_chunk_parses(data) {
            m matches InboundMessage::Stream {
                tag: StreamType::AudioChunk,
                data: EventData::AudioChunk(d),
            } && audio_chunk_represents(data, d)
        } else {
            m == InboundMessage::Ignored
        }
    } else if starts_with(st, "transcription"@) {
        if transcription_parses(data) {
            m matches InboundMessage::Stream {
                tag: StreamType::Transcription,
                data: EventData::Transcription(d),
            } && transcription_represents(data, d)
        } else {
            m == InboundMessage::Ignored
        }
    } else {
        m matches InboundMessage::Stream { tag: StreamType::All, data: EventData::Generic(g) }
            && *g == data
    }
}

/// How a whole frame is classified, given that its discriminator is a string.
pub open spec fn classifies<'a>(frame: JsonValue, m: InboundMessage<'a>) -> bool {
    match spec_str_member(frame, "type"@) {
        None => false,
        Some(t) => if t == "tpa_connection_ack"@ || t == "connection_ack"@ {
            match m {
                InboundMessage::ConnectionAck { settings } => match frame.spec_get("settings"@) {
                    Some(sv) => settings matches Some(p) && *p == sv,
                    None => settings is None,
                },
                _ => false,
            }
        } else if t == "tpa_connection_error"@ || t == "connection_error"@ {
            m matches InboundMessage::ConnectionError { message } && message@ == message_or(
                frame,
                "Unknown connection error"@,
            )
        } else if t == "data_stream"@ {
            match frame.spec_get("data"@) {
                None => m == InboundMessage::Ignored,
                Some(data) => data_stream_classifies(data, stream_type_of(frame), m),
            }
        } else if t == "settings_update"@ {
            match frame.spec_get("settings"@) {
                Some(sv) => m matches InboundMessage::SettingsUpdate { settings } && *settings
                    == sv,
                None => m == InboundMessage::Ignored,
            }
        } else if t == "permission_error"@ {
            m matches InboundMessage::PermissionError { message, details } && message@
                == message_or(frame, "Permission denied"@) && strings_view(details)
                == permission_details(frame)
        } else if t == "dashboard_mode_changed"@ {
            match spec_str_member(frame, "mode"@) {
                Some(md) => m matches InboundMessage::DashboardModeChanged { mode } && mode@ == md,
                None => m == InboundMessage::Ignored,
            }
        } else if t == "dashboard_always_on_changed"@ {
            match spec_bool_member(frame, "enabled"@) {
                Some(en) => m == (InboundMessage::DashboardAlwaysOnChanged { enabled: en }),
                None => m == InboundMessage::Ignored,
            }
        } else if t == "custom_message"@ {
            match (spec_str_member(frame, "action"@), frame.spec_get("payload"@)) {
                (Some(a), Some(p)) => m matches InboundMessage::CustomMessage { action, payload }
                    && action@ == a && *payload == p,
                _ => m == InboundMessage::Ignored,
            }
        } else if t == "app_stopped"@ {
            m matches InboundMessage::AppStopped { payload } && *payload == frame
        } else if t == "subscription_ack"@ || t == "subscription_update_ack"@ {
            m matches InboundMessage::SubscriptionAck { payload } && *payload == frame
        } else {
            m matches InboundMessage::Unhandled { msg_type } && msg_type@ == t
        },
    }
}

/// Read the string elements of the `details` member.
fn permission_details_of(frame: &JsonValue) -> (r: Vec<String>)
    ensures
        strings_view(r) == permission_details(*frame),
{
    let mut out: Vec<String> = Vec::new();
    let items: &Vec<JsonValue> = match frame.get("details") {
        Some(d) => match d.as_array() {
            Some(items) => items,
            None => {
                proof {
                    assert(strings_view(out) =~= permission_details(*frame));
                }
                return out;
            },
        },
        None => {
            proof {
                assert(strings_view(out) =~= permission_details(*frame));
            }
            return out;
        },
    };
    let mut i: usize = 0;
    while i < items.len()
        invariant
            0 <= i <= items@.len(),
            strings_view(out) =~= string_values(items@.take(i as int)),
        decreases items@.len() - i,
    {
        proof {
            lemma_string_values_take_step(items@, i as int);
        }
        match items[i].as_str() {
            Some(s) => {
                let owned = s.to_owned();
                out.push(owned);
            },
            None => {},
        }
        proof {
            assert(strings_view(out) =~= string_values(items@.take(i + 1)));
        }
        i = i + 1;
    }
    proof {
        assert(items@.take(items@.len() as int) =~= items@);
    }
    out
}

/// Walking one element further extends the collected strings by that
/// element's string, when it has one.
proof fn lemma_string_values_take_step(items: Seq<JsonValue>, i: int)
    requires
        0 <= i < items.len(),
    ensures
        string_values(items.take(i + 1)) == match items[i].spec_as_str() {
            Some(s) => string_values(items.take(i)) + seq![s],
            None => string_values(items.take(i)),
        },
    decreases i,
{
    if i == 0 {
        assert(items.take(1).drop_first() =~= items.take(0));
        assert(string_values(items.take(0)) =~= Seq::empty());
        match items[0].spec_as_str() {
            Some(s) => {
                assert(string_values(items.take(1)) =~= seq![s]);
                assert(string_values(items.take(0)) + seq![s] =~= seq![s]);
            },
            None => {},
        }
    } else {
        lemma_string_values_take_step(items.drop_first(), i - 1);
        assert(items.take(i + 1).drop_first() =~= items.drop_first().take(i));
        assert(items.take(i).drop_first() =~= items.drop_first().take(i - 1));
        assert(items.take(i + 1)[0] == items[0]);
        assert(items.take(i)[0] == items[0]);
        assert(items.drop_first()[i - 1] == items[i]);
        match items[0].spec_as_str() {
            Some(s0) => {
                match items[i].spec_as_str() {
                    Some(s) => {
                        assert(seq![s0] + (string_values(items.drop_first().take(i - 1))
                            + seq![s]) =~= (seq![s0] + string_values(
                            items.drop_first().take(i - 1),
                        )) + seq![s]);
                    },
                    None => {},
                }
            },
            None => {},
        }
    }
}

/// Read the message member, or fall back to a fixed wording.
fn message_of(frame: &JsonValue, default: &str) -> (r: String)
    ensures
        r@ == message_or(*frame, default@),
{
    match frame.get("message") {
        Some(m) => match m.as_str() {
            Some(s) => s.to_owned(),
            None => default.to_owned(),
        },
        None => default.to_owned(),
    }
}

/// Classify one data-stream frame's payload.
fn classify_data_stream<'a>(data: &'a JsonValue, st: &str) -> (m: InboundMessage<'a>)
    ensures
        data_stream_classifies(*data, st@, m),
{
    if str_eq(st, "translation") {
        match parse_translation(data) {
            Some(d) => InboundMessage::Stream {
                tag: StreamType::Translation,
                data: EventData::Translation(d),
            },
            None => InboundMessage::Ignored,
        }
    } else if str_eq(st, "head_position") {
        match parse_head_position(data) {
            Some(d) => InboundMessage::Stream {
                tag: StreamType::HeadPosition,
                data: EventData::HeadPosition(d),
            },
            None => InboundMessage::Ignored,
        }
    } else if str_eq(st, "button_press") {
        match parse_button_press(data) {
            Some(d) => InboundMessage::Stream {
                tag: StreamType::ButtonPress,
                data: EventData::ButtonPress(d),
            },
            None => InboundMessage::Ignored,
        }
    } else if str_eq(st, "location_update") {
        match parse_location(data) {
            Some(d) => InboundMessage::Stream {
                tag: StreamType::LocationUpdate,
                data: EventData::LocationUpdate(d),
            },
            None => InboundMessage::Ignored,
        }
    } else if str_eq(st, "vad") {
        match parse_vad(data) {
            Some(d) => InboundMessage::Stream {
                tag: StreamType::Vad,
                data: EventData::VoiceActivity(d),
            },
            None => InboundMessage::Ignored,
        }
    } else if str_eq(st, "phone_notification") {
        match parse_phone_notification(data) {
            Some(d) => InboundMessage::Stream {
                tag: StreamType::PhoneNotification,
                data: EventData::PhoneNotification(d),
            },
            None => InboundMessage::Ignored,
        }
    } else if str_eq(st, "calendar_event") {
        match parse_calendar_event(data) {
            Some(d) => InboundMessage::Stream {
                tag: StreamType::CalendarEvent,
                data: EventData::CalendarEvent(d),
            },
            None => InboundMessage::Ignored,
        }
    } else if str_eq(st, "glasses_battery_update") {
        match parse_battery(data) {
            Some(d) => InboundMessage::Stream {
                tag: StreamType::GlassesBatteryUpdate,
                data: EventData::GlassesBattery(d),
            },
            None => InboundMessage::Ignored,
        }
    } else if str_eq(st, "phone_battery_update") {
        match parse_battery(data) {
            Some(d) => InboundMessage::Stream {
                tag: StreamType::PhoneBatteryUpdate,
                data: EventData::PhoneBattery(d),
            },
            None => InboundMessage::Ignored,
        }
    } else if str_eq(st, "vps_coordinates") {
        match parse_vps_coordinates(data) {
            Some(d) => InboundMessage::Stream {
                tag: StreamType::VpsCoordinates,
                data: EventData::VpsCoordinates(d),
            },
            None => InboundMessage::Ignored,
        }
    } else if str_eq(st, "photo_taken") {
        match parse_photo_taken(data) {
            Some(d) => InboundMessage::Stream {
                tag: StreamType::PhotoTaken,
                data: EventData::PhotoTaken(d),
            },
            None => InboundMessage::Ignored,
        }
    } else if str_eq(st, "audio_chunk") {
        match parse_audio_chunk(data) {
            Some(d) => InboundMessage::Stream {
                tag: StreamType::AudioChunk,
                data: EventData::AudioChunk(d),
            },
            None => InboundMessage::Ignored,
        }
    } else if starts_with_str(st, "transcription") {
        match parse_transcription(data) {
            Some(d) => InboundMessage::Stream {
                tag: StreamType::Transcription,
                data: EventData::Transcription(d),
            },
            None => InboundMessage::Ignored,
        }
    } else {
        InboundMessage::Stream { tag: StreamType::All, data: EventData::Generic(data) }
    }
}

/// Classify one inbound frame. A frame without a string discriminator is the
/// one malformed case; everything else lands in exactly the arm that
/// `classifies` prescribes.
pub fn classify_frame<'a>(frame: &'a JsonValue) -> (r: Result<
    InboundMessage<'a>,
    ProtocolError,
>)
    ensures
        match r {
            Ok(m) => spec_str_member(*frame, "type"@) is Some && classifies(*frame, m),
            Err(e) => e == ProtocolError::MalformedPayload && spec_str_member(*frame, "type"@)
                is None,
        },
{
    let t: &str = match frame.get("type") {
        Some(m) => match m.as_str() {
            Some(s) => s,
            None => {
                return Err(ProtocolError::MalformedPayload);
            },
        },
        None => {
            return Err(ProtocolError::MalformedPayload);
        },
    };
    if str_eq(t, "tpa_connection_ack") || str_eq(t, "connection_ack") {
        Ok(InboundMessage::ConnectionAck { settings: frame.get("settings") })
    } else if str_eq(t, "tpa_connection_error") || str_eq(t, "connection_error") {
        Ok(InboundMessage::ConnectionError { message: message_of(frame, "Unknown connection error") })
    } else if str_eq(t, "data_stream") {
        let data = match frame.get("data") {
            Some(d) => d,
            None => {
                return Ok(InboundMessage::Ignored);
            },
        };
        let st: &str = match frame.get("streamType") {
            Some(m) => match m.as_str() {
                Some(s) => s,
                None => "unknown",
            },
            None => "unknown",
        };
        Ok(classify_data_stream(data, st))
    } else if str_eq(t, "settings_update") {
        match frame.get("settings") {
            Some(sv) => Ok(InboundMessage::SettingsUpdate { settings: sv }),
            None => Ok(InboundMessage::Ignored),
        }
    } else if str_eq(t, "permission_error") {
        Ok(
            InboundMessage::PermissionError {
                message: message_of(frame, "Permission denied"),
                details: permission_details_of(frame),
            },
        )
    } else if str_eq(t, "dashboard_mode_changed") {
        match frame.get("mode") {
            Some(m) => match m.as_str() {
                Some(md) => Ok(InboundMessage::DashboardModeChanged { mode: md.to_owned() }),
                None => Ok(InboundMessage::Ignored),
            },
            None => Ok(InboundMessage::Ignored),
        }
    } else if str_eq(t, "dashboard_always_on_changed") {
        match frame.get("enabled") {
            Some(m) => match m.as_bool() {
                Some(en) => Ok(InboundMessage::DashboardAlwaysOnChanged { enabled: en }),
                None => Ok(InboundMessage::Ignored),
            },
            None => Ok(InboundMessage::Ignored),
        }
    } else if str_eq(t, "custom_message") {
        let action = match frame.get("action") {
            Some(m) => match m.as_str() {
                Some(a) => a.to_owned(),
                None => {
                    return Ok(InboundMessage::Ignored);
                },
            },
            None => {
                return Ok(InboundMessage::Ignored);
            },
        };
        match frame.get("payload") {
            Some(p) => Ok(InboundMessage::CustomMessage { action, payload: p }),
            None => Ok(InboundMessage::Ignored),
        }
    } else if str_eq(t, "app_stopped") {
        Ok(InboundMessage::AppStopped { payload: frame })
    } else if str_eq(t, "subscription_ack") || str_eq(t, "subscription_update_ack") {
        Ok(InboundMessage::SubscriptionAck { payload: frame })
    } else {
        Ok(InboundMessage::Unhandled { msg_type: t.to_owned() })
    }
}

/// How many handler invocations dispatching `m` owes.
pub open spec fn dispatch_count<'a, H, S>(em: EventManager<H, S>, m: InboundMessage<'a>) -> int {
    match m {
        InboundMessage::ConnectionAck { .. } => kind_count(
            em.system_handlers@,
            SystemEventKind::Connected,
        ),
        InboundMessage::ConnectionError { .. } => kind_count(
            em.system_handlers@,
            SystemEventKind::Error,
        ),
        InboundMessage::Stream { tag, .. } => tag_count(em.stream_handlers@, tag),
        InboundMessage::SettingsUpdate { .. } => kind_count(
            em.system_handlers@,
            SystemEventKind::SettingsUpdate,
        ),
        InboundMessage::PermissionError { .. } => kind_count(
            em.system_handlers@,
            SystemEventKind::PermissionError,
        ),
        InboundMessage::DashboardModeChanged { .. } => kind_count(
            em.system_handlers@,
            SystemEventKind::DashboardModeChange,
        ),
        InboundMessage::DashboardAlwaysOnChanged { .. } => kind_count(
            em.system_handlers@,
            SystemEventKind::DashboardAlwaysOnChange,
        ),
        InboundMessage::CustomMessage { .. } => kind_count(
            em.system_handlers@,
            SystemEventKind::CustomMessage,
        ),
        InboundMessage::AppStopped { .. } => kind_count(
            em.system_handlers@,
            SystemEventKind::AppStopped,
        ),
        InboundMessage::SubscriptionAck { .. } => kind_count(
            em.system_handlers@,
            SystemEventKind::SubscriptionAck,
        ),
        InboundMessage::Ignored => 0,
        InboundMessage::Unhandled { .. } => 0,
    }
}

/// Fan one classified frame out to the handlers its kind owns, every handler
/// exactly once and failures collected, never propagated.
pub fn dispatch_message<'a, H: StreamHandler, S: SystemHandler>(
    em: &EventManager<H, S>,
    m: &InboundMessage<'a>,
) -> (results: Vec<Result<(), String>>)
    ensures
        results@.len() == dispatch_count(*em, *m),
{
    match m {
        InboundMessage::ConnectionAck { settings } => {
            let ev = SystemEvent::Connected(
                match settings {
                    Some(p) => Some(*p),
                    None => None,
                },
            );
            em.emit_system_event(SystemEventKind::Connected, &ev)
        },
        InboundMessage::ConnectionError { message } => {
            let ev = SystemEvent::Error(message.clone());
            em.emit_system_event(SystemEventKind::Error, &ev)
        },
        InboundMessage::Stream { tag, data } => em.emit_stream_event(tag, data),
        InboundMessage::SettingsUpdate { settings } => {
            let ev = SystemEvent::SettingsUpdate(settings);
            em.emit_system_event(SystemEventKind::SettingsUpdate, &ev)
        },
        InboundMessage::PermissionError { message, details } => {
            let ev = SystemEvent::PermissionError {
                message: message.clone(),
                details: details.clone(),
            };
            em.emit_system_event(SystemEventKind::PermissionError, &ev)
        },
        InboundMessage::DashboardModeChanged { mode } => {
            let ev = SystemEvent::DashboardModeChange { mode: mode.clone() };
            em.emit_system_event(SystemEventKind::DashboardModeChange, &ev)
        },
        InboundMessage::DashboardAlwaysOnChanged { enabled } => {
            let ev = SystemEvent::DashboardAlwaysOnChange { enabled: *enabled };
            em.emit_system_event(SystemEventKind::DashboardAlwaysOnChange, &ev)
        },
        InboundMessage::CustomMessage { action, payload } => {
            let ev = SystemEvent::CustomMessage { action: action.clone(), payload };
            em.emit_system_event(SystemEventKind::CustomMessage, &ev)
        },
        InboundMessage::AppStopped { payload } => {
            let ev = SystemEvent::CustomMessage {
                action: String::from_str("app_stopped"),
                payload,
            };
            em.emit_system_event(SystemEventKind::AppStopped, &ev)
        },
        InboundMessage::SubscriptionAck { payload } => {
            let ev = SystemEvent::CustomMessage {
                action: String::from_str("subscription_ack"),
                payload,
            };
            em.emit_system_event(SystemEventKind::SubscriptionAck, &ev)
        },
        InboundMessage::Ignored => Vec::new(),
        InboundMessage::Unhandled { .. } => Vec::new(),
    }
}

} // verus!
