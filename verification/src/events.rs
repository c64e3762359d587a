//! The closed taxonomy of telemetry streams and system events pushed by the
//! session host, and the parsers that read each payload out of a JSON frame.
//!
//! Numbers that the wire carries as floating point stay bit patterns here; the
//! library never computes with them.

use vstd::prelude::*;

use crate::json::JsonValue;

verus! {

/// Every stream a session can subscribe to or receive.
#[derive(Debug, Clone, Copy, PartialEq, Eq, Hash, Structural)]
pub enum StreamType {
    ButtonPress,
    HeadPosition,
    PhoneNotification,
    Transcription,
    Translation,
    GlassesBatteryUpdate,
    PhoneBatteryUpdate,
    GlassesConnectionState,
    LocationUpdate,
    CalendarEvent,
    Vad,
    NotificationDismissed,
    AudioChunk,
    Video,
    RtmpStreamStatus,
    VpsCoordinates,
    PhotoTaken,
    OpenDashboard,
    StartApp,
    StopApp,
    All,
    Wildcard,
}

/// The connection-lifecycle and control events, one name per kind.
#[derive(Debug, Clone, Copy, PartialEq, Eq, Hash, Structural)]
pub enum SystemEventKind {
    Connected,
    Disconnected,
    Error,
    SettingsUpdate,
    PermissionError,
    DashboardModeChange,
    DashboardAlwaysOnChange,
    CustomMessage,
    AppStopped,
    SubscriptionAck,
}

/// A system event, borrowing any raw payload from the frame it came in.
#[derive(Debug)]
pub enum SystemEvent<'a> {
    Connected(Option<&'a JsonValue>),
    Disconnected(String),
    Error(String),
    SettingsUpdate(&'a JsonValue),
    DashboardModeChange { mode: String },
    DashboardAlwaysOnChange { enabled: bool },
    CustomMessage { action: String, payload: &'a JsonValue },
    PermissionError { message: String, details: Vec<String> },
    PermissionDenied { stream: String, required_permission: String, message: String },
}

/// One telemetry datum, parsed when its stream is known, raw otherwise.
#[derive(Debug)]
pub enum EventData<'a> {
    ButtonPress(ButtonPressData),
    HeadPosition(HeadPositionData),
    Transcription(TranscriptionData),
    Translation(TranslationData),
    PhoneNotification(PhoneNotificationData),
    GlassesBattery(BatteryData),
    PhoneBattery(BatteryData),
    LocationUpdate(LocationData),
    CalendarEvent(CalendarEventData),
    VoiceActivity(VadData),
    AudioChunk(AudioChunkData),
    VpsCoordinates(VpsCoordinatesData),
    PhotoTaken(PhotoTakenData),
    Generic(&'a JsonValue),
}

#[derive(Debug, Clone)]
pub struct ButtonPressData {
    pub button_id: String,
    pub timestamp: String,
}

#[derive(Debug, Clone)]
pub struct HeadPositionData {
    pub position: String,
    pub timestamp: String,
}

#[derive(Debug, Clone)]
pub struct TranscriptionData {
    pub text: String,
    pub is_final: bool,
    pub start_time: u64,
    pub end_time: u64,
    pub transcribe_language: Option<String>,
    pub speaker_id: Option<String>,
    pub duration: Option<u64>,
}

#[derive(Debug, Clone)]
pub struct TranslationData {
    pub text: String,
    pub original_text: Option<String>,
    pub is_final: bool,
    pub start_time: u64,
    pub end_time: u64,
    pub transcribe_language: Option<String>,
    pub translate_language: Option<String>,
    pub did_translate: Option<bool>,
    pub speaker_id: Option<String>,
    pub duration: Option<u64>,
}

#[derive(Debug, Clone)]
pub struct PhoneNotificationData {
    pub title: String,
    pub message: String,
    pub app: String,
    pub timestamp: String,
}

#[derive(Debug, Clone)]
pub struct BatteryData {
    pub level: u8,
    pub is_charging: bool,
    pub timestamp: String,
}

/// Coordinates stay the double-precision bit patterns the wire carried.
#[derive(Debug, Clone)]
pub struct LocationData {
    pub latitude_bits: u64,
    pub longitude_bits: u64,
    pub accuracy_bits: Option<u64>,
    pub timestamp: String,
}

#[derive(Debug, Clone)]
pub struct CalendarEventData {
    pub title: String,
    pub start_time: String,
    pub end_time: String,
    pub location: Option<String>,
}

/// The confidence stays the double-precision bit pattern the wire carried.
#[derive(Debug, Clone)]
pub struct VadData {
    pub voice_detected: bool,
    pub confidence_bits: Option<u64>,
    pub timestamp: String,
}

#[derive(Debug, Clone)]
pub struct AudioChunkData {
    pub sample_rate: Option<u32>,
    pub duration: Option<u64>,
    pub timestamp: String,
}

/// Coordinates and confidence stay the bit patterns the wire carried.
#[derive(Debug, Clone)]
pub struct VpsCoordinatesData {
    pub x_bits: u64,
    pub y_bits: u64,
    pub z_bits: u64,
    pub confidence_bits: Option<u64>,
    pub timestamp: String,
}

#[derive(Debug, Clone)]
pub struct PhotoTakenData {
    pub photo_id: String,
    pub timestamp: String,
    pub size: Option<u64>,
}

/// View of an optional owned string.
pub open spec fn opt_str_view(o: Option<String>) -> Option<Seq<char>> {
    match o {
        Some(s) => Some(s@),
        None => None,
    }
}

/// The string member named `key`, when present with that type.
pub open spec fn spec_str_member(v: JsonValue, key: Seq<char>) -> Option<Seq<char>> {
    match v.spec_get(key) {
        Some(m) => m.spec_as_str(),
        None => None,
    }
}

/// The boolean member named `key`, when present with that type.
pub open spec fn spec_bool_member(v: JsonValue, key: Seq<char>) -> Option<bool> {
    match v.spec_get(key) {
        Some(m) => m.spec_as_bool(),
        None => None,
    }
}

/// The unsigned member named `key`, when present with that type.
pub open spec fn spec_u64_member(v: JsonValue, key: Seq<char>) -> Option<u64> {
    match v.spec_get(key) {
        Some(m) => m.spec_as_u64(),
        None => None,
    }
}

/// The numeric member named `key` as double-precision bits, when present.
pub open spec fn spec_f64_member(v: JsonValue, key: Seq<char>) -> Option<u64> {
    match v.spec_get(key) {
        Some(m) => m.spec_as_f64_bits(),
        None => None,
    }
}

/// An optional string member: absent and null both read as `None`; a member
/// of any other non-string type does not parse at all (the outer `None`).
pub open spec fn spec_opt_str_member(v: JsonValue, key: Seq<char>) -> Option<Option<Seq<char>>> {
    match v.spec_get(key) {
        None => Some(None),
        Some(m) => match m {
            JsonValue::Null => Some(None),
            JsonValue::Str(s) => Some(Some(s@)),
            _ => None,
        },
    }
}

/// An optional boolean member, with the same reading as `spec_opt_str_member`.
pub open spec fn spec_opt_bool_member(v: JsonValue, key: Seq<char>) -> Option<Option<bool>> {
    match v.spec_get(key) {
        None => Some(None),
        Some(m) => match m {
            JsonValue::Null => Some(None),
            JsonValue::Bool(b) => Some(Some(b)),
            _ => None,
        },
    }
}

/// An optional unsigned member, with the same reading.
pub open spec fn spec_opt_u64_member(v: JsonValue, key: Seq<char>) -> Option<Option<u64>> {
    match v.spec_get(key) {
        None => Some(None),
        Some(m) => match m {
            JsonValue::Null => Some(None),
            JsonValue::Num { u_val, .. } => match u_val {
                Some(u) => Some(Some(u)),
                None => None,
            },
            _ => None,
        },
    }
}

/// An optional `u32` member: an unsigned number that fits, else no parse.
pub open spec fn spec_opt_u32_member(v: JsonValue, key: Seq<char>) -> Option<Option<u32>> {
    match spec_opt_u64_member(v, key) {
        Some(Some(u)) => if u <= u32::MAX as u64 {
            Some(Some(u as u32))
        } else {
            None
        },
        Some(None) => Some(None),
        None => None,
    }
}

/// An optional numeric member as double-precision bits, with the same reading.
pub open spec fn spec_opt_f64_member(v: JsonValue, key: Seq<char>) -> Option<Option<u64>> {
    match v.spec_get(key) {
        None => Some(None),
        Some(m) => match m {
            JsonValue::Null => Some(None),
            JsonValue::Num { f64_bits, .. } => Some(Some(f64_bits)),
            _ => None,
        },
    }
}

/// Read a required string member.
fn str_member(v: &JsonValue, key: &str) -> (r: Option<String>)
    ensures
        match r {
            Some(s) => spec_str_member(*v, key@) == Some(s@),
            None => spec_str_member(*v, key@) is None,
        },
{
    match v.get(key) {
        Some(m) => match m.as_str() {
            Some(s) => Some(s.to_owned()),
            None => None,
        },
        None => None,
    }
}

/// Read a required boolean member.
fn bool_member(v: &JsonValue, key: &str) -> (r: Option<bool>)
    ensures
        r == spec_bool_member(*v, key@),
{
    match v.get(key) {
        Some(m) => m.as_bool(),
        None => None,
    }
}

/// Read a required unsigned member.
fn u64_member(v: &JsonValue, key: &str) -> (r: Option<u64>)
    ensures
        r == spec_u64_member(*v, key@),
{
    match v.get(key) {
        Some(m) => m.as_u64(),
        None => None,
    }
}

/// Read a required numeric member as double-precision bits.
fn f64_member(v: &JsonValue, key: &str) -> (r: Option<u64>)
    ensures
        r == spec_f64_member(*v, key@),
{
    match v.get(key) {
        Some(m) => m.as_f64_bits(),
        None => None,
    }
}

/// Read an optional string member.
fn opt_str_member(v: &JsonValue, key: &str) -> (r: Option<Option<String>>)
    ensures
        match r {
            Some(o) => spec_opt_str_member(*v, key@) == Some(opt_str_view(o)),
            None => spec_opt_str_member(*v, key@) is None,
        },
{
    match v.get(key) {
        None => Some(None),
        Some(m) => match m {
            JsonValue::Null => Some(None),
            JsonValue::Str(s) => Some(Some(s.clone())),
            _ => None,
        },
    }
}

/// Read an optional boolean member.
fn opt_bool_member(v: &JsonValue, key: &str) -> (r: Option<Option<bool>>)
    ensures
        r == spec_opt_bool_member(*v, key@),
{
    match v.get(key) {
        None => Some(None),
        Some(m) => match m {
            JsonValue::Null => Some(None),
            JsonValue::Bool(b) => Some(Some(*b)),
            _ => None,
        },
    }
}

/// Read an optional unsigned member.
fn opt_u64_member(v: &JsonValue, key: &str) -> (r: Option<Option<u64>>)
    ensures
        r == spec_opt_u64_member(*v, key@),
{
    match v.get(key) {
        None => Some(None),
        Some(m) => match m {
            JsonValue::Null => Some(None),
            JsonValue::Num { u_val, .. } => match u_val {
                Some(u) => Some(Some(*u)),
                None => None,
            },
            _ => None,
        },
    }
}

/// Read an optional `u32` member.
fn opt_u32_member(v: &JsonValue, key: &str) -> (r: Option<Option<u32>>)
    ensures
        r == spec_opt_u32_member(*v, key@),
{
    match opt_u64_member(v, key) {
        Some(Some(u)) => if u <= u32::MAX as u64 {
            Some(Some(u as u32))
        } else {
            None
        },
        Some(None) => Some(None),
        None => None,
    }
}

/// Read an optional numeric member as double-precision bits.
fn opt_f64_member(v: &JsonValue, key: &str) -> (r: Option<Option<u64>>)
    ensures
        r == spec_opt_f64_member(*v, key@),
{
    match v.get(key) {
        None => Some(None),
        Some(m) => match m {
            JsonValue::Null => Some(None),
            JsonValue::Num { f64_bits, .. } => Some(Some(*f64_bits)),
            _ => None,
        },
    }
}

/// Whether a button-press payload has the shape the parser accepts.
pub open spec fn button_press_parses(v: JsonValue) -> bool {
    &&& spec_str_member(v, "buttonId"@) is Some
    &&& spec_str_member(v, "timestamp"@) is Some
}

/// Parse a button-press payload.
pub fn parse_button_press(v: &JsonValue) -> (r: Option<ButtonPressData>)
    ensures
        r is Some <==> button_press_parses(*v),
        match r {
            Some(d) => button_press_represents(*v, d),
            None => true,
        },
{
    let button_id = str_member(v, "buttonId")?;
    let timestamp = str_member(v, "timestamp")?;
    Some(ButtonPressData { button_id, timestamp })
}

/// Whether a head-position payload has the shape the parser accepts.
pub open spec fn head_position_parses(v: JsonValue) -> bool {
    &&& spec_str_member(v, "position"@) is Some
    &&& spec_str_member(v, "timestamp"@) is Some
}

/// Parse a head-position payload.
pub fn parse_head_position(v: &JsonValue) -> (r: Option<HeadPositionData>)
    ensures
        r is Some <==> head_position_parses(*v),
        match r {
            Some(d) => head_position_represents(*v, d),
            None => true,
        },
{
    let position = str_member(v, "position")?;
    let timestamp = str_member(v, "timestamp")?;
    Some(HeadPositionData { position, timestamp })
}

/// Whether a transcription payload has the shape the parser accepts.
pub open spec fn transcription_parses(v: JsonValue) -> bool {
    &&& spec_str_member(v, "text"@) is Some
    &&& spec_bool_member(v, "isFinal"@) is Some
    &&& spec_u64_member(v, "startTime"@) is Some
    &&& spec_u64_member(v, "endTime"@) is Some
    &&& spec_opt_str_member(v, "transcribeLanguage"@) is Some
    &&& spec_opt_str_member(v, "speakerId"@) is Some
    &&& spec_opt_u64_member(v, "duration"@) is Some
}

/// Parse a transcription payload.
pub fn parse_transcription(v: &JsonValue) -> (r: Option<TranscriptionData>)
    ensures
        r is Some <==> transcription_parses(*v),
        match r {
            Some(d) => transcription_represents(*v, d),
            None => true,
        },
{
    let text = str_member(v, "text")?;
    let is_final = bool_member(v, "isFinal")?;
    let start_time = u64_member(v, "startTime")?;
    let end_time = u64_member(v, "endTime")?;
    let transcribe_language = opt_str_member(v, "transcribeLanguage")?;
    let speaker_id = opt_str_member(v, "speakerId")?;
    let duration = opt_u64_member(v, "duration")?;
    Some(
        TranscriptionData {
            text,
            is_final,
            start_time,
            end_time,
            transcribe_language,
            speaker_id,
            duration,
        },
    )
}

/// Whether a translation payload has the shape the parser accepts.
pub open spec fn translation_parses(v: JsonValue) -> bool {
    &&& spec_str_member(v, "text"@) is Some
    &&& spec_opt_str_member(v, "originalText"@) is Some
    &&& spec_bool_member(v, "isFinal"@) is Some
    &&& spec_u64_member(v, "startTime"@) is Some
    &&& spec_u64_member(v, "endTime"@) is Some
    &&& spec_opt_str_member(v, "transcribeLanguage"@) is Some
    &&& spec_opt_str_member(v, "translateLanguage"@) is Some
    &&& spec_opt_bool_member(v, "didTranslate"@) is Some
    &&& spec_opt_str_member(v, "speakerId"@) is Some
    &&& spec_opt_u64_member(v, "duration"@) is Some
}

/// Parse a translation payload.
pub fn parse_translation(v: &JsonValue) -> (r: Option<TranslationData>)
    ensures
        r is Some <==> translation_parses(*v),
        match r {
            Some(d) => translation_represents(*v, d),
            None => true,
        },
{
    let text = str_member(v, "text")?;
    let original_text = opt_str_member(v, "originalText")?;
    let is_final = bool_member(v, "isFinal")?;
    let start_time = u64_member(v, "startTime")?;
    let end_time = u64_member(v, "endTime")?;
    let transcribe_language = opt_str_member(v, "transcribeLanguage")?;
    let translate_language = opt_str_member(v, "translateLanguage")?;
    let did_translate = opt_bool_member(v, "didTranslate")?;
    let speaker_id = opt_str_member(v, "speakerId")?;
    let duration = opt_u64_member(v, "duration")?;
    Some(
        TranslationData {
            text,
            original_text,
            is_final,
            start_time,
            end_time,
            transcribe_language,
            translate_language,
            did_translate,
            speaker_id,
            duration,
        },
    )
}

/// Whether a phone-notification payload has the shape the parser accepts.
pub open spec fn phone_notification_parses(v: JsonValue) -> bool {
    &&& spec_str_member(v, "title"@) is Some
    &&& spec_str_member(v, "message"@) is Some
    &&& spec_str_member(v, "app"@) is Some
    &&& spec_str_member(v, "timestamp"@) is Some
}

/// Parse a phone-notification payload.
pub fn parse_phone_notification(v: &JsonValue) -> (r: Option<PhoneNotificationData>)
    ensures
        r is Some <==> phone_notification_parses(*v),
        match r {
            Some(d) => phone_notification_represents(*v, d),
            None => true,
        },
{
    let title = str_member(v, "title")?;
    let message = str_member(v, "message")?;
    let app = str_member(v, "app")?;
    let timestamp = str_member(v, "timestamp")?;
    Some(PhoneNotificationData { title, message, app, timestamp })
}

/// Whether a battery payload has the shape the parser accepts.
pub open spec fn battery_parses(v: JsonValue) -> bool {
    &&& spec_u64_member(v, "level"@) matches Some(u) && u <= u8::MAX as u64
    &&& spec_bool_member(v, "isCharging"@) is Some
    &&& spec_str_member(v, "timestamp"@) is Some
}

/// Parse a battery payload.
pub fn parse_battery(v: &JsonValue) -> (r: Option<BatteryData>)
    ensures
        r is Some <==> battery_parses(*v),
        match r {
            Some(d) => battery_represents(*v, d),
            None => true,
        },
{
    let level_raw = u64_member(v, "level")?;
    if level_raw > u8::MAX as u64 {
        return None;
    }
    let level = level_raw as u8;
    let is_charging = bool_member(v, "isCharging")?;
    let timestamp = str_member(v, "timestamp")?;
    Some(BatteryData { level, is_charging, timestamp })
}

/// Whether a location payload has the shape the parser accepts.
pub open spec fn location_parses(v: JsonValue) -> bool {
    &&& spec_f64_member(v, "latitude"@) is Some
    &&& spec_f64_member(v, "longitude"@) is Some
    &&& spec_opt_f64_member(v, "accuracy"@) is Some
    &&& spec_str_member(v, "timestamp"@) is Some
}

/// Parse a location payload.
pub fn parse_location(v: &JsonValue) -> (r: Option<LocationData>)
    ensures
        r is Some <==> location_parses(*v),
        match r {
            Some(d) => location_represents(*v, d),
            None => true,
        },
{
    let latitude_bits = f64_member(v, "latitude")?;
    let longitude_bits = f64_member(v, "longitude")?;
    let accuracy_bits = opt_f64_member(v, "accuracy")?;
    let timestamp = str_member(v, "timestamp")?;
    Some(LocationData { latitude_bits, longitude_bits, accuracy_bits, timestamp })
}

/// Whether a calendar payload has the shape the parser accepts.
pub open spec fn calendar_event_parses(v: JsonValue) -> bool {
    &&& spec_str_member(v, "title"@) is Some
    &&& spec_str_member(v, "start_time"@) is Some
    &&& spec_str_member(v, "end_time"@) is Some
    &&& spec_opt_str_member(v, "location"@) is Some
}

/// Parse a calendar payload.
pub fn parse_calendar_event(v: &JsonValue) -> (r: Option<CalendarEventData>)
    ensures
        r is Some <==> calendar_event_parses(*v),
        match r {
            Some(d) => calendar_event_represents(*v, d),
            None => true,
        },
{
    let title = str_member(v, "title")?;
    let start_time = str_member(v, "start_time")?;
    let end_time = str_member(v, "end_time")?;
    let location = opt_str_member(v, "location")?;
    Some(CalendarEventData { title, start_time, end_time, location })
}

/// Whether a voice-activity payload has the shape the parser accepts.
pub open spec fn vad_parses(v: JsonValue) -> bool {
    &&& spec_bool_member(v, "voiceDetected"@) is Some
    &&& spec_opt_f64_member(v, "confidence"@) is Some
    &&& spec_str_member(v, "timestamp"@) is Some
}

/// Parse a voice-activity payload.
pub fn parse_vad(v: &JsonValue) -> (r: Option<VadData>)
    ensures
        r is Some <==> vad_parses(*v),
        match r {
            Some(d) => vad_represents(*v, d),
            None => true,
        },
{
    let voice_detected = bool_member(v, "voiceDetected")?;
    let confidence_bits = opt_f64_member(v, "confidence")?;
    let timestamp = str_member(v, "timestamp")?;
    Some(VadData { voice_detected, confidence_bits, timestamp })
}

/// Whether an audio-chunk payload has the shape the parser accepts.
pub open spec fn audio_chunk_parses(v: JsonValue) -> bool {
    &&& spec_opt_u32_member(v, "sample_rate"@) is Some
    &&& spec_opt_u64_member(v, "duration"@) is Some
    &&& spec_str_member(v, "timestamp"@) is Some
}

/// Parse an audio-chunk payload.
pub fn parse_audio_chunk(v: &JsonValue) -> (r: Option<AudioChunkData>)
    ensures
        r is Some <==> audio_chunk_parses(*v),
        match r {
            Some(d) => audio_chunk_represents(*v, d),
            None => true,
        },
{
    let sample_rate = opt_u32_member(v, "sample_rate")?;
    let duration = opt_u64_member(v, "duration")?;
    let timestamp = str_member(v, "timestamp")?;
    Some(AudioChunkData { sample_rate, duration, timestamp })
}

/// Whether a positioning payload has the shape the parser accepts.
pub open spec fn vps_coordinates_parses(v: JsonValue) -> bool {
    &&& spec_f64_member(v, "x"@) is Some
    &&& spec_f64_member(v, "y"@) is Some
    &&& spec_f64_member(v, "z"@) is Some
    &&& spec_opt_f64_member(v, "confidence"@) is Some
    &&& spec_str_member(v, "timestamp"@) is Some
}

/// Parse a positioning payload.
pub fn parse_vps_coordinates(v: &JsonValue) -> (r: Option<VpsCoordinatesData>)
    ensures
        r is Some <==> vps_coordinates_parses(*v),
        match r {
            Some(d) => vps_coordinates_represents(*v, d),
            None => true,
        },
{
    let x_bits = f64_member(v, "x")?;
    let y_bits = f64_member(v, "y")?;
    let z_bits = f64_member(v, "z")?;
    let confidence_bits = opt_f64_member(v, "confidence")?;
    let timestamp = str_member(v, "timestamp")?;
    Some(VpsCoordinatesData { x_bits, y_bits, z_bits, confidence_bits, timestamp })
}

/// Whether a photo payload has the shape the parser accepts.
pub open spec fn photo_taken_parses(v: JsonValue) -> bool {
    &&& spec_str_member(v, "photoId"@) is Some
    &&& spec_str_member(v, "timestamp"@) is Some
    &&& spec_opt_u64_member(v, "size"@) is Some
}

/// Parse a photo payload.
pub fn parse_photo_taken(v: &JsonValue) -> (r: Option<PhotoTakenData>)
    ensures
        r is Some <==> photo_taken_parses(*v),
        match r {
            Some(d) => photo_taken_represents(*v, d),
            None => true,
        },
{
    let photo_id = str_member(v, "photoId")?;
    let timestamp = str_member(v, "timestamp")?;
    let size = opt_u64_member(v, "size")?;
    Some(PhotoTakenData { photo_id, timestamp, size })
}

/// What each field of a parsed `ButtonPressData` says of its payload.
pub open spec fn button_press_represents(v: JsonValue, d: ButtonPressData) -> bool {
    spec_str_member(v, "buttonId"@) == Some(d.button_id@)
    && spec_str_member(v, "timestamp"@) == Some(d.timestamp@)
}

/// What each field of a parsed `HeadPositionData` says of its payload.
pub open spec fn head_position_represents(v: JsonValue, d: HeadPositionData) -> bool {
    spec_str_member(v, "position"@) == Some(d.position@)
    && spec_str_member(v, "timestamp"@) == Some(d.timestamp@)
}

/// What each field of a parsed `TranscriptionData` says of its payload.
pub open spec fn transcription_represents(v: JsonValue, d: TranscriptionData) -> bool {
    {
    &&& spec_str_member(v, "text"@) == Some(d.text@)
    &&& spec_bool_member(v, "isFinal"@) == Some(d.is_final)
    &&& spec_u64_member(v, "startTime"@) == Some(d.start_time)
    &&& spec_u64_member(v, "endTime"@) == Some(d.end_time)
    &&& spec_opt_str_member(v, "transcribeLanguage"@) == Some(opt_str_view(d.transcribe_language))
    &&& spec_opt_str_member(v, "speakerId"@) == Some(opt_str_view(d.speaker_id))
    &&& spec_opt_u64_member(v, "duration"@) == Some(d.duration)
}
}

/// What each field of a parsed `TranslationData` says of its payload.
pub open spec fn translation_represents(v: JsonValue, d: TranslationData) -> bool {
    {
    &&& spec_str_member(v, "text"@) == Some(d.text@)
    &&& spec_opt_str_member(v, "originalText"@) == Some(opt_str_view(d.original_text))
    &&& spec_bool_member(v, "isFinal"@) == Some(d.is_final)
    &&& spec_u64_member(v, "startTime"@) == Some(d.start_time)
    &&& spec_u64_member(v, "endTime"@) == Some(d.end_time)
    &&& spec_opt_str_member(v, "transcribeLanguage"@) == Some(opt_str_view(d.transcribe_language))
    &&& spec_opt_str_member(v, "translateLanguage"@) == Some(opt_str_view(d.translate_language))
    &&& spec_opt_bool_member(v, "didTranslate"@) == Some(d.did_translate)
    &&& spec_opt_str_member(v, "speakerId"@) == Some(opt_str_view(d.speaker_id))
    &&& spec_opt_u64_member(v, "duration"@) == Some(d.duration)
}
}

/// What each field of a parsed `PhoneNotificationData` says of its payload.
pub open spec fn phone_notification_represents(v: JsonValue, d: PhoneNotificationData) -> bool {
    {
    &&& spec_str_member(v, "title"@) == Some(d.title@)
    &&& spec_str_member(v, "message"@) == Some(d.message@)
    &&& spec_str_member(v, "app"@) == Some(d.app@)
    &&& spec_str_member(v, "timestamp"@) == Some(d.timestamp@)
}
}

/// What each field of a parsed `BatteryData` says of its payload.
pub open spec fn battery_represents(v: JsonValue, d: BatteryData) -> bool {
    {
    &&& spec_u64_member(v, "level"@) == Some(d.level as u64)
    &&& spec_bool_member(v, "isCharging"@) == Some(d.is_charging)
    &&& spec_str_member(v, "timestamp"@) == Some(d.timestamp@)
}
}

/// What each field of a parsed `LocationData` says of its payload.
pub open spec fn location_represents(v: JsonValue, d: LocationData) -> bool {
    {
    &&& spec_f64_member(v, "latitude"@) == Some(d.latitude_bits)
    &&& spec_f64_member(v, "longitude"@) == Some(d.longitude_bits)
    &&& spec_opt_f64_member(v, "accuracy"@) == Some(d.accuracy_bits)
    &&& spec_str_member(v, "timestamp"@) == Some(d.timestamp@)
}
}

/// What each field of a parsed `CalendarEventData` says of its payload.
pub open spec fn calendar_event_represents(v: JsonValue, d: CalendarEventData) -> bool {
    {
    &&& spec_str_member(v, "title"@) == Some(d.title@)
    &&& spec_str_member(v, "start_time"@) == Some(d.start_time@)
    &&& spec_str_member(v, "end_time"@) == Some(d.end_time@)
    &&& spec_opt_str_member(v, "location"@) == Some(opt_str_view(d.location))
}
}

/// What each field of a parsed `VadData` says of its payload.
pub open spec fn vad_represents(v: JsonValue, d: VadData) -> bool {
    {
    &&& spec_bool_member(v, "voiceDetected"@) == Some(d.voice_detected)
    &&& spec_opt_f64_member(v, "confidence"@) == Some(d.confidence_bits)
    &&& spec_str_member(v, "timestamp"@) == Some(d.timestamp@)
}
}

/// What each field of a parsed `AudioChunkData` says of its payload.
pub open spec fn audio_chunk_represents(v: JsonValue, d: AudioChunkData) -> bool {
    {
    &&& spec_opt_u32_member(v, "sample_rate"@) == Some(d.sample_rate)
    &&& spec_opt_u64_member(v, "duration"@) == Some(d.duration)
    &&& spec_str_member(v, "timestamp"@) == Some(d.timestamp@)
}
}

/// What each field of a parsed `VpsCoordinatesData` says of its payload.
pub open spec fn vps_coordinates_represents(v: JsonValue, d: VpsCoordinatesData) -> bool {
    {
    &&& spec_f64_member(v, "x"@) == Some(d.x_bits)
    &&& spec_f64_member(v, "y"@) == Some(d.y_bits)
    &&& spec_f64_member(v, "z"@) == Some(d.z_bits)
    &&& spec_opt_f64_member(v, "confidence"@) == Some(d.confidence_bits)
    &&& spec_str_member(v, "timestamp"@) == Some(d.timestamp@)
}
}

/// What each field of a parsed `PhotoTakenData` says of its payload.
pub open spec fn photo_taken_represents(v: JsonValue, d: PhotoTakenData) -> bool {
    {
    &&& spec_str_member(v, "photoId"@) == Some(d.photo_id@)
    &&& spec_str_member(v, "timestamp"@) == Some(d.timestamp@)
    &&& spec_opt_u64_member(v, "size"@) == Some(d.size)
}
}

} // verus!
