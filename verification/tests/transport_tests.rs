use std::cell::RefCell;
use std::rc::Rc;

use memcards::app_session::{
    connect_retry_step, frame_action, AppSession, ConnectStep, FrameAction, OutboundFrame,
    TransportState, WsFrame,
};
use memcards::errors::TransportError;
use memcards::event_manager::{StreamHandler, SystemHandler};
use memcards::events::{EventData, StreamType, SystemEvent, SystemEventKind};
use memcards::layout_manager::{Layout, LayoutManager, ViewType};
use memcards::models::{Flashcard, UserId};
use memcards::paging::{page_offset, page_params, split_page, PaginationQuery};
use memcards::session::default_stream_subscriptions;
use memcards::webhook::{
    validate_session_url, webhook_action, WebhookAction, WebhookRejection, WebhookRequest,
};

struct NoopStream;

impl StreamHandler for NoopStream {
    fn on_event(&self, _tag: &StreamType, _data: &EventData<'_>) -> Result<(), String> {
        Ok(())
    }
}

struct NoopSystem;

impl SystemHandler for NoopSystem {
    fn on_event(&self, _kind: SystemEventKind, _event: &SystemEvent<'_>) -> Result<(), String> {
        Ok(())
    }
}

fn session(url: Option<&str>) -> AppSession<NoopStream, NoopSystem> {
    AppSession::new(
        "sess-1".to_string(),
        UserId::new("user-1".to_string()),
        "app.pkg".to_string(),
        "secret".to_string(),
        url.map(|u| u.to_string()),
    )
}

#[test]
fn refusing_endpoint_gets_exactly_three_attempts_with_growing_waits() {
    let mut delays = Vec::new();
    let mut attempt: u32 = 1;
    let mut attempts_made = 0;
    loop {
        attempts_made += 1;
        match connect_retry_step(attempt, false) {
            ConnectStep::Retry { delay_ms, next_attempt } => {
                delays.push(delay_ms);
                attempt = next_attempt;
            }
            ConnectStep::Fail => break,
            ConnectStep::Proceed => panic!("a refusing endpoint never succeeds"),
        }
    }
    assert_eq!(attempts_made, 3);
    assert_eq!(delays, vec![1000, 2000]);
    assert!(delays[0] < delays[1]);
}

#[test]
fn success_on_the_second_attempt_stops_retrying() {
    let first = connect_retry_step(1, false);
    assert!(matches!(first, ConnectStep::Retry { delay_ms: 1000, next_attempt: 2 }));
    let second = connect_retry_step(2, true);
    assert_eq!(second, ConnectStep::Proceed);
}

#[test]
fn session_lifecycle_gates_outbound_sends() {
    let mut s = session(Some("wss://prod.augmentos.cloud/app-ws"));
    assert_eq!(s.state, TransportState::Disconnected);
    assert_eq!(s.user_settings.max_cards_per_session(), 20);
    assert_eq!(s.user_settings.desired_retention(), 75);

    let denied = s.subscribe_to_streams(default_stream_subscriptions());
    assert_eq!(denied.unwrap_err(), TransportError::NotConnected);

    s.begin_connect().unwrap();
    assert_eq!(s.state, TransportState::Connecting);
    s.mark_connected(123);
    assert_eq!(s.last_updated, 123);
    assert!(s.connected());

    match s.subscribe_to_streams(default_stream_subscriptions()).unwrap() {
        OutboundFrame::SubscriptionUpdate(m) => {
            assert_eq!(m.message_type, "subscription_update");
            assert_eq!(m.package_name, "app.pkg");
            assert_eq!(m.session_id, "sess-1");
            assert_eq!(
                m.subscriptions,
                vec![
                    "transcription:en-US".to_string(),
                    "button_press".to_string(),
                    "head_position".to_string()
                ]
            );
        }
        _ => panic!("expected a subscription update"),
    }

    match s.show_text("hello".to_string(), Some(500)).unwrap() {
        OutboundFrame::Display(d) => {
            assert_eq!(d.message_type, "display_event");
            assert_eq!(d.duration_ms, Some(500));
            match d.layout {
                Layout::TextWall { text } => assert_eq!(text, "hello"),
                _ => panic!("expected a text wall"),
            }
        }
        _ => panic!("expected a display"),
    }

    match s.handshake_message() {
        OutboundFrame::ConnectionInit(m) => {
            assert_eq!(m.message_type, "tpa_connection_init");
            assert_eq!(m.api_key, "secret");
        }
        _ => panic!("expected the handshake"),
    }

    s.disconnect();
    assert_eq!(s.state, TransportState::Closed);
    assert!(s.show_text("late".to_string(), None).is_err());
}

#[test]
fn connect_fails_fast_on_a_bad_url() {
    let mut none = session(None);
    assert_eq!(none.begin_connect().unwrap_err(), TransportError::InvalidUrl);
    let mut bad = session(Some("not a url"));
    assert_eq!(bad.begin_connect().unwrap_err(), TransportError::InvalidUrl);
    assert_eq!(bad.state, TransportState::Disconnected);
}

#[test]
fn pings_are_answered_with_the_same_payload() {
    match frame_action(WsFrame::Ping(vec![1, 2, 3])) {
        FrameAction::ReplyPong(p) => assert_eq!(p, vec![1, 2, 3]),
        _ => panic!("expected a pong"),
    }
    assert!(matches!(frame_action(WsFrame::Text("x".to_string())), FrameAction::Handle(_)));
    assert!(matches!(frame_action(WsFrame::Close), FrameAction::Stop));
    assert!(matches!(frame_action(WsFrame::Failed("e".to_string())), FrameAction::Stop));
    assert!(matches!(frame_action(WsFrame::Binary(vec![0])), FrameAction::Ignore));
}

fn request(
    kind: &str,
    session_id: Option<&str>,
    user: Option<&str>,
    url: Option<&str>,
    reason: Option<&str>,
) -> WebhookRequest {
    WebhookRequest {
        message_type: kind.to_string(),
        session_id: session_id.map(|s| s.to_string()),
        user_id: user.map(|u| UserId::new(u.to_string())),
        augmentos_websocket_url: url.map(|u| u.to_string()),
        mentraos_websocket_url: None,
        timestamp: None,
        reason: reason.map(|r| r.to_string()),
    }
}

#[test]
fn session_request_on_the_trusted_domain_starts_a_session() {
    let req = request(
        "session_request",
        Some("s1"),
        Some("u1"),
        Some("wss://prod.augmentos.cloud/app-ws"),
        None,
    );
    match webhook_action(req, "prod.augmentos.cloud") {
        WebhookAction::StartSession { session_id, user_id, ws_url } => {
            assert_eq!(session_id, "s1");
            assert_eq!(user_id.0, "u1");
            assert_eq!(ws_url, "wss://prod.augmentos.cloud/app-ws");
        }
        _ => panic!("expected a session start"),
    }
}

#[test]
fn session_request_on_the_secondary_domain_is_approved() {
    assert!(validate_session_url("wss://foo.mentra.glass/ws", "prod.augmentos.cloud").is_ok());
}

#[test]
fn session_request_on_a_stranger_domain_is_refused() {
    let r = validate_session_url("wss://evil.example.com/ws", "prod.augmentos.cloud");
    assert_eq!(r.unwrap_err(), WebhookRejection::DomainMismatch);
    let bad = validate_session_url("::nonsense::", "prod.augmentos.cloud");
    assert_eq!(bad.unwrap_err(), WebhookRejection::InvalidUrl);
    let numeric = validate_session_url("wss://127.0.0.1/ws", "prod.augmentos.cloud");
    assert_eq!(numeric.unwrap_err(), WebhookRejection::NoDomain);
}

#[test]
fn webhook_requests_missing_fields_or_unknown_types_are_refused() {
    let missing = request("session_request", Some("s1"), None, Some("wss://x.y/ws"), None);
    assert!(matches!(
        webhook_action(missing, "prod.augmentos.cloud"),
        WebhookAction::Reject(WebhookRejection::MissingFields)
    ));
    let unknown = request("celebration", None, None, None, None);
    assert!(matches!(
        webhook_action(unknown, "prod.augmentos.cloud"),
        WebhookAction::Reject(WebhookRejection::UnknownType)
    ));
    let stop = request("stop_request", Some("s1"), Some("u1"), None, Some("done"));
    match webhook_action(stop, "prod.augmentos.cloud") {
        WebhookAction::StopSession { session_id, reason, .. } => {
            assert_eq!(session_id, "s1");
            assert_eq!(reason, "done");
        }
        _ => panic!("expected a stop"),
    }
}

#[test]
fn pagination_defaults_offsets_and_extra_row() {
    let q = PaginationQuery { page: None, limit: None };
    assert_eq!(page_params(&q), (0, 20));
    let q2 = PaginationQuery { page: Some(3), limit: Some(50) };
    assert_eq!(page_params(&q2), (3, 50));
    assert_eq!(page_offset(3, 50), 150);

    let card = |id: i32| Flashcard {
        id,
        deck_id: 1,
        front: String::new(),
        back: String::new(),
        last_rating: None,
        last_reviewed: None,
        last_scheduled: None,
        last_memory: None,
    };
    let rows: Vec<Flashcard> = (0..4).map(card).collect();
    let (kept, has_more) = split_page(rows, 3);
    assert!(has_more);
    assert_eq!(kept.len(), 3);
    let rows2: Vec<Flashcard> = (0..2).map(card).collect();
    let (kept2, has_more2) = split_page(rows2, 3);
    assert!(!has_more2);
    assert_eq!(kept2.len(), 2);
}

#[test]
fn cards_know_when_they_are_due() {
    let mut c = Flashcard {
        id: 1,
        deck_id: 1,
        front: String::new(),
        back: String::new(),
        last_rating: None,
        last_reviewed: None,
        last_scheduled: None,
        last_memory: None,
    };
    assert!(c.is_due(100));
    c.last_scheduled = Some(100);
    assert!(c.is_due(100));
    c.last_scheduled = Some(101);
    assert!(!c.is_due(100));
}

#[test]
fn clock_readings_are_sane() {
    let ms = memcards::clock::now_millis();
    let secs = memcards::clock::now_epoch_seconds();
    // both clocks read after 2020-01-01
    assert!(ms > 1_577_836_800_000);
    assert!(secs > 1_577_836_800);
    let stamp = memcards::clock::now_rfc3339();
    assert!(stamp.contains('T'));
}

#[test]
fn user_ids_are_shortened_for_logs() {
    assert_eq!(UserId::new("short".to_string()).redacted(), "short");
    assert_eq!(
        UserId::new("abcdefghijklmnop".to_string()).redacted(),
        "abc...hijklmnop"
    );
}

#[test]
fn layout_manager_addresses_its_session() {
    let lm = LayoutManager::new("pkg".to_string(), "sess".to_string());
    let d = lm.show_text_wall("hi".to_string(), Some(ViewType::Dashboard), None);
    assert_eq!(d.message_type, "display_event");
    assert_eq!(d.package_name, "pkg");
    assert_eq!(d.session_id, "sess");
    assert!(matches!(d.view, ViewType::Dashboard));
    let two = lm.show_double_text_wall("a".to_string(), "b".to_string(), None, Some(9));
    match two.layout {
        Layout::DoubleTextWall { top_text, bottom_text } => {
            assert_eq!(top_text, "a");
            assert_eq!(bottom_text, "b");
        }
        _ => panic!("expected two walls"),
    }
    assert_eq!(two.duration_ms, Some(9));
}

#[test]
fn handle_websocket_message_dispatches_through_the_bus() {
    let log: Rc<RefCell<Vec<String>>> = Rc::new(RefCell::new(Vec::new()));
    struct Tap {
        log: Rc<RefCell<Vec<String>>>,
    }
    impl StreamHandler for Tap {
        fn on_event(&self, _tag: &StreamType, data: &EventData<'_>) -> Result<(), String> {
            if let EventData::ButtonPress(b) = data {
                self.log.borrow_mut().push(b.button_id.clone());
            }
            Ok(())
        }
    }
    impl SystemHandler for Tap {
        fn on_event(&self, _kind: SystemEventKind, _e: &SystemEvent<'_>) -> Result<(), String> {
            Ok(())
        }
    }
    let mut s: AppSession<Tap, Tap> = AppSession::new(
        "s".to_string(),
        UserId::new("u".to_string()),
        "p".to_string(),
        "k".to_string(),
        None,
    );
    s.events().on_button_press(Tap { log: log.clone() });
    let frame = memcards::json::JsonValue::Object(vec![
        ("type".to_string(), memcards::json::JsonValue::Str("data_stream".to_string())),
        ("streamType".to_string(), memcards::json::JsonValue::Str("button_press".to_string())),
        (
            "data".to_string(),
            memcards::json::JsonValue::Object(vec![
                ("buttonId".to_string(), memcards::json::JsonValue::Str("main".to_string())),
                ("timestamp".to_string(), memcards::json::JsonValue::Str("t".to_string())),
            ]),
        ),
    ]);
    AppSession::handle_websocket_message(&frame, &s.event_manager).unwrap();
    assert_eq!(*log.borrow(), vec!["main"]);
    let untyped = memcards::json::JsonValue::Object(vec![]);
    assert!(AppSession::handle_websocket_message(&untyped, &s.event_manager).is_err());
}
