//! One session's connection to the session-hosting cloud: its lifecycle
//! state machine, the bounded retry plan, the outbound frames it may send,
//! and the handling of inbound frames.
//!
//! The network itself stays outside: the caller performs each connection
//! attempt, wait and send, and this module decides — provably — what happens
//! next and what every frame holds.

use vstd::prelude::*;

use crate::clock::{now_millis, now_rfc3339};
use crate::errors::{ProtocolError, TransportError};
use crate::event_manager::{EventManager, StreamHandler, SystemHandler};
use crate::events::opt_str_view;
use crate::json::JsonValue;
use crate::layout_manager::{DisplayRequest, Layout, LayoutManager};
use crate::models::UserId;
use crate::protocol::{classify_frame, dispatch_message};
use crate::srs::UserSettings;

verus! {

/// The lifecycle of one real-time connection.
#[derive(Debug, Clone, Copy, PartialEq, Eq, Structural)]
pub enum TransportState {
    Disconnected,
    Connecting,
    Connected,
    Closed,
    Failed,
}

/// The handshake frame that opens a connection.
#[derive(Debug, Clone)]
pub struct AppConnectionInit {
    /// The protocol discriminator; always `tpa_connection_init`.
    pub message_type: String,
    pub session_id: String,
    pub package_name: String,
    pub api_key: String,
    pub timestamp: String,
}

/// The frame that asks the host to push a set of streams.
#[derive(Debug, Clone)]
pub struct AppSubscriptionUpdate {
    /// The protocol discriminator; always `subscription_update`.
    pub message_type: String,
    pub package_name: String,
    pub subscriptions: Vec<String>,
    pub session_id: String,
    pub timestamp: String,
}

/// Everything this library ever asks the transport to send.
#[derive(Debug)]
pub enum OutboundFrame {
    ConnectionInit(AppConnectionInit),
    SubscriptionUpdate(AppSubscriptionUpdate),
    Display(DisplayRequest),
}

/// What parsing a URL yields: syntactic validity and its domain are
/// functions of the string alone.
pub uninterp spec fn url_domain(s: Seq<char>) -> Result<Option<Seq<char>>, ()>;

/// Relies on `reqwest::Url::parse` and `reqwest::Url::domain`: whether the
/// string is a valid URL and, if so, which domain it addresses.
#[verifier::external_body]
pub fn parse_url_domain(s: &str) -> (r: Result<Option<String>, ()>)
    ensures
        r is Ok <==> url_domain(s@) is Ok,
        r matches Ok(d) ==> url_domain(s@) matches Ok(v) && v == opt_str_view(d),
{
    match reqwest::Url::parse(s) {
        Ok(u) => Ok(u.domain().map(|d| d.to_string())),
        Err(_) => Err(()),
    }
}

/// The wait before re-trying a failed connection attempt.
pub open spec fn spec_retry_delay_ms(attempt: u32) -> int {
    1000 * attempt
}

/// What the connect loop does after one attempt.
#[derive(Debug, Clone, PartialEq, Eq, Structural)]
pub enum ConnectStep {
    /// The attempt succeeded: stop retrying and proceed to the handshake.
    Proceed,
    /// Wait, then try again.
    Retry { delay_ms: u64, next_attempt: u32 },
    /// The last allowed attempt failed: give up.
    Fail,
}

/// Decide the connect loop's next step after attempt number `attempt` out of
/// three: success short-circuits every remaining retry, a failure before the
/// third waits `attempt * 1000` milliseconds, and the third failure gives
/// up.
pub fn connect_retry_step(attempt: u32, succeeded: bool) -> (r: ConnectStep)
    requires
        1 <= attempt <= 3,
    ensures
        succeeded ==> r == ConnectStep::Proceed,
        !succeeded && attempt < 3 ==> r == (ConnectStep::Retry {
            delay_ms: spec_retry_delay_ms(attempt) as u64,
            next_attempt: (attempt + 1) as u32,
        }),
        !succeeded && attempt == 3 ==> r == ConnectStep::Fail,
{
    if succeeded {
        ConnectStep::Proceed
    } else if attempt < 3 {
        ConnectStep::Retry { delay_ms: 1000 * (attempt as u64), next_attempt: attempt + 1 }
    } else {
        ConnectStep::Fail
    }
}

/// The waits between connection attempts grow strictly.
pub proof fn lemma_retry_delays_increase(a1: u32, a2: u32)
    requires
        1 <= a1 < a2 <= 3,
    ensures
        spec_retry_delay_ms(a1) < spec_retry_delay_ms(a2),
{
}

/// One frame read off the websocket, reduced to plain values.
#[derive(Debug)]
pub enum WsFrame {
    Text(String),
    Binary(Vec<u8>),
    Ping(Vec<u8>),
    Pong(Vec<u8>),
    Close,
    Raw,
    Failed(String),
}

/// What the inbound pump does with one frame.
#[derive(Debug)]
pub enum FrameAction {
    /// Decode and dispatch this text.
    Handle(String),
    /// Answer a ping with a pong carrying the very same payload.
    ReplyPong(Vec<u8>),
    /// A close frame or a transport failure ends the pump.
    Stop,
    /// Nothing to do.
    Ignore,
}

/// Decide what one inbound frame demands: text is handled, a ping is
/// answered with an equivalent pong, close and failure stop the pump, and
/// everything else passes.
pub fn frame_action(frame: WsFrame) -> (r: FrameAction)
    ensures
        match frame {
            WsFrame::Text(t) => r matches FrameAction::Handle(h) && h == t,
            WsFrame::Ping(p) => r matches FrameAction::ReplyPong(q) && q == p,
            WsFrame::Close => r == FrameAction::Stop,
            WsFrame::Failed(_) => r == FrameAction::Stop,
            WsFrame::Binary(_) => r == FrameAction::Ignore,
            WsFrame::Pong(_) => r == FrameAction::Ignore,
            WsFrame::Raw => r == FrameAction::Ignore,
        },
{
    match frame {
        WsFrame::Text(t) => FrameAction::Handle(t),
        WsFrame::Ping(p) => FrameAction::ReplyPong(p),
        WsFrame::Close => FrameAction::Stop,
        WsFrame::Failed(_) => FrameAction::Stop,
        WsFrame::Binary(_) => FrameAction::Ignore,
        WsFrame::Pong(_) => FrameAction::Ignore,
        WsFrame::Raw => FrameAction::Ignore,
    }
}

/// One application session against the cloud.
pub struct AppSession<H, S> {
    pub session_id: String,
    pub user_id: UserId,
    pub package_name: String,
    pub api_key: String,
    pub augmentos_websocket_url: Option<String>,
    pub last_updated: u64,
    pub user_settings: UserSettings,
    pub state: TransportState,
    pub reconnect_attempts: u32,
    pub event_manager: EventManager<H, S>,
    pub layout_manager: LayoutManager,
}

impl<H: StreamHandler, S: SystemHandler> AppSession<H, S> {
    /// A fresh, disconnected session with the default settings.
    pub fn new(
        session_id: String,
        user_id: UserId,
        package_name: String,
        api_key: String,
        augmentos_websocket_url: Option<String>,
    ) -> (r: AppSession<H, S>)
        ensures
            r.session_id == session_id,
            r.user_id == user_id,
            r.package_name == package_name,
            r.api_key == api_key,
            r.augmentos_websocket_url == augmentos_websocket_url,
            r.user_settings.spec_max_cards_per_session() == 20,
            r.user_settings.spec_desired_retention() == 75,
            r.state == TransportState::Disconnected,
            r.reconnect_attempts == 0,
            r.event_manager.stream_handlers@.len() == 0,
            r.event_manager.system_handlers@.len() == 0,
            r.layout_manager.package_name == package_name,
            r.layout_manager.session_id == session_id,
    {
        let event_manager = EventManager::new();
        let layout_manager = LayoutManager::new(package_name.clone(), session_id.clone());
        AppSession {
            session_id,
            user_id,
            package_name,
            api_key,
            augmentos_websocket_url,
            last_updated: now_millis(),
            user_settings: UserSettings::new(20, 75),
            state: TransportState::Disconnected,
            reconnect_attempts: 0,
            event_manager,
            layout_manager,
        }
    }

    /// Whether the session is connected.
    pub fn connected(&self) -> (r: bool)
        ensures
            r == (self.state == TransportState::Connected),
    {
        self.state == TransportState::Connected
    }

    /// Check the websocket URL and enter the connecting state, or fail fast
    /// — with no attempt made — when the URL is absent or not syntactically
    /// valid.
    pub fn begin_connect(&mut self) -> (r: Result<(), TransportError>)
        ensures
            match r {
                Ok(()) => {
                    &&& old(self).augmentos_websocket_url matches Some(u) && url_domain(u@) is Ok
                    &&& *final(self) == (AppSession {
                        state: TransportState::Connecting,
                        ..*old(self)
                    })
                },
                Err(e) => {
                    &&& e == TransportError::InvalidUrl
                    &&& match old(self).augmentos_websocket_url {
                        Some(u) => url_domain(u@) is Err,
                        None => true,
                    }
                    &&& *final(self) == *old(self)
                },
            },
    {
        let url = match &self.augmentos_websocket_url {
            Some(u) => u,
            None => {
                return Err(TransportError::InvalidUrl);
            },
        };
        match parse_url_domain(url.as_str()) {
            Ok(_) => {
                self.state = TransportState::Connecting;
                Ok(())
            },
            Err(()) => Err(TransportError::InvalidUrl),
        }
    }

    /// Record a successful connection at `now_ms`.
    pub fn mark_connected(&mut self, now_ms: u64)
        ensures
            *final(self) == (AppSession {
                state: TransportState::Connected,
                reconnect_attempts: 0u32,
                last_updated: now_ms,
                ..*old(self)
            }),
    {
        self.state = TransportState::Connected;
        self.reconnect_attempts = 0;
        self.last_updated = now_ms;
    }

    /// Record that every connection attempt failed.
    pub fn mark_failed(&mut self)
        ensures
            *final(self) == (AppSession { state: TransportState::Failed, ..*old(self) }),
    {
        self.state = TransportState::Failed;
    }

    /// The handshake frame this session opens with: its id, package and
    /// shared secret under the fixed discriminator, stamped with the moment
    /// of the call.
    pub fn handshake_message(&self) -> (r: OutboundFrame)
        ensures
            r matches OutboundFrame::ConnectionInit(m) && (m.message_type@
                == "tpa_connection_init"@ && m.session_id == self.session_id && m.package_name
                == self.package_name && m.api_key == self.api_key),
    {
        OutboundFrame::ConnectionInit(
            AppConnectionInit {
                message_type: String::from_str("tpa_connection_init"),
                session_id: self.session_id.clone(),
                package_name: self.package_name.clone(),
                api_key: self.api_key.clone(),
                timestamp: now_rfc3339(),
            },
        )
    }

    /// Close the session; later outbound attempts observe `NotConnected`.
    pub fn disconnect(&mut self)
        ensures
            old(self).state == TransportState::Connected ==> final(self).state
                == TransportState::Closed,
            old(self).state != TransportState::Connected ==> *final(self) == *old(self),
            final(self).session_id == old(self).session_id,
            final(self).user_id == old(self).user_id,
            final(self).augmentos_websocket_url == old(self).augmentos_websocket_url,
            final(self).user_settings == old(self).user_settings,
            final(self).event_manager == old(self).event_manager,
    {
        if self.state == TransportState::Connected {
            self.state = TransportState::Closed;
            self.last_updated = now_millis();
        }
    }

    /// The subscription frame for the given streams, owed exactly while
    /// connected.
    pub fn subscribe_to_streams(&self, streams: Vec<String>) -> (r: Result<
        OutboundFrame,
        TransportError,
    >)
        ensures
            match r {
                Ok(f) => self.state == TransportState::Connected && (
                f matches OutboundFrame::SubscriptionUpdate(m) && (m.message_type@
                    == "subscription_update"@ && m.package_name == self.package_name
                    && m.subscriptions == streams && m.session_id == self.session_id)),
                Err(e) => e == TransportError::NotConnected && self.state
                    != TransportState::Connected,
            },
    {
        if self.state != TransportState::Connected {
            return Err(TransportError::NotConnected);
        }
        Ok(
            OutboundFrame::SubscriptionUpdate(
                AppSubscriptionUpdate {
                    message_type: String::from_str("subscription_update"),
                    package_name: self.package_name.clone(),
                    subscriptions: streams,
                    session_id: self.session_id.clone(),
                    timestamp: now_rfc3339(),
                },
            ),
        )
    }

    /// Accept a display request for sending, owed exactly while connected.
    pub fn send_display_request(&self, display_request: DisplayRequest) -> (r: Result<
        OutboundFrame,
        TransportError,
    >)
        ensures
            match r {
                Ok(f) => self.state == TransportState::Connected && (
                f matches OutboundFrame::Display(d) && d == display_request),
                Err(e) => e == TransportError::NotConnected && self.state
                    != TransportState::Connected,
            },
    {
        if self.state != TransportState::Connected {
            return Err(TransportError::NotConnected);
        }
        Ok(OutboundFrame::Display(display_request))
    }

    /// A text wall for this session, owed exactly while connected.
    pub fn show_text(&self, text: String, duration_ms: Option<u64>) -> (r: Result<
        OutboundFrame,
        TransportError,
    >)
        ensures
            match r {
                Ok(f) => self.state == TransportState::Connected && (
                f matches OutboundFrame::Display(d) && (d.layout == (Layout::TextWall { text })
                    && d.package_name == self.layout_manager.package_name && d.session_id
                    == self.layout_manager.session_id && d.duration_ms == duration_ms)),
                Err(e) => e == TransportError::NotConnected && self.state
                    != TransportState::Connected,
            },
    {
        let request = self.layout_manager.show_text_wall(text, None, duration_ms);
        self.send_display_request(request)
    }

    /// The event bus, for registering handlers.
    pub fn events<'a>(&'a mut self) -> (r: &'a mut EventManager<H, S>)
        ensures
            *r == old(self).event_manager,
            *final(self) == (AppSession { event_manager: *final(r), ..*old(self) }),
    {
        &mut self.event_manager
    }

    /// Decode one inbound frame and fan it out over this session's bus; a
    /// frame without a string discriminator is the one malformed case.
    pub fn handle_websocket_message(frame: &JsonValue, event_manager: &EventManager<H, S>) -> (r:
        Result<(), ProtocolError>)
        ensures
            r is Ok <==> crate::events::spec_str_member(*frame, "type"@) is Some,
            r matches Err(e) ==> e == ProtocolError::MalformedPayload,
    {
        match classify_frame(frame) {
            Ok(m) => {
                let _outcomes = dispatch_message(event_manager, &m);
                Ok(())
            },
            Err(e) => Err(e),
        }
    }
}

} // verus!
