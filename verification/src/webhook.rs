//! The webhook entrypoints that create and stop sessions: the request shape,
//! the trusted-domain check on the websocket URL, and the decision each
//! request earns.

use vstd::prelude::*;

use crate::app_session::url_domain;
use crate::models::UserId;
use crate::text::{last_index_of, lemma_last_index_of, rfind_char, str_eq};

verus! {

/// One webhook request, every field as the wire may or may not carry it.
#[derive(Debug, Clone)]
pub struct WebhookRequest {
    /// The request discriminator: `session_request` or `stop_request`.
    pub message_type: String,
    pub session_id: Option<String>,
    pub user_id: Option<UserId>,
    pub augmentos_websocket_url: Option<String>,
    pub mentraos_websocket_url: Option<String>,
    pub timestamp: Option<String>,
    pub reason: Option<String>,
}

/// Why a webhook request was refused.
#[derive(Debug, Clone, PartialEq, Eq, Structural)]
pub enum WebhookRejection {
    /// A required field of the request is absent.
    MissingFields,
    /// The websocket URL does not parse.
    InvalidUrl,
    /// The websocket URL has no domain.
    NoDomain,
    /// The websocket URL's domain matches neither the trusted cloud domain
    /// nor the approved secondary domain.
    DomainMismatch,
    /// The request discriminator is not known.
    UnknownType,
}

/// The label after the last dot; the whole name when it has no dot.
pub open spec fn spec_top_label(s: Seq<char>) -> Seq<char> {
    let i = last_index_of(s, '.');
    if i < 0 {
        s
    } else {
        s.skip(i + 1)
    }
}

/// The label before the last dot; empty when there is none.
pub open spec fn spec_second_label(s: Seq<char>) -> Seq<char> {
    let i = last_index_of(s, '.');
    if i < 0 {
        Seq::empty()
    } else {
        spec_top_label(s.take(i))
    }
}

/// Whether a domain may host a session: its top or second-level label
/// matches the trusted cloud domain's, or it is the approved secondary
/// domain.
pub open spec fn spec_domain_allowed(domain: Seq<char>, cloud_domain: Seq<char>) -> bool {
    let expected_top = spec_top_label(cloud_domain);
    let expected_second = spec_second_label(cloud_domain);
    let actual_top = spec_top_label(domain);
    let actual_second = spec_second_label(domain);
    !((expected_top != actual_top && expected_second != actual_second) && (actual_top != "glass"@
        && actual_second != "mentra"@))
}

/// The top and second-level labels of a domain name.
fn domain_labels(s: &str) -> (r: (String, String))
    ensures
        r.0@ == spec_top_label(s@),
        r.1@ == spec_second_label(s@),
{
    proof {
        lemma_last_index_of(s@, '.');
    }
    let n = s.unicode_len();
    match rfind_char(s, '.') {
        None => (s.to_owned(), String::new()),
        Some(i) => {
            let top = s.substring_char(i + 1, n).to_owned();
            let head = s.substring_char(0, i);
            proof {
                assert(top@ =~= s@.skip(last_index_of(s@, '.') + 1));
                assert(head@ =~= s@.take(last_index_of(s@, '.')));
                lemma_last_index_of(head@, '.');
            }
            let hn = head.unicode_len();
            let second = match rfind_char(head, '.') {
                None => head.to_owned(),
                Some(j) => {
                    let t = head.substring_char(j + 1, hn).to_owned();
                    proof {
                        assert(t@ =~= head@.skip(last_index_of(head@, '.') + 1));
                    }
                    t
                },
            };
            (top, second)
        },
    }
}

/// Check a session request's websocket URL against the trusted cloud
/// domain: it must parse, name a domain, and that domain must be allowed.
pub fn validate_session_url(ws_url: &str, cloud_domain: &str) -> (r: Result<(), WebhookRejection>)
    ensures
        match r {
            Ok(()) => url_domain(ws_url@) matches Ok(Some(d)) && spec_domain_allowed(
                d,
                cloud_domain@,
            ),
            Err(e) => match url_domain(ws_url@) {
                Err(()) => e == WebhookRejection::InvalidUrl,
                Ok(None) => e == WebhookRejection::NoDomain,
                Ok(Some(d)) => e == WebhookRejection::DomainMismatch && !spec_domain_allowed(
                    d,
                    cloud_domain@,
                ),
            },
        },
{
    let domain = match crate::app_session::parse_url_domain(ws_url) {
        Err(()) => {
            return Err(WebhookRejection::InvalidUrl);
        },
        Ok(None) => {
            return Err(WebhookRejection::NoDomain);
        },
        Ok(Some(d)) => d,
    };
    let (actual_top, actual_second) = domain_labels(domain.as_str());
    let (expected_top, expected_second) = domain_labels(cloud_domain);
    let mismatch = !str_eq(expected_top.as_str(), actual_top.as_str()) && !str_eq(
        expected_second.as_str(),
        actual_second.as_str(),
    );
    let unapproved = !str_eq(actual_top.as_str(), "glass") && !str_eq(
        actual_second.as_str(),
        "mentra",
    );
    if mismatch && unapproved {
        Err(WebhookRejection::DomainMismatch)
    } else {
        Ok(())
    }
}

/// What a webhook request asks of the session registry.
#[derive(Debug)]
pub enum WebhookAction {
    /// Create a session and connect it to the given websocket URL.
    StartSession { session_id: String, user_id: UserId, ws_url: String },
    /// Tear the session down.
    StopSession { session_id: String, user_id: UserId, reason: String },
    /// Refuse the request.
    Reject(WebhookRejection),
}

/// The websocket URL a session request names: the primary field, or the
/// secondary one when the primary is absent.
pub open spec fn spec_request_url(req: WebhookRequest) -> Option<Seq<char>> {
    match req.augmentos_websocket_url {
        Some(u) => Some(u@),
        None => match req.mentraos_websocket_url {
            Some(u) => Some(u@),
            None => None,
        },
    }
}

/// Decide one webhook request: a session request must carry its id, user and
/// a websocket URL on the trusted domain; a stop request must carry its id,
/// user and reason; anything else is refused with the reason why.
pub fn webhook_action(req: WebhookRequest, cloud_domain: &str) -> (r: WebhookAction)
    ensures
        req.message_type@ == "session_request"@ ==> match (
            req.session_id,
            req.user_id,
            spec_request_url(req),
        ) {
            (Some(sid), Some(uid), Some(url)) => match r {
                WebhookAction::StartSession { session_id, user_id, ws_url } => session_id@ == sid@
                    && user_id == uid && ws_url@ == url && (
                url_domain(url) matches Ok(Some(d)) && spec_domain_allowed(d, cloud_domain@)),
                WebhookAction::Reject(e) => !(url_domain(url) matches Ok(Some(d))
                    && spec_domain_allowed(d, cloud_domain@)) && e
                    != WebhookRejection::MissingFields && e != WebhookRejection::UnknownType,
                _ => false,
            },
            _ => r == WebhookAction::Reject(WebhookRejection::MissingFields),
        },
        req.message_type@ == "stop_request"@ ==> match (req.session_id, req.user_id, req.reason) {
            (Some(sid), Some(uid), Some(why)) => r matches WebhookAction::StopSession {
                session_id,
                user_id,
                reason,
            } && (session_id@ == sid@ && user_id == uid && reason@ == why@),
            _ => r == WebhookAction::Reject(WebhookRejection::MissingFields),
        },
        req.message_type@ != "session_request"@ && req.message_type@ != "stop_request"@ ==> r
            == WebhookAction::Reject(WebhookRejection::UnknownType),
{
    proof {
        reveal_strlit("session_request");
        reveal_strlit("stop_request");
        assert("session_request"@.len() == 15);
        assert("stop_request"@.len() == 12);
        assert("session_request"@ != "stop_request"@);
    }
    if str_eq(req.message_type.as_str(), "session_request") {
        let sid = match req.session_id {
            Some(s) => s,
            None => {
                return WebhookAction::Reject(WebhookRejection::MissingFields);
            },
        };
        let uid = match req.user_id {
            Some(u) => u,
            None => {
                return WebhookAction::Reject(WebhookRejection::MissingFields);
            },
        };
        let url = match req.augmentos_websocket_url {
            Some(u) => u,
            None => match req.mentraos_websocket_url {
                Some(u) => u,
                None => {
                    return WebhookAction::Reject(WebhookRejection::MissingFields);
                },
            },
        };
        match validate_session_url(url.as_str(), cloud_domain) {
            Ok(()) => WebhookAction::StartSession { session_id: sid, user_id: uid, ws_url: url },
            Err(e) => WebhookAction::Reject(e),
        }
    } else if str_eq(req.message_type.as_str(), "stop_request") {
        match (req.session_id, req.user_id, req.reason) {
            (Some(sid), Some(uid), Some(why)) => WebhookAction::StopSession {
                session_id: sid,
                user_id: uid,
                reason: why,
            },
            _ => WebhookAction::Reject(WebhookRejection::MissingFields),
        }
    } else {
        WebhookAction::Reject(WebhookRejection::UnknownType)
    }
}

} // verus!
