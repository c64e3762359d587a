//! The session hooks an embedding program may override: one observer is
//! injected into the engine and consulted when a session starts, when it
//! stops, and when a tool call arrives. The default observer accepts
//! everything and answers nothing.

use vstd::prelude::*;

use crate::json::JsonValue;
use crate::models::UserId;

verus! {

/// One tool invocation forwarded by the cloud.
#[derive(Debug)]
pub struct ToolCall {
    pub tool_id: String,
    pub tool_parameters: JsonValue,
}

/// The extension point around a session's lifecycle. Implementations live in
/// the embedding program; an error from a hook is reported to the caller and
/// never unwinds.
pub trait SessionObserver {
    /// Called once a session is connected and initialized.
    fn on_session(&self, session_id: &str, user_id: &UserId) -> Result<(), String>;

    /// Called when a session is being stopped.
    fn on_stop(&self, session_id: &str, user_id: &UserId, reason: &str) -> Result<(), String>;

    /// Called when a tool call is received; may answer with a reply.
    fn on_tool_call(&self, tool_call: &ToolCall) -> Result<Option<String>, String>;
}

/// The default observer: every hook succeeds, and no tool call is answered.
pub struct NoopObserver;

impl SessionObserver for NoopObserver {
    fn on_session(&self, _session_id: &str, _user_id: &UserId) -> (r: Result<(), String>)
        ensures
            r is Ok,
    {
        Ok(())
    }

    fn on_stop(&self, _session_id: &str, _user_id: &UserId, _reason: &str) -> (r: Result<
        (),
        String,
    >)
        ensures
            r is Ok,
    {
        Ok(())
    }

    fn on_tool_call(&self, _tool_call: &ToolCall) -> (r: Result<Option<String>, String>)
        ensures
            r matches Ok(reply) && reply is None,
    {
        Ok(None)
    }
}

} // verus!
