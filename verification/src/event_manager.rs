//! Typed publish/subscribe fan-out for protocol events.
//!
//! Handlers are registered per stream tag or per system-event kind and are
//! invoked in registration order. Each handler reports its own outcome, so one
//! failing handler never keeps a later one from running: the emitter collects
//! one result per registered handler and carries on. Handler types are chosen
//! by the program that embeds the library.

use vstd::prelude::*;

use crate::events::{EventData, StreamType, SystemEvent, SystemEventKind};

verus! {

/// A reaction to one telemetry event. The error branch is the isolation
/// boundary: a failure is handed back to the emitter instead of unwinding.
pub trait StreamHandler {
    /// React to one event of the stream the handler was registered for.
    fn on_event(&self, tag: &StreamType, data: &EventData<'_>) -> Result<(), String>;
}

/// A reaction to one system event, isolated the same way.
pub trait SystemHandler {
    /// React to one system event of the kind the handler was registered for.
    fn on_event(&self, kind: SystemEventKind, event: &SystemEvent<'_>) -> Result<(), String>;
}

/// How many entries of `s` carry the tag `t`.
pub open spec fn tag_count<H>(s: Seq<(StreamType, H)>, t: StreamType) -> int
    decreases s.len(),
{
    if s.len() == 0 {
        0
    } else {
        tag_count(s.drop_last(), t) + if s.last().0 == t {
            1int
        } else {
            0int
        }
    }
}

/// How many entries of `s` carry the system-event kind `k`.
pub open spec fn kind_count<S>(s: Seq<(SystemEventKind, S)>, k: SystemEventKind) -> int
    decreases s.len(),
{
    if s.len() == 0 {
        0
    } else {
        kind_count(s.drop_last(), k) + if s.last().0 == k {
            1int
        } else {
            0int
        }
    }
}

/// The event bus: ordered handler lists per stream tag and per system-event
/// kind, plus the set of stream tags that have at least one handler.
pub struct EventManager<H, S> {
    pub stream_handlers: Vec<(StreamType, H)>,
    pub system_handlers: Vec<(SystemEventKind, S)>,
    pub active_subscriptions: Vec<StreamType>,
}

impl<H: StreamHandler, S: SystemHandler> EventManager<H, S> {
    /// The subscription list never repeats a tag.
    pub open spec fn subs_unique(self) -> bool {
        forall|i: int, j: int|
            0 <= i < j < self.active_subscriptions@.len()
                ==> self.active_subscriptions@[i] != self.active_subscriptions@[j]
    }

    /// An empty bus.
    pub fn new() -> (r: EventManager<H, S>)
        ensures
            r.stream_handlers@.len() == 0,
            r.system_handlers@.len() == 0,
            r.active_subscriptions@.len() == 0,
            r.subs_unique(),
    {
        EventManager {
            stream_handlers: Vec::new(),
            system_handlers: Vec::new(),
            active_subscriptions: Vec::new(),
        }
    }

    /// Whether some handler is registered for the tag.
    pub fn subscribed(&self, tag: &StreamType) -> (r: bool)
        ensures
            r == self.active_subscriptions@.contains(*tag),
    {
        let mut i: usize = 0;
        while i < self.active_subscriptions.len()
            invariant
                0 <= i <= self.active_subscriptions@.len(),
                forall|k: int| 0 <= k < i ==> self.active_subscriptions@[k] != *tag,
            decreases self.active_subscriptions@.len() - i,
        {
            if self.active_subscriptions[i] == *tag {
                return true;
            }
            i = i + 1;
        }
        false
    }

    /// Register a handler for a stream tag, appending in call order, and mark
    /// the tag subscribed.
    pub fn on_stream(&mut self, stream_type: StreamType, handler: H)
        ensures
            final(self).stream_handlers@ == old(self).stream_handlers@.push(
                (stream_type, handler),
            ),
            final(self).system_handlers == old(self).system_handlers,
            final(self).active_subscriptions@ == if old(self).active_subscriptions@.contains(
                stream_type,
            ) {
                old(self).active_subscriptions@
            } else {
                old(self).active_subscriptions@.push(stream_type)
            },
            old(self).subs_unique() ==> final(self).subs_unique(),
    {
        let already = self.subscribed(&stream_type);
        self.stream_handlers.push((stream_type, handler));
        if !already {
            self.active_subscriptions.push(stream_type);
        }
    }

    /// Register a handler for a system-event kind, appending in call order.
    pub fn on_system(&mut self, kind: SystemEventKind, handler: S)
        ensures
            final(self).system_handlers@ == old(self).system_handlers@.push((kind, handler)),
            final(self).stream_handlers == old(self).stream_handlers,
            final(self).active_subscriptions == old(self).active_subscriptions,
    {
        self.system_handlers.push((kind, handler));
    }

    /// Register a handler for transcription events.
    pub fn on_transcription(&mut self, handler: H)
        ensures
            final(self).stream_handlers@ == old(self).stream_handlers@.push(
                (StreamType::Transcription, handler),
            ),
            final(self).system_handlers == old(self).system_handlers,
            old(self).subs_unique() ==> final(self).subs_unique(),
    {
        self.on_stream(StreamType::Transcription, handler);
    }

    /// Register a handler for button presses.
    pub fn on_button_press(&mut self, handler: H)
        ensures
            final(self).stream_handlers@ == old(self).stream_handlers@.push(
                (StreamType::ButtonPress, handler),
            ),
            final(self).system_handlers == old(self).system_handlers,
            old(self).subs_unique() ==> final(self).subs_unique(),
    {
        self.on_stream(StreamType::ButtonPress, handler);
    }

    /// Register a handler for head-position gestures.
    pub fn on_head_position(&mut self, handler: H)
        ensures
            final(self).stream_handlers@ == old(self).stream_handlers@.push(
                (StreamType::HeadPosition, handler),
            ),
            final(self).system_handlers == old(self).system_handlers,
            old(self).subs_unique() ==> final(self).subs_unique(),
    {
        self.on_stream(StreamType::HeadPosition, handler);
    }

    /// Hand one telemetry event to every handler registered for its tag, in
    /// registration order. Every such handler is invoked exactly once — a
    /// failure is collected, never propagated — so the result list holds one
    /// entry per registered handler of the tag, in that same order.
    pub fn emit_stream_event(&self, stream_type: &StreamType, data: &EventData<'_>) -> (results:
        Vec<Result<(), String>>)
        ensures
            results@.len() == tag_count(self.stream_handlers@, *stream_type),
    {
        let mut results: Vec<Result<(), String>> = Vec::new();
        let mut i: usize = 0;
        while i < self.stream_handlers.len()
            invariant
                0 <= i <= self.stream_handlers@.len(),
                results@.len() == tag_count(self.stream_handlers@.take(i as int), *stream_type),
            decreases self.stream_handlers@.len() - i,
        {
            let pair = &self.stream_handlers[i];
            proof {
                assert(self.stream_handlers@.take(i + 1).drop_last() =~= self.stream_handlers@.take(
                    i as int,
                ));
                assert(self.stream_handlers@.take(i + 1).last() == self.stream_handlers@[i as int]);
            }
            if pair.0 == *stream_type {
                let outcome = pair.1.on_event(stream_type, data);
                results.push(outcome);
            }
            i = i + 1;
        }
        proof {
            assert(self.stream_handlers@.take(i as int) =~= self.stream_handlers@);
        }
        results
    }

    /// Hand one system event to every handler registered for its kind, in
    /// registration order, collecting failures the same way.
    pub fn emit_system_event(&self, kind: SystemEventKind, event: &SystemEvent<'_>) -> (results:
        Vec<Result<(), String>>)
        ensures
            results@.len() == kind_count(self.system_handlers@, kind),
    {
        let mut results: Vec<Result<(), String>> = Vec::new();
        let mut i: usize = 0;
        while i < self.system_handlers.len()
            invariant
                0 <= i <= self.system_handlers@.len(),
                results@.len() == kind_count(self.system_handlers@.take(i as int), kind),
            decreases self.system_handlers@.len() - i,
        {
            let pair = &self.system_handlers[i];
            proof {
                assert(self.system_handlers@.take(i + 1).drop_last() =~= self.system_handlers@.take(
                    i as int,
                ));
                assert(self.system_handlers@.take(i + 1).last() == self.system_handlers@[i as int]);
            }
            if pair.0 == kind {
                let outcome = pair.1.on_event(kind, event);
                results.push(outcome);
            }
            i = i + 1;
        }
        proof {
            assert(self.system_handlers@.take(i as int) =~= self.system_handlers@);
        }
        results
    }
}

} // verus!
