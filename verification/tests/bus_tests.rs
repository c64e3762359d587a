use std::cell::RefCell;
use std::rc::Rc;

use memcards::event_manager::{EventManager, StreamHandler, SystemHandler};
use memcards::events::{EventData, StreamType, SystemEvent, SystemEventKind, TranscriptionData};

struct Recorder {
    name: &'static str,
    fails: bool,
    log: Rc<RefCell<Vec<String>>>,
}

impl StreamHandler for Recorder {
    fn on_event(&self, _tag: &StreamType, _data: &EventData<'_>) -> Result<(), String> {
        self.log.borrow_mut().push(self.name.to_string());
        if self.fails {
            Err(format!("{} failed", self.name))
        } else {
            Ok(())
        }
    }
}

struct SysRecorder {
    name: &'static str,
    log: Rc<RefCell<Vec<String>>>,
}

impl SystemHandler for SysRecorder {
    fn on_event(&self, _kind: SystemEventKind, _event: &SystemEvent<'_>) -> Result<(), String> {
        self.log.borrow_mut().push(self.name.to_string());
        Ok(())
    }
}

fn transcription(text: &str) -> EventData<'static> {
    EventData::Transcription(TranscriptionData {
        text: text.to_string(),
        is_final: true,
        start_time: 0,
        end_time: 1,
        transcribe_language: None,
        speaker_id: None,
        duration: None,
    })
}

#[test]
fn failing_middle_handler_does_not_stop_the_others() {
    let log = Rc::new(RefCell::new(Vec::new()));
    let mut bus: EventManager<Recorder, SysRecorder> = EventManager::new();
    bus.on_stream(StreamType::Transcription, Recorder {
        name: "first",
        fails: false,
        log: log.clone(),
    });
    bus.on_stream(StreamType::Transcription, Recorder {
        name: "middle",
        fails: true,
        log: log.clone(),
    });
    bus.on_stream(StreamType::Transcription, Recorder {
        name: "third",
        fails: false,
        log: log.clone(),
    });
    bus.on_stream(StreamType::ButtonPress, Recorder {
        name: "other",
        fails: false,
        log: log.clone(),
    });

    let results = bus.emit_stream_event(&StreamType::Transcription, &transcription("hi"));
    assert_eq!(results.len(), 3);
    assert!(results[0].is_ok());
    assert!(results[1].is_err());
    assert!(results[2].is_ok());
    assert_eq!(*log.borrow(), vec!["first", "middle", "third"]);

    let other = bus.emit_stream_event(&StreamType::ButtonPress, &transcription("hi"));
    assert_eq!(other.len(), 1);
    assert!(other[0].is_ok());
    assert_eq!(log.borrow().last().map(|s| s.as_str()), Some("other"));
}

#[test]
fn handlers_run_in_registration_order() {
    let log = Rc::new(RefCell::new(Vec::new()));
    let mut bus: EventManager<Recorder, SysRecorder> = EventManager::new();
    for name in ["a", "b", "c"] {
        bus.on_transcription(Recorder { name, fails: false, log: log.clone() });
    }
    bus.emit_stream_event(&StreamType::Transcription, &transcription("x"));
    assert_eq!(*log.borrow(), vec!["a", "b", "c"]);
}

#[test]
fn emission_without_handlers_is_empty() {
    let log = Rc::new(RefCell::new(Vec::new()));
    let mut bus: EventManager<Recorder, SysRecorder> = EventManager::new();
    bus.on_stream(StreamType::Vad, Recorder { name: "vad", fails: false, log: log.clone() });
    let results = bus.emit_stream_event(&StreamType::PhotoTaken, &transcription("x"));
    assert!(results.is_empty());
    assert!(log.borrow().is_empty());
}

#[test]
fn system_handlers_are_keyed_by_kind() {
    let log = Rc::new(RefCell::new(Vec::new()));
    let mut bus: EventManager<Recorder, SysRecorder> = EventManager::new();
    bus.on_system(SystemEventKind::Connected, SysRecorder { name: "conn", log: log.clone() });
    bus.on_system(SystemEventKind::SettingsUpdate, SysRecorder {
        name: "settings",
        log: log.clone(),
    });
    let results = bus.emit_system_event(SystemEventKind::Connected, &SystemEvent::Connected(None));
    assert_eq!(results.len(), 1);
    assert_eq!(*log.borrow(), vec!["conn"]);
}

#[test]
fn subscriptions_track_registered_tags_once() {
    let log = Rc::new(RefCell::new(Vec::new()));
    let mut bus: EventManager<Recorder, SysRecorder> = EventManager::new();
    assert!(!bus.subscribed(&StreamType::Transcription));
    bus.on_transcription(Recorder { name: "a", fails: false, log: log.clone() });
    bus.on_transcription(Recorder { name: "b", fails: false, log: log.clone() });
    bus.on_button_press(Recorder { name: "c", fails: false, log: log.clone() });
    bus.on_head_position(Recorder { name: "d", fails: false, log: log.clone() });
    assert!(bus.subscribed(&StreamType::Transcription));
    assert!(bus.subscribed(&StreamType::ButtonPress));
    assert!(bus.subscribed(&StreamType::HeadPosition));
    assert_eq!(bus.active_subscriptions.len(), 3);
}
