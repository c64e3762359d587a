use memcards::json::JsonValue;
use memcards::layout_manager::{Layout, LayoutManager};
use memcards::models::{CardRating, Flashcard};
use memcards::session::{
    head_position_triggers_reveal, intro_text, update_user_settings, SessionEffect, SessionState,
};
use memcards::srs::{new_review, schedule_states, UserSettings};

const NOW: i64 = 1_700_000_000;

fn card(id: i32, deck_id: i32, front: &str, back: &str) -> Flashcard {
    Flashcard {
        id,
        deck_id,
        front: front.to_string(),
        back: back.to_string(),
        last_rating: None,
        last_reviewed: None,
        last_scheduled: None,
        last_memory: None,
    }
}

fn fresh_session(cards: Vec<Flashcard>) -> SessionState {
    SessionState::new(
        vec![(1, "Verbs".to_string())],
        cards,
        "user-1".to_string(),
        UserSettings::new(20, 75),
        LayoutManager::new("app.pkg".to_string(), "sess-1".to_string()),
    )
}

fn displayed_top(effect: &SessionEffect) -> String {
    match effect {
        SessionEffect::Display(d) => match &d.layout {
            Layout::DoubleTextWall { top_text, .. } => top_text.clone(),
            Layout::TextWall { text } => text.clone(),
            _ => panic!("unexpected layout"),
        },
        _ => panic!("expected a display effect"),
    }
}

#[test]
fn full_review_runs_through_the_queue() {
    let mut s = fresh_session(vec![
        card(1, 1, "A front", "A back"),
        card(2, 1, "B front", "B back"),
        card(3, 1, "C front", "C back"),
    ]);
    assert_eq!(s.queue_len(), 3);

    let started = s.on_transcription("start", NOW);
    assert_eq!(started.len(), 1);
    assert_eq!(displayed_top(&started[0]), "A front");

    let rated_a = s.on_transcription("again", NOW);
    assert_eq!(rated_a.len(), 2);
    match &rated_a[0] {
        SessionEffect::PersistReview(rev) => {
            assert_eq!(rev.flashcard_id, 1);
            assert_eq!(rev.rating, CardRating::Again);
            assert_eq!(rev.reviewed, NOW);
        }
        _ => panic!("expected the review to be persisted first"),
    }
    assert_eq!(displayed_top(&rated_a[1]), "B front");

    let rated_b = s.on_transcription("easy", NOW);
    assert_eq!(rated_b.len(), 2);
    assert_eq!(displayed_top(&rated_b[1]), "C front");

    let rated_c = s.on_transcription("difficult", NOW);
    assert_eq!(rated_c.len(), 2);
    let closing = displayed_top(&rated_c[1]);
    assert!(closing.starts_with("All cards reviewed!"));
    assert_eq!(s.queue_len(), 0);
}

#[test]
fn reveal_shows_both_faces_without_advancing() {
    let mut s = fresh_session(vec![card(1, 1, "front text", "back text")]);
    s.on_transcription("start", NOW);
    let effects = s.on_transcription("please reveal", NOW);
    assert_eq!(effects.len(), 1);
    match &effects[0] {
        SessionEffect::Display(d) => match &d.layout {
            Layout::DoubleTextWall { top_text, bottom_text } => {
                assert_eq!(top_text, "front text");
                assert_eq!(bottom_text, "back text");
            }
            _ => panic!("expected both faces"),
        },
        _ => panic!("expected a display"),
    }
    assert_eq!(s.queue_len(), 0);
}

#[test]
fn unrecognized_speech_changes_nothing() {
    let mut s = fresh_session(vec![card(1, 1, "a", "b")]);
    s.on_transcription("start", NOW);
    let effects = s.on_transcription("what a lovely day", NOW);
    assert!(effects.is_empty());
    assert_eq!(s.queue_len(), 0);
}

#[test]
fn start_is_ignored_while_active_and_ratings_before_start() {
    let mut s = fresh_session(vec![card(1, 1, "a", "b"), card(2, 1, "c", "d")]);
    let before = s.on_transcription("easy", NOW);
    assert!(before.is_empty());
    s.on_transcription("start", NOW);
    assert_eq!(s.queue_len(), 1);
}

#[test]
fn deck_label_shows_remaining_count() {
    let mut s = fresh_session(vec![card(1, 1, "a", "b"), card(2, 1, "c", "d")]);
    let effects = s.on_transcription("start", NOW);
    match &effects[0] {
        SessionEffect::Display(d) => match &d.layout {
            Layout::DoubleTextWall { bottom_text, .. } => {
                assert_eq!(bottom_text, "Verbs (1 left)");
            }
            _ => panic!("expected a card display"),
        },
        _ => panic!("expected a display"),
    }
}

fn settings_payload(key: &str, value: u64) -> JsonValue {
    JsonValue::Array(vec![JsonValue::Object(vec![
        ("key".to_string(), JsonValue::Str(key.to_string())),
        (
            "value".to_string(),
            JsonValue::Num {
                u_val: Some(value),
                i_val: Some(value as i64),
                f64_bits: (value as f64).to_bits(),
            },
        ),
    ])])
}

#[test]
fn settings_update_applies_in_range_values() {
    let mut settings = UserSettings::new(20, 75);
    update_user_settings(&mut settings, &settings_payload("max_cards_per_session", 42));
    assert_eq!(settings.max_cards_per_session(), 42);
    assert_eq!(settings.desired_retention(), 75);
    update_user_settings(&mut settings, &settings_payload("desired_retention", 90));
    assert_eq!(settings.desired_retention(), 90);
}

#[test]
fn settings_update_rejects_out_of_range_values() {
    let mut settings = UserSettings::new(20, 75);
    update_user_settings(&mut settings, &settings_payload("max_cards_per_session", 101));
    assert_eq!(settings.max_cards_per_session(), 20);
    update_user_settings(&mut settings, &settings_payload("desired_retention", 0));
    assert_eq!(settings.desired_retention(), 75);
}

#[test]
fn later_settings_entry_wins_and_can_clear_an_earlier_one() {
    let entry = |key: &str, value: u64| {
        JsonValue::Object(vec![
            ("key".to_string(), JsonValue::Str(key.to_string())),
            (
                "value".to_string(),
                JsonValue::Num {
                    u_val: Some(value),
                    i_val: Some(value as i64),
                    f64_bits: (value as f64).to_bits(),
                },
            ),
        ])
    };
    let mut settings = UserSettings::new(20, 75);
    let payload = JsonValue::Array(vec![
        entry("max_cards_per_session", 30),
        entry("max_cards_per_session", 40),
    ]);
    update_user_settings(&mut settings, &payload);
    assert_eq!(settings.max_cards_per_session(), 40);

    let mut settings2 = UserSettings::new(20, 75);
    let cleared = JsonValue::Array(vec![
        entry("max_cards_per_session", 30),
        entry("max_cards_per_session", 500),
    ]);
    update_user_settings(&mut settings2, &cleared);
    assert_eq!(settings2.max_cards_per_session(), 20);
}

#[test]
fn setters_enforce_the_valid_range() {
    let mut settings = UserSettings::new(20, 75);
    settings.set_max_cards_per_session(0);
    assert_eq!(settings.max_cards_per_session(), 20);
    settings.set_max_cards_per_session(100);
    assert_eq!(settings.max_cards_per_session(), 100);
    settings.set_desired_retention(101);
    assert_eq!(settings.desired_retention(), 75);
    settings.set_desired_retention(1);
    assert_eq!(settings.desired_retention(), 1);
}

#[test]
fn raising_the_limit_before_start_triggers_a_requeue() {
    let mut s = fresh_session(vec![card(1, 1, "a", "b"), card(2, 1, "c", "d")]);
    s.apply_settings(&settings_payload("max_cards_per_session", 5));
    assert!(s.needs_requeue());
    let more: Vec<Flashcard> = (1..=5).map(|i| card(i, 1, "f", "b")).collect();
    let d = s.apply_requeue(vec![(1, "Verbs".to_string())], more);
    assert_eq!(s.queue_len(), 5);
    match d.layout {
        Layout::TextWall { text } => assert!(text.starts_with("5 cards for review")),
        _ => panic!("expected the announcement"),
    }
}

#[test]
fn the_same_update_while_active_leaves_the_queue_alone() {
    let mut s = fresh_session(vec![card(1, 1, "a", "b"), card(2, 1, "c", "d")]);
    s.on_transcription("start", NOW);
    let before = s.queue_len();
    s.apply_settings(&settings_payload("max_cards_per_session", 5));
    assert!(!s.needs_requeue());
    assert_eq!(s.queue_len(), before);
}

#[test]
fn the_queue_keeps_only_the_newest_hundred_cards() {
    let many: Vec<Flashcard> = (1..=105).map(|i| card(i, 1, "f", "b")).collect();
    let mut s = fresh_session(many);
    assert_eq!(s.queue_len(), 100);
    let effects = s.on_transcription("start", NOW);
    match &effects[0] {
        SessionEffect::Display(d) => match &d.layout {
            Layout::DoubleTextWall { .. } => {}
            _ => panic!("expected a card display"),
        },
        _ => panic!("expected a display"),
    }
    // the first five cards were displaced by the overflow
    let again = s.on_transcription("again", NOW);
    match &again[0] {
        SessionEffect::PersistReview(rev) => assert_eq!(rev.flashcard_id, 6),
        _ => panic!("expected a persisted review"),
    }
}

#[test]
fn matching_queue_size_needs_no_requeue() {
    let mut s = fresh_session(vec![card(1, 1, "a", "b"), card(2, 1, "c", "d")]);
    s.apply_settings(&settings_payload("max_cards_per_session", 2));
    assert!(!s.needs_requeue());
}

#[test]
fn never_reviewed_card_rated_good_is_scheduled_after_now() {
    let c = card(1, 1, "a", "b");
    let rev = new_review(&c, CardRating::Good, 80, NOW).unwrap();
    assert!(rev.scheduled > NOW);
    assert_eq!(rev.reviewed, NOW);
    assert_eq!(rev.flashcard_id, 1);
}

#[test]
fn elapsed_days_change_the_schedule() {
    let mut c = card(1, 1, "a", "b");
    c.last_reviewed = Some(NOW - 5 * 86_400);
    c.last_memory = Some(fsrs::MemoryState { stability: 3.0, difficulty: 5.0 });
    c.last_rating = Some(CardRating::Good);
    let after_gap = new_review(&c, CardRating::Good, 80, NOW).unwrap();
    c.last_reviewed = Some(NOW);
    let no_gap = new_review(&c, CardRating::Good, 80, NOW).unwrap();
    assert_ne!(after_gap.scheduled, no_gap.scheduled);
}

#[test]
fn reviewed_card_without_memory_state_is_a_model_fault() {
    let mut c = card(1, 1, "a", "b");
    c.last_reviewed = Some(NOW - 86_400);
    let r = schedule_states(&c, 80, NOW);
    assert!(r.is_err());
}

#[test]
fn rating_words_are_recognized_anywhere_in_a_phrase() {
    assert_eq!(CardRating::from_transcript("that was easy"), Some(CardRating::Easy));
    assert_eq!(CardRating::from_transcript("good"), Some(CardRating::Good));
    assert_eq!(CardRating::from_transcript("quite difficult"), Some(CardRating::Difficult));
    assert_eq!(CardRating::from_transcript("again please"), Some(CardRating::Again));
    assert_eq!(CardRating::from_transcript("nothing"), None);
    assert_eq!(CardRating::Easy.label(), "easy");
}

#[test]
fn head_gesture_reveals_on_up() {
    assert!(head_position_triggers_reveal("UP"));
    assert!(head_position_triggers_reveal("looking up"));
    assert!(!head_position_triggers_reveal("down"));
}

#[test]
fn intro_counts_cards() {
    assert!(intro_text(0).starts_with("No flashcards scheduled"));
    assert!(intro_text(1).starts_with("1 card for review"));
    assert!(intro_text(3).starts_with("3 cards for review"));
}
