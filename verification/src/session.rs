//! The live review session: a bounded card queue, deck-name lookup, the
//! current card, and the handlers that drive one review from voice and
//! gesture commands.
//!
//! The queue is a lock-free ring of fixed capacity and the deck names live in
//! a concurrent map, both from outside crates; each is used through a small
//! set of trusted operations whose contracts speak of a sequence and a map.
//! Everything that decides — which card comes next, what a spoken word does,
//! when settings force a reload — is proved here. Network and store work is
//! handed back to the caller as effects.

use vstd::prelude::*;

use crate::json::JsonValue;
use crate::layout_manager::{DisplayRequest, Layout, LayoutManager};
use crate::models::{CardRating, Flashcard, FlashcardReviewNew};
use crate::srs::{new_review, spec_review, spec_review_ok, UserSettings};
use crate::text::{
    dec_str, has_substring, lower_of, to_lowercase_str, trim_spec, trim_str, usize_to_string,
};

verus! {

/// The fixed capacity of a session's card queue.
pub const QUEUE_CAPACITY: usize = 100;

#[verifier::external_type_specification]
#[verifier::external_body]
#[verifier::reject_recursive_types(T)]
pub struct ExArrayQueue<T>(crossbeam_queue::ArrayQueue<T>);

/// What the card queue holds, oldest first.
pub uninterp spec fn card_queue_view(q: crossbeam_queue::ArrayQueue<Flashcard>) -> Seq<Flashcard>;

/// The fixed capacity the card queue was created with.
pub uninterp spec fn card_queue_capacity(q: crossbeam_queue::ArrayQueue<Flashcard>) -> int;

/// Relies on `crossbeam_queue::ArrayQueue::new`: an empty queue of the given
/// capacity, which must not be zero.
#[verifier::external_body]
fn queue_new(cap: usize) -> (q: crossbeam_queue::ArrayQueue<Flashcard>)
    requires
        cap >= 1,
    ensures
        card_queue_view(q) == Seq::<Flashcard>::empty(),
        card_queue_capacity(q) == cap,
{
    crossbeam_queue::ArrayQueue::new(cap)
}

/// Relies on `crossbeam_queue::ArrayQueue::force_push`: appends the element,
/// displacing and returning the oldest one when the queue is full.
#[verifier::external_body]
fn queue_force_push(q: &mut crossbeam_queue::ArrayQueue<Flashcard>, card: Flashcard) -> (r: Option<
    Flashcard,
>)
    ensures
        card_queue_capacity(*final(q)) == card_queue_capacity(*old(q)),
        if card_queue_view(*old(q)).len() < card_queue_capacity(*old(q)) {
            card_queue_view(*final(q)) == card_queue_view(*old(q)).push(card) && r is None
        } else {
            card_queue_view(*final(q)) == card_queue_view(*old(q)).drop_first().push(card)
                && r == Some(card_queue_view(*old(q))[0])
        },
{
    q.force_push(card)
}

/// Relies on `crossbeam_queue::ArrayQueue::pop`: removes and returns the
/// oldest element, if any.
#[verifier::external_body]
fn queue_pop(q: &mut crossbeam_queue::ArrayQueue<Flashcard>) -> (r: Option<Flashcard>)
    ensures
        card_queue_capacity(*final(q)) == card_queue_capacity(*old(q)),
        if card_queue_view(*old(q)).len() == 0 {
            card_queue_view(*final(q)) == card_queue_view(*old(q)) && r is None
        } else {
            card_queue_view(*final(q)) == card_queue_view(*old(q)).drop_first() && r == Some(
                card_queue_view(*old(q))[0],
            )
        },
{
    q.pop()
}

/// Relies on `crossbeam_queue::ArrayQueue::len`.
#[verifier::external_body]
fn queue_len(q: &crossbeam_queue::ArrayQueue<Flashcard>) -> (r: usize)
    ensures
        r == card_queue_view(*q).len(),
{
    q.len()
}

/// Relies on `crossbeam_queue::ArrayQueue::is_empty`.
#[verifier::external_body]
fn queue_is_empty(q: &crossbeam_queue::ArrayQueue<Flashcard>) -> (r: bool)
    ensures
        r == (card_queue_view(*q).len() == 0),
{
    q.is_empty()
}

#[verifier::external_type_specification]
#[verifier::external_body]
#[verifier::reject_recursive_types(K)]
#[verifier::reject_recursive_types(V)]
#[verifier::reject_recursive_types(S)]
pub struct ExDashMap<K, V, S>(dashmap::DashMap<K, V, S>);

/// What the deck-name map binds: deck id to deck name.
pub uninterp spec fn deck_names_view(m: dashmap::DashMap<i32, String>) -> Map<i32, Seq<char>>;

/// The empty deck-name binding.
pub open spec fn no_deck_names() -> Map<i32, Seq<char>> {
    Map::empty()
}

/// Relies on `dashmap::DashMap::new`: an empty map.
#[verifier::external_body]
fn deck_names_new() -> (m: dashmap::DashMap<i32, String>)
    ensures
        deck_names_view(m) == no_deck_names(),
{
    dashmap::DashMap::new()
}

/// Relies on `dashmap::DashMap::insert`: binds the key to the value,
/// replacing any earlier binding.
#[verifier::external_body]
fn deck_names_insert(m: &mut dashmap::DashMap<i32, String>, id: i32, name: String)
    ensures
        deck_names_view(*final(m)) == deck_names_view(*old(m)).insert(id, name@),
{
    m.insert(id, name);
}

/// Relies on `dashmap::DashMap::get`: the value bound to the key, if any,
/// handed out as a copy.
#[verifier::external_body]
fn deck_names_get(m: &dashmap::DashMap<i32, String>, id: i32) -> (r: Option<String>)
    ensures
        match r {
            Some(name) => deck_names_view(*m).contains_key(id) && deck_names_view(*m)[id] == name@,
            None => !deck_names_view(*m).contains_key(id),
        },
{
    m.get(&id).map(|entry| entry.value().clone())
}

/// The last `QUEUE_CAPACITY` of `cards`, in order: what the ring keeps after
/// every card has been pushed.
pub open spec fn spec_queue_window(cards: Seq<Flashcard>) -> Seq<Flashcard> {
    if cards.len() <= QUEUE_CAPACITY {
        cards
    } else {
        cards.skip(cards.len() - QUEUE_CAPACITY)
    }
}

/// The deck-name map that a listing builds: a later row wins a repeated id.
pub open spec fn spec_deck_map(rows: Seq<(i32, String)>) -> Map<i32, Seq<char>>
    decreases rows.len(),
{
    if rows.len() == 0 {
        no_deck_names()
    } else {
        spec_deck_map(rows.drop_last()).insert(rows.last().0, rows.last().1@)
    }
}

/// Fill a fresh card queue from a listing, oldest rows displaced first once
/// the capacity is exceeded.
fn build_card_queue(cards: Vec<Flashcard>) -> (q: crossbeam_queue::ArrayQueue<Flashcard>)
    ensures
        card_queue_view(q) == spec_queue_window(cards@),
        card_queue_capacity(q) == QUEUE_CAPACITY,
{
    let mut q = queue_new(QUEUE_CAPACITY);
    let n = cards.len();
    let mut cards = cards;
    let mut i: usize = 0;
    proof {
        assert(card_queue_view(q) =~= spec_queue_window(cards@.take(0)));
    }
    while i < n
        invariant
            n == cards@.len(),
            0 <= i <= n,
            card_queue_capacity(q) == QUEUE_CAPACITY,
            card_queue_view(q) == spec_queue_window(cards@.take(i as int)),
        decreases n - i,
    {
        let card = cards[i].duplicate();
        proof {
            assert(cards@.take(i + 1).drop_last() =~= cards@.take(i as int));
            assert(cards@.take(i + 1).last() == cards@[i as int]);
        }
        let ghost pre = card_queue_view(q);
        queue_force_push(&mut q, card);
        proof {
            lemma_queue_window_step(cards@, i as int, pre, card_queue_view(q));
        }
        i = i + 1;
    }
    proof {
        assert(cards@.take(n as int) =~= cards@);
    }
    q
}

/// Pushing the next card onto a ring that mirrors the window keeps it
/// mirroring the window.
proof fn lemma_queue_window_step(
    cards: Seq<Flashcard>,
    i: int,
    pre: Seq<Flashcard>,
    post: Seq<Flashcard>,
)
    requires
        0 <= i < cards.len(),
        pre == spec_queue_window(cards.take(i)),
        if pre.len() < QUEUE_CAPACITY {
            post == pre.push(cards[i])
        } else {
            post == pre.drop_first().push(cards[i])
        },
    ensures
        post == spec_queue_window(cards.take(i + 1)),
{
    assert(cards.take(i).len() == i);
    if i < QUEUE_CAPACITY {
        assert(pre.len() == i);
        assert(post =~= cards.take(i + 1));
    } else {
        assert(pre.len() == QUEUE_CAPACITY);
        assert(post =~= cards.take(i + 1).skip(i + 1 - QUEUE_CAPACITY));
    }
}

/// Fill a fresh deck-name map from a listing.
fn build_deck_names(rows: Vec<(i32, String)>) -> (m: dashmap::DashMap<i32, String>)
    ensures
        deck_names_view(m) == spec_deck_map(rows@),
{
    let mut m = deck_names_new();
    let mut i: usize = 0;
    proof {
        assert(deck_names_view(m) =~= spec_deck_map(rows@.take(0)));
    }
    while i < rows.len()
        invariant
            0 <= i <= rows@.len(),
            deck_names_view(m) == spec_deck_map(rows@.take(i as int)),
        decreases rows@.len() - i,
    {
        let id = rows[i].0;
        let name = rows[i].1.clone();
        proof {
            assert(rows@.take(i + 1).drop_last() =~= rows@.take(i as int));
            assert(rows@.take(i + 1).last() == rows@[i as int]);
        }
        deck_names_insert(&mut m, id, name);
        proof {
            assert(deck_names_view(m) =~= spec_deck_map(rows@.take(i + 1)));
        }
        i = i + 1;
    }
    proof {
        assert(rows@.take(rows@.len() as int) =~= rows@);
    }
    m
}

/// One live review session.
pub struct SessionState {
    cards: crossbeam_queue::ArrayQueue<Flashcard>,
    deck_names: dashmap::DashMap<i32, String>,
    started: bool,
    user_id: String,
    last_card: Option<Flashcard>,
    user_settings: UserSettings,
    layout_manager: LayoutManager,
}

impl SessionState {
    /// The cards still queued, next first.
    pub closed spec fn queue(self) -> Seq<Flashcard> {
        card_queue_view(self.cards)
    }

    /// The deck names the session knows.
    pub closed spec fn names(self) -> Map<i32, Seq<char>> {
        deck_names_view(self.deck_names)
    }

    /// Whether the review has begun.
    pub closed spec fn spec_started(self) -> bool {
        self.started
    }

    /// The card being shown, if any.
    pub closed spec fn spec_last_card(self) -> Option<Flashcard> {
        self.last_card
    }

    /// The identity the session reviews for.
    pub closed spec fn spec_user_id(self) -> Seq<char> {
        self.user_id@
    }

    /// The session's settings.
    pub closed spec fn settings(self) -> UserSettings {
        self.user_settings
    }

    /// The addressing stamped on this session's display requests.
    pub closed spec fn layout(self) -> LayoutManager {
        self.layout_manager
    }

    /// The queue never outgrows its fixed capacity.
    pub closed spec fn queue_wf(self) -> bool {
        card_queue_capacity(self.cards) == QUEUE_CAPACITY && self.queue().len() <= QUEUE_CAPACITY
    }

    /// A session over the given deck listing and due cards, not yet started.
    pub fn new(
        deck_rows: Vec<(i32, String)>,
        cards: Vec<Flashcard>,
        user_id: String,
        user_settings: UserSettings,
        layout_manager: LayoutManager,
    ) -> (s: SessionState)
        ensures
            s.queue() == spec_queue_window(cards@),
            s.names() == spec_deck_map(deck_rows@),
            !s.spec_started(),
            s.spec_last_card() is None,
            s.spec_user_id() == user_id@,
            s.settings() == user_settings,
            s.layout() == layout_manager,
            s.queue_wf(),
    {
        let q = build_card_queue(cards);
        proof {
            lemma_window_bounded(card_queue_view(q));
        }
        SessionState {
            cards: q,
            deck_names: build_deck_names(deck_rows),
            started: false,
            user_id,
            last_card: None,
            user_settings,
            layout_manager,
        }
    }

    /// How many cards are still queued.
    pub fn queue_len(&self) -> (r: usize)
        ensures
            r == self.queue().len(),
    {
        queue_len(&self.cards)
    }

    /// Read the settings.
    pub fn user_settings(&self) -> (r: &UserSettings)
        ensures
            *r == self.settings(),
    {
        &self.user_settings
    }
}

/// The announcement when nothing is due.
pub open spec fn spec_no_cards_text() -> Seq<char> {
    "No flashcards scheduled for review now.\nPlease add flashcards in the Mentra app interface."@
}

/// The announcement when every card has been rated.
pub open spec fn spec_all_reviewed_text() -> Seq<char> {
    "All cards reviewed! You can end the session in the Mentra app\ninterface."@
}

/// `1 card` or `N cards`.
pub open spec fn spec_count_phrase(n: int) -> Seq<char> {
    if n == 1 {
        "1 card"@
    } else {
        dec_str(n) + " cards"@
    }
}

/// The greeting a freshly loaded queue earns, count first.
pub open spec fn spec_init_text(n: int) -> Seq<char> {
    if n == 0 {
        spec_no_cards_text()
    } else {
        spec_count_phrase(n)
            + " for review. Say 'start' to begin.\nLook up or say 'reveal' to display the back answer on each card.\nSay 'easy', 'good', 'difficult', or 'again'\nto rate your card memorization."@
    }
}

/// The greeting used when the session first connects.
pub open spec fn spec_intro_text(n: int) -> Seq<char> {
    if n == 0 {
        spec_no_cards_text()
    } else {
        spec_count_phrase(n)
            + " for review. Say 'start' to begin.\nSay 'reveal' to display the back answer on each card.\nSay 'easy', 'good', 'difficult', or 'again'\nto rate your card memorization."@
    }
}

/// The second line under a card: its deck's name and the number still queued.
pub open spec fn spec_deck_label(names: Map<i32, Seq<char>>, deck_id: i32, remaining: int) -> Seq<
    char,
> {
    (if names.contains_key(deck_id) {
        names[deck_id]
    } else {
        Seq::empty()
    }) + " ("@ + dec_str(remaining) + " left)"@
}

/// `1 card` or `N cards`.
fn count_phrase(n: usize) -> (r: String)
    ensures
        r@ == spec_count_phrase(n as int),
{
    if n == 1 {
        String::from_str("1 card")
    } else {
        let r = usize_to_string(n).concat(" cards");
        proof {
            assert(r@ =~= spec_count_phrase(n as int));
        }
        r
    }
}

/// The greeting used when the session first connects, before any state
/// exists: the count of due cards, or the empty announcement.
pub fn intro_text(card_count: usize) -> (r: String)
    ensures
        r@ == spec_intro_text(card_count as int),
{
    if card_count == 0 {
        String::from_str(
            "No flashcards scheduled for review now.\nPlease add flashcards in the Mentra app interface.",
        )
    } else {
        let r = count_phrase(card_count).concat(
            " for review. Say 'start' to begin.\nSay 'reveal' to display the back answer on each card.\nSay 'easy', 'good', 'difficult', or 'again'\nto rate your card memorization.",
        );
        proof {
            assert(r@ =~= spec_intro_text(card_count as int));
        }
        r
    }
}

/// The streams every review session listens to.
pub fn default_stream_subscriptions() -> (r: Vec<String>)
    ensures
        r@.len() == 3,
        r@[0]@ == "transcription:en-US"@,
        r@[1]@ == "button_press"@,
        r@[2]@ == "head_position"@,
{
    let mut v: Vec<String> = Vec::new();
    v.push(String::from_str("transcription:en-US"));
    v.push(String::from_str("button_press"));
    v.push(String::from_str("head_position"));
    v
}

/// Whether a head gesture counts as the reveal command.
pub fn head_position_triggers_reveal(position: &str) -> (r: bool)
    ensures
        r == has_substring(lower_of(position@), "up"@),
{
    let lowered = to_lowercase_str(position);
    crate::text::contains_str(lowered.as_str(), "up")
}

impl SessionState {
    /// What the display addressing of every request this session builds
    /// looks like.
    pub open spec fn addressed(self, d: DisplayRequest) -> bool {
        &&& d.message_type@ == "display_event"@
        &&& d.package_name == self.layout().package_name
        &&& d.session_id == self.layout().session_id
        &&& d.duration_ms is None
    }

    /// Everything but the queue and the shown card stays put.
    pub open spec fn same_but_queue(pre: SessionState, post: SessionState) -> bool {
        &&& post.names() == pre.names()
        &&& post.spec_user_id() == pre.spec_user_id()
        &&& post.settings() == pre.settings()
        &&& post.layout() == pre.layout()
        &&& (pre.queue_wf() ==> post.queue_wf())
    }

    /// How advancing relates the queue, the shown card and the display: a
    /// queued card is popped and shown front-up over its deck label; an empty
    /// queue leaves everything and announces completion.
    pub open spec fn spec_advanced(
        pre: SessionState,
        post: SessionState,
        d: DisplayRequest,
    ) -> bool {
        &&& Self::same_but_queue(pre, post)
        &&& pre.addressed(d)
        &&& if pre.queue().len() > 0 {
            &&& post.queue() == pre.queue().drop_first()
            &&& post.spec_last_card() == Some(pre.queue()[0])
            &&& d.layout matches Layout::DoubleTextWall { top_text, bottom_text }
                && top_text@ == pre.queue()[0].front@ && bottom_text@ == spec_deck_label(
                pre.names(),
                pre.queue()[0].deck_id,
                pre.queue().len() - 1,
            )
        } else {
            &&& post.queue() == pre.queue()
            &&& post.spec_last_card() == pre.spec_last_card()
            &&& d.layout matches Layout::TextWall { text } && text@ == spec_all_reviewed_text()
        }
    }

    /// Pop the next card and show its front, or announce that every card has
    /// been reviewed.
    pub fn next_card_or_finish(&mut self) -> (d: DisplayRequest)
        ensures
            Self::spec_advanced(*old(self), *final(self), d),
            final(self).spec_started() == old(self).spec_started(),
    {
        match queue_pop(&mut self.cards) {
            Some(card) => {
                let name = match deck_names_get(&self.deck_names, card.deck_id) {
                    Some(n) => n,
                    None => String::new(),
                };
                let remaining = queue_len(&self.cards);
                let bottom = name.concat(" (").concat(usize_to_string(remaining).as_str()).concat(
                    " left)",
                );
                proof {
                    assert(bottom@ =~= spec_deck_label(
                        deck_names_view(self.deck_names),
                        card.deck_id,
                        remaining as int,
                    ));
                }
                let top = card.front.clone();
                self.last_card = Some(card);
                self.layout_manager.show_double_text_wall(top, bottom, None, None)
            },
            None => self.layout_manager.show_text_wall(
                String::from_str(
                    "All cards reviewed! You can end the session in the Mentra app\ninterface.",
                ),
                None,
                None,
            ),
        }
    }

    /// Show the current card's front and back, without touching any state.
    pub fn on_reveal(&self) -> (r: Option<DisplayRequest>)
        ensures
            match r {
                Some(d) => self.spec_last_card() matches Some(c) && (self.addressed(d) && (
                d.layout matches Layout::DoubleTextWall { top_text, bottom_text } && (top_text@
                    == c.front@ && bottom_text@ == c.back@))),
                None => self.spec_last_card() is None,
            },
    {
        match &self.last_card {
            Some(card) => Some(
                self.layout_manager.show_double_text_wall(
                    card.front.clone(),
                    card.back.clone(),
                    None,
                    None,
                ),
            ),
            None => None,
        }
    }

    /// Announce the freshly loaded queue: its card count, or that nothing is
    /// due.
    pub fn on_init(&self) -> (d: DisplayRequest)
        ensures
            self.addressed(d),
            d.layout matches Layout::TextWall { text } && text@ == spec_init_text(
                self.queue().len() as int,
            ),
    {
        let n = queue_len(&self.cards);
        let text = if n == 0 {
            String::from_str(
                "No flashcards scheduled for review now.\nPlease add flashcards in the Mentra app interface.",
            )
        } else {
            let t = count_phrase(n).concat(
                " for review. Say 'start' to begin.\nLook up or say 'reveal' to display the back answer on each card.\nSay 'easy', 'good', 'difficult', or 'again'\nto rate your card memorization.",
            );
            proof {
                assert(t@ =~= spec_init_text(n as int));
            }
            t
        };
        self.layout_manager.show_text_wall(text, None, None)
    }
}

/// Work the session hands back to its caller: everything that needs the
/// transport or the store.
#[derive(Debug)]
pub enum SessionEffect {
    /// Send this display request to the session host.
    Display(DisplayRequest),
    /// Write this review durably under the session's user.
    PersistReview(FlashcardReviewNew),
}

/// The value of one settings entry, accepted only within 1 to 100.
pub open spec fn spec_setting_value(e: JsonValue) -> Option<u64> {
    match crate::events::spec_u64_member(e, "value"@) {
        Some(u) => if 1 <= u <= 100 {
            Some(u)
        } else {
            None
        },
        None => None,
    }
}

/// What a list of settings entries leaves in the two slots, a later entry for
/// the same key overwriting an earlier one.
pub open spec fn spec_fold_settings(items: Seq<JsonValue>) -> (Option<u64>, Option<u64>)
    decreases items.len(),
{
    if items.len() == 0 {
        (None, None)
    } else {
        let prev = spec_fold_settings(items.drop_last());
        let e = items.last();
        match crate::events::spec_str_member(e, "key"@) {
            Some(k) => if k == "max_cards_per_session"@ {
                (spec_setting_value(e), prev.1)
            } else if k == "desired_retention"@ {
                (prev.0, spec_setting_value(e))
            } else {
                prev
            },
            None => prev,
        }
    }
}

/// Read one settings entry into whichever slot its key names; an entry whose
/// value is missing or out of range clears that slot.
pub fn extract_settings(
    new_max_cards_per_session: &mut Option<u64>,
    new_desired_retention: &mut Option<u64>,
    setting: &JsonValue,
)
    ensures
        match crate::events::spec_str_member(*setting, "key"@) {
            Some(k) => if k == "max_cards_per_session"@ {
                *final(new_max_cards_per_session) == spec_setting_value(*setting) && *final(new_desired_retention) == *old(new_desired_retention)
            } else if k == "desired_retention"@ {
                *final(new_desired_retention) == spec_setting_value(*setting) && *final(new_max_cards_per_session) == *old(new_max_cards_per_session)
            } else {
                *final(new_max_cards_per_session) == *old(new_max_cards_per_session) && *final(new_desired_retention) == *old(new_desired_retention)
            },
            None => *final(new_max_cards_per_session) == *old(new_max_cards_per_session) && *final(new_desired_retention) == *old(new_desired_retention),
        },
{
    let key = match setting.get("key") {
        Some(k) => match k.as_str() {
            Some(s) => s,
            None => {
                return ;
            },
        },
        None => {
            return ;
        },
    };
    let value: Option<u64> = match setting.get("value") {
        Some(v) => match v.as_u64() {
            Some(u) => if u > 0 && u <= 100 {
                Some(u)
            } else {
                None
            },
            None => None,
        },
        None => None,
    };
    if crate::text::str_eq(key, "max_cards_per_session") {
        *new_max_cards_per_session = value;
    } else if crate::text::str_eq(key, "desired_retention") {
        *new_desired_retention = value;
    }
}

/// Apply a settings payload: each recognized entry within range lands in the
/// settings, everything else leaves them alone.
pub fn update_user_settings(user_settings: &mut UserSettings, payload: &JsonValue)
    ensures
        ({
            let vals = match payload.spec_as_array() {
                Some(items) => spec_fold_settings(items),
                None => (None, None),
            };
            &&& final(user_settings).spec_max_cards_per_session() == match vals.0 {
                Some(v) => v as u8,
                None => old(user_settings).spec_max_cards_per_session(),
            }
            &&& final(user_settings).spec_desired_retention() == match vals.1 {
                Some(v) => v as u8,
                None => old(user_settings).spec_desired_retention(),
            }
        }),
{
    let mut new_max_cards_per_session: Option<u64> = None;
    let mut new_desired_retention: Option<u64> = None;
    match payload.as_array() {
        Some(items) => {
            let mut i: usize = 0;
            proof {
                assert(items@.take(0).len() == 0);
            }
            while i < items.len()
                invariant
                    0 <= i <= items@.len(),
                    (new_max_cards_per_session, new_desired_retention) == spec_fold_settings(
                        items@.take(i as int),
                    ),
                    new_max_cards_per_session matches Some(u) ==> 1 <= u <= 100,
                    new_desired_retention matches Some(u) ==> 1 <= u <= 100,
                decreases items@.len() - i,
            {
                proof {
                    assert(items@.take(i + 1).drop_last() =~= items@.take(i as int));
                    assert(items@.take(i + 1).last() == items@[i as int]);
                }
                extract_settings(
                    &mut new_max_cards_per_session,
                    &mut new_desired_retention,
                    &items[i],
                );
                i = i + 1;
            }
            proof {
                assert(items@.take(items@.len() as int) =~= items@);
            }
        },
        None => {},
    }
    match new_max_cards_per_session {
        Some(v) => user_settings.set_max_cards_per_session(v as u8),
        None => {},
    }
    match new_desired_retention {
        Some(v) => user_settings.set_desired_retention(v as u8),
        None => {},
    }
}

impl SessionState {
    /// What one final transcript does to the session: before the start
    /// command, only `start` acts; afterwards `reveal` re-shows the current
    /// card, a rating word reviews it and advances, and anything else is
    /// ignored.
    pub open spec fn spec_transcribed(
        pre: SessionState,
        post: SessionState,
        t: Seq<char>,
        now: i64,
        effects: Seq<SessionEffect>,
    ) -> bool {
        if pre.spec_started() {
            if has_substring(t, "reveal"@) {
                &&& post == pre
                &&& match pre.spec_last_card() {
                    Some(c) => effects.len() == 1 && (
                    effects[0] matches SessionEffect::Display(d) && (pre.addressed(d) && (
                    d.layout matches Layout::DoubleTextWall { top_text, bottom_text } && (top_text@
                        == c.front@ && bottom_text@ == c.back@)))),
                    None => effects.len() == 0,
                }
            } else {
                match CardRating::spec_from_transcript(t) {
                    Some(rt) => {
                        &&& post.spec_started()
                        &&& match pre.spec_last_card() {
                            Some(c) => if spec_review_ok(
                                c,
                                pre.settings().spec_desired_retention(),
                                now,
                            ) {
                                effects.len() == 2 && (
                                effects[0] matches SessionEffect::PersistReview(rev) && rev
                                    == spec_review(
                                    c,
                                    rt,
                                    pre.settings().spec_desired_retention(),
                                    now,
                                )) && (effects[1] matches SessionEffect::Display(d)
                                    && Self::spec_advanced(pre, post, d))
                            } else {
                                effects.len() == 1 && (effects[0] matches SessionEffect::Display(d)
                                    && Self::spec_advanced(pre, post, d))
                            },
                            None => effects.len() == 1 && (
                            effects[0] matches SessionEffect::Display(d) && Self::spec_advanced(
                                pre,
                                post,
                                d,
                            )),
                        }
                    },
                    None => post == pre && effects.len() == 0,
                }
            }
        } else {
            if has_substring(t, "start"@) {
                &&& post.spec_started()
                &&& effects.len() == 1 && (effects[0] matches SessionEffect::Display(d)
                    && Self::spec_advanced(pre, post, d))
            } else {
                post == pre && effects.len() == 0
            }
        }
    }

    /// React to one final transcript, trimmed and lowercased first.
    pub fn on_transcription(&mut self, text: &str, now: i64) -> (effects: Vec<SessionEffect>)
        ensures
            Self::spec_transcribed(
                *old(self),
                *final(self),
                lower_of(trim_spec(text@)),
                now,
                effects@,
            ),
    {
        let trimmed = trim_str(text);
        let lowered = to_lowercase_str(trimmed);
        let t = lowered.as_str();
        let mut effects: Vec<SessionEffect> = Vec::new();
        if self.started {
            if crate::text::contains_str(t, "reveal") {
                match self.on_reveal() {
                    Some(d) => effects.push(SessionEffect::Display(d)),
                    None => {},
                }
            } else {
                match CardRating::from_transcript(t) {
                    Some(rating) => {
                        match &self.last_card {
                            Some(card) => {
                                let retention = self.user_settings.desired_retention();
                                match new_review(card, rating, retention, now) {
                                    Ok(rev) => effects.push(SessionEffect::PersistReview(rev)),
                                    Err(_) => {},
                                }
                            },
                            None => {},
                        }
                        let d = self.next_card_or_finish();
                        effects.push(SessionEffect::Display(d));
                    },
                    None => {},
                }
            }
        } else {
            if crate::text::contains_str(t, "start") {
                self.started = true;
                let d = self.next_card_or_finish();
                effects.push(SessionEffect::Display(d));
            }
        }
        effects
    }

    /// Apply a settings payload to this session's settings.
    pub fn apply_settings(&mut self, payload: &JsonValue)
        ensures
            ({
                let vals = match payload.spec_as_array() {
                    Some(items) => spec_fold_settings(items),
                    None => (None, None),
                };
                &&& final(self).settings().spec_max_cards_per_session() == match vals.0 {
                    Some(v) => v as u8,
                    None => old(self).settings().spec_max_cards_per_session(),
                }
                &&& final(self).settings().spec_desired_retention() == match vals.1 {
                    Some(v) => v as u8,
                    None => old(self).settings().spec_desired_retention(),
                }
            }),
            final(self).queue() == old(self).queue(),
            final(self).names() == old(self).names(),
            final(self).spec_started() == old(self).spec_started(),
            final(self).spec_last_card() == old(self).spec_last_card(),
            final(self).spec_user_id() == old(self).spec_user_id(),
            final(self).layout() == old(self).layout(),
            old(self).queue_wf() ==> final(self).queue_wf(),
    {
        update_user_settings(&mut self.user_settings, payload);
    }

    /// Whether the queue must be reloaded after a settings change: only
    /// before the start command, only when cards are queued, and only when
    /// the queue's size no longer matches the session limit.
    pub fn needs_requeue(&self) -> (r: bool)
        ensures
            r == (!self.spec_started() && self.queue().len() != 0 && self.queue().len()
                != self.settings().spec_max_cards_per_session() as int),
    {
        !self.started && !queue_is_empty(&self.cards) && queue_len(&self.cards)
            != self.user_settings.max_cards_per_session() as usize
    }

    /// Replace the queue and the deck names with a fresh listing and announce
    /// the new count; the rest of the session is untouched.
    pub fn apply_requeue(&mut self, deck_rows: Vec<(i32, String)>, cards: Vec<Flashcard>) -> (d:
        DisplayRequest)
        ensures
            final(self).queue() == spec_queue_window(cards@),
            final(self).names() == spec_deck_map(deck_rows@),
            final(self).spec_started() == old(self).spec_started(),
            final(self).spec_last_card() == old(self).spec_last_card(),
            final(self).spec_user_id() == old(self).spec_user_id(),
            final(self).settings() == old(self).settings(),
            final(self).layout() == old(self).layout(),
            final(self).queue_wf(),
            old(self).addressed(d),
            d.layout matches Layout::TextWall { text } && text@ == spec_init_text(
                spec_queue_window(cards@).len() as int,
            ),
    {
        let q = build_card_queue(cards);
        proof {
            lemma_window_bounded(card_queue_view(q));
        }
        self.cards = q;
        self.deck_names = build_deck_names(deck_rows);
        self.on_init()
    }
}

/// While a review is active, a settings change never reaches the queue: the
/// update itself leaves the queue untouched (see `apply_settings`), and a
/// requeue is never called for.
pub proof fn lemma_no_requeue_while_started(s: SessionState)
    requires
        s.spec_started(),
    ensures
        !(!s.spec_started() && s.queue().len() != 0 && s.queue().len()
            != s.settings().spec_max_cards_per_session() as int),
{
}

/// A window over any listing fits the capacity.
proof fn lemma_window_bounded(v: Seq<Flashcard>)
    ensures
        forall|cards: Seq<Flashcard>|
            v == #[trigger] spec_queue_window(cards) ==> v.len() <= QUEUE_CAPACITY,
{
}

} // verus!
