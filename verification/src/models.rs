//! Data model of decks, flashcards and review records.
//!
//! Times are seconds since the Unix epoch. The memory-model parameters of a
//! reviewed card are carried as one opaque `fsrs::MemoryState` value: the
//! library never computes with them, it only moves them between the store and
//! the memory model.

use vstd::prelude::*;

use crate::errors::DomainError;
use crate::text::{contains_str, has_substring};

verus! {

/// An opaque identity of one end user; never empty once verified.
#[derive(Debug, Clone, PartialEq, Eq)]
pub struct UserId(pub String);

impl UserId {
    /// The identity wrapping the given string.
    pub fn new(s: String) -> (r: UserId)
        ensures
            r.0 == s,
    {
        UserId(s)
    }

    /// How an identity is written into logs: a long one keeps its first three
    /// and last nine characters around an ellipsis.
    pub open spec fn spec_redacted(s: Seq<char>) -> Seq<char> {
        if s.len() > 12 {
            s.take(3) + "..."@ + s.skip(s.len() - 9)
        } else {
            s
        }
    }

    /// The identity written for logs, long ones shortened.
    pub fn redacted(&self) -> (r: String)
        ensures
            r@ == Self::spec_redacted(self.0@),
    {
        let n = self.0.as_str().unicode_len();
        if n > 12 {
            let head = self.0.as_str().substring_char(0, 3);
            let tail = self.0.as_str().substring_char(n - 9, n);
            let r = String::from_str(head).concat("...").concat(tail);
            proof {
                assert(r@ =~= Self::spec_redacted(self.0@));
            }
            r
        } else {
            self.0.clone()
        }
    }
}

/// A deck of flashcards owned by one user.
#[derive(Debug, Clone)]
pub struct Deck {
    pub id: i32,
    pub name: String,
    pub user_id: String,
}

/// Payload for creating or renaming a deck.
#[derive(Debug, Clone)]
pub struct DeckNew {
    pub name: String,
}

/// The third-party memory model's per-card state (stability and difficulty),
/// opaque to this library.
#[verifier::external_type_specification]
#[verifier::external_body]
pub struct ExMemoryState(fsrs::MemoryState);

/// Relies on the derived `Clone` of `fsrs::MemoryState`, which copies it.
pub assume_specification[ <fsrs::MemoryState as Clone>::clone ](m: &fsrs::MemoryState) -> (r:
    fsrs::MemoryState)
    ensures
        r == *m,
;

/// One outcome of a review, easiest first.
#[derive(Debug, Clone, Copy, PartialEq, Eq, Structural)]
pub enum CardRating {
    Easy,
    Good,
    Difficult,
    Again,
}

/// A flashcard together with the record of its last review, if any.
#[derive(Debug, Clone)]
pub struct Flashcard {
    pub id: i32,
    pub deck_id: i32,
    pub front: String,
    pub back: String,
    pub last_rating: Option<CardRating>,
    pub last_reviewed: Option<i64>,
    pub last_scheduled: Option<i64>,
    pub last_memory: Option<fsrs::MemoryState>,
}

impl Flashcard {
    /// A memory state exists exactly for reviewed cards.
    pub open spec fn well_formed(self) -> bool {
        self.last_memory is Some <==> self.last_reviewed is Some
    }

    /// A card is due when it was never scheduled or its scheduled time has passed.
    pub open spec fn spec_is_due(self, now: i64) -> bool {
        match self.last_scheduled {
            Option::None => true,
            Option::Some(t) => t <= now,
        }
    }

    /// Whether the card is due at `now`.
    pub fn is_due(&self, now: i64) -> (r: bool)
        ensures
            r == self.spec_is_due(now),
    {
        match &self.last_scheduled {
            Option::None => true,
            Option::Some(t) => *t <= now,
        }
    }

    /// An equal copy of the card.
    pub fn duplicate(&self) -> (r: Flashcard)
        ensures
            r == *self,
    {
        Flashcard {
            id: self.id,
            deck_id: self.deck_id,
            front: self.front.clone(),
            back: self.back.clone(),
            last_rating: self.last_rating,
            last_reviewed: self.last_reviewed,
            last_scheduled: self.last_scheduled,
            last_memory: match &self.last_memory {
                Option::Some(m) => Option::Some(m.clone()),
                Option::None => Option::None,
            },
        }
    }

    /// The stored memory state of the card, owed exactly when it is present;
    /// its absence on a reviewed card is a data-integrity fault.
    pub fn memory_state(&self) -> (r: Result<fsrs::MemoryState, DomainError>)
        ensures
            match r {
                Result::Ok(m) => self.last_memory == Option::Some(m),
                Result::Err(e) => e == DomainError::ModelStateError && self.last_memory is None,
            },
    {
        match &self.last_memory {
            Option::Some(m) => Result::Ok(*m),
            Option::None => Result::Err(DomainError::ModelStateError),
        }
    }
}

/// Payload for creating a flashcard.
#[derive(Debug, Clone)]
pub struct FlashcardNew {
    pub deck_id: i32,
    pub front: String,
    pub back: String,
}

/// Payload for a bulk text import into a deck.
#[derive(Debug, Clone)]
pub struct FlashcardImport {
    pub anki_text: String,
    pub front_idx: usize,
    pub back_idx: usize,
}

/// Payload for editing a flashcard's two faces.
#[derive(Debug, Clone)]
pub struct FlashcardUpdate {
    pub front: String,
    pub back: String,
}

/// The fields a completed review writes back to the store.
#[derive(Debug, Clone)]
pub struct FlashcardReviewNew {
    pub reviewed: i64,
    pub scheduled: i64,
    pub rating: CardRating,
    pub memory: fsrs::MemoryState,
    pub flashcard_id: i32,
}

/// Aggregate counts over a user's flashcards.
#[derive(Debug, Clone)]
pub struct FlashcardStats {
    pub new_count: i64,
    pub for_review_count: i64,
    pub learning_count: i64,
}

impl CardRating {
    /// The spoken word of each rating.
    pub open spec fn spec_label(self) -> Seq<char> {
        match self {
            CardRating::Easy => "easy"@,
            CardRating::Good => "good"@,
            CardRating::Difficult => "difficult"@,
            CardRating::Again => "again"@,
        }
    }

    /// The spoken word of each rating.
    pub fn label(&self) -> (r: &'static str)
        ensures
            r@ == self.spec_label(),
    {
        match self {
            CardRating::Easy => "easy",
            CardRating::Good => "good",
            CardRating::Difficult => "difficult",
            CardRating::Again => "again",
        }
    }

    /// The rating spoken somewhere in `t`, the easiest-matching word first.
    pub open spec fn spec_from_transcript(t: Seq<char>) -> Option<CardRating> {
        if has_substring(t, "easy"@) {
            Some(CardRating::Easy)
        } else if has_substring(t, "good"@) {
            Some(CardRating::Good)
        } else if has_substring(t, "difficult"@) {
            Some(CardRating::Difficult)
        } else if has_substring(t, "again"@) {
            Some(CardRating::Again)
        } else {
            None
        }
    }

    /// Recognize a rating word anywhere inside a spoken phrase.
    pub fn from_transcript(text: &str) -> (r: Option<CardRating>)
        ensures
            r == Self::spec_from_transcript(text@),
    {
        if contains_str(text, "easy") {
            Some(CardRating::Easy)
        } else if contains_str(text, "good") {
            Some(CardRating::Good)
        } else if contains_str(text, "difficult") {
            Some(CardRating::Difficult)
        } else if contains_str(text, "again") {
            Some(CardRating::Again)
        } else {
            None
        }
    }
}

} // verus!
