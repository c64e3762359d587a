//! The scheduling engine: per-user review settings, and the computation of a
//! flashcard's next memory state and due time from a rating.
//!
//! The third-party memory model is called, never re-derived: its four
//! candidate next states are taken as a named function of the card's stored
//! memory state, the retention target and the elapsed days. Everything around
//! that call — which candidate a rating selects, how elapsed days and the due
//! time are computed — is proved here.

use vstd::prelude::*;

use crate::errors::DomainError;
use crate::models::{CardRating, Flashcard, FlashcardReviewNew};

verus! {

/// Per-user knobs of the review loop; the setters hold each within 1 to 100.
#[derive(Debug, Clone)]
pub struct UserSettings {
    max_cards_per_session: u8,
    desired_retention: u8,
}

impl UserSettings {
    /// The stored session size.
    pub closed spec fn spec_max_cards_per_session(self) -> u8 {
        self.max_cards_per_session
    }

    /// The stored retention target.
    pub closed spec fn spec_desired_retention(self) -> u8 {
        self.desired_retention
    }

    /// Settings holding exactly the two given values.
    pub fn new(max_cards_per_session: u8, desired_retention: u8) -> (r: UserSettings)
        ensures
            r.spec_max_cards_per_session() == max_cards_per_session,
            r.spec_desired_retention() == desired_retention,
    {
        UserSettings { max_cards_per_session, desired_retention }
    }

    /// How many cards one session may hold.
    pub fn max_cards_per_session(&self) -> (r: u8)
        ensures
            r == self.spec_max_cards_per_session(),
    {
        self.max_cards_per_session
    }

    /// The retention target, in percent.
    pub fn desired_retention(&self) -> (r: u8)
        ensures
            r == self.spec_desired_retention(),
    {
        self.desired_retention
    }

    /// Store a new session size; a value outside 1 to 100 is rejected and
    /// leaves the setting unchanged.
    pub fn set_max_cards_per_session(&mut self, value: u8)
        ensures
            final(self).spec_max_cards_per_session() == if 1 <= value <= 100 {
                value
            } else {
                old(self).spec_max_cards_per_session()
            },
            final(self).spec_desired_retention() == old(self).spec_desired_retention(),
    {
        if value <= 100 && value > 0 {
            self.max_cards_per_session = value;
        }
    }

    /// Store a new retention target; a value outside 1 to 100 is rejected and
    /// leaves the setting unchanged.
    pub fn set_desired_retention(&mut self, value: u8)
        ensures
            final(self).spec_desired_retention() == if 1 <= value <= 100 {
                value
            } else {
                old(self).spec_desired_retention()
            },
            final(self).spec_max_cards_per_session() == old(self).spec_max_cards_per_session(),
    {
        if value <= 100 && value > 0 {
            self.desired_retention = value;
        }
    }
}

/// One candidate outcome of a review: the next memory state, and the next
/// interval in whole minutes.
#[derive(Debug, Clone, Copy)]
pub struct NextState {
    pub interval_minutes: i64,
    pub memory: fsrs::MemoryState,
}

/// The four candidate outcomes of a review, one per rating.
#[derive(Debug, Clone, Copy)]
pub struct NextStates {
    pub again: NextState,
    pub hard: NextState,
    pub good: NextState,
    pub easy: NextState,
}

/// What the memory model answers for a card state, a retention target and an
/// elapsed time: a function of these three arguments alone.
pub uninterp spec fn fsrs_next_states(
    memory: Option<fsrs::MemoryState>,
    desired_retention: u8,
    elapsed_days: u32,
) -> Result<NextStates, ()>;

/// Relies on `fsrs::FSRS::next_states` under the crate's default parameters:
/// the four candidate next states depend on the current memory state, the
/// retention target and the elapsed days alone. Each candidate's fractional
/// interval in days is brought back as whole minutes (days times 1440,
/// truncated), and its memory state is carried through untouched.
#[verifier::external_body]
fn fsrs_call(memory: Option<fsrs::MemoryState>, desired_retention: u8, elapsed_days: u32) -> (r:
    Result<NextStates, ()>)
    ensures
        r == fsrs_next_states(memory, desired_retention, elapsed_days),
{
    let engine = fsrs::FSRS::new(&fsrs::DEFAULT_PARAMETERS).map_err(|_| ())?;
    let mut nums = [fsrs::DEFAULT_PARAMETERS[0]; 3];
    nums[0] = desired_retention as _;
    nums[1] = 100 as _;
    nums[2] = 1440 as _;
    let states = engine.next_states(memory, nums[0] / nums[1], elapsed_days).map_err(|_| ())?;
    let conv = |s: fsrs::ItemState| NextState { interval_minutes: (s.interval * nums[2]) as i64, memory: s.memory };
    Ok(NextStates { again: conv(states.again), hard: conv(states.hard), good: conv(states.good), easy: conv(states.easy) })
}

/// Whole days between a review in the past and `now`; a review that lies in
/// the future counts as zero days ago, and the count saturates at `u32::MAX`.
pub open spec fn spec_elapsed_days(now: i64, last: i64) -> int {
    if now <= last {
        0
    } else if (now - last) / 86400 > u32::MAX {
        u32::MAX as int
    } else {
        (now - last) / 86400
    }
}

/// The memory state handed to the model: none for a never-reviewed card, the
/// stored state otherwise.
pub open spec fn spec_memory_input(card: Flashcard) -> Option<fsrs::MemoryState> {
    if card.last_reviewed is None {
        None
    } else {
        Some(card.last_memory->0)
    }
}

/// The elapsed days handed to the model.
pub open spec fn spec_card_elapsed(card: Flashcard, now: i64) -> int {
    match card.last_reviewed {
        Some(last) => spec_elapsed_days(now, last),
        None => 0,
    }
}

/// A reviewed card must still hold its memory state; a never-reviewed card
/// needs nothing.
pub open spec fn schedulable(card: Flashcard) -> bool {
    card.last_reviewed is Some ==> card.last_memory is Some
}

/// Elapsed whole days since the last review.
fn elapsed_days(now: i64, last: i64) -> (r: u32)
    ensures
        r == spec_elapsed_days(now, last),
{
    if now <= last {
        0
    } else {
        let diff: i128 = now as i128 - last as i128;
        let days: i128 = diff / 86400;
        if days > u32::MAX as i128 {
            u32::MAX
        } else {
            days as u32
        }
    }
}

/// Ask the memory model for the four candidate next states of `card` at
/// `now`: the model's default initialization for a never-reviewed card, and a
/// prediction from the stored memory state and the elapsed days otherwise. A
/// reviewed card without stored parameters is a data-integrity fault.
pub fn schedule_states(card: &Flashcard, desired_retention: u8, now: i64) -> (r: Result<
    NextStates,
    DomainError,
>)
    ensures
        match r {
            Ok(ns) => schedulable(*card) && fsrs_next_states(
                spec_memory_input(*card),
                desired_retention,
                spec_card_elapsed(*card, now) as u32,
            ) == Ok::<NextStates, ()>(ns),
            Err(e) => e == DomainError::ModelStateError && (!schedulable(*card)
                || fsrs_next_states(
                spec_memory_input(*card),
                desired_retention,
                spec_card_elapsed(*card, now) as u32,
            ) is Err),
        },
        r is Ok <==> schedulable(*card) && fsrs_next_states(
            spec_memory_input(*card),
            desired_retention,
            spec_card_elapsed(*card, now) as u32,
        ) is Ok,
{
    match &card.last_reviewed {
        None => match fsrs_call(None, desired_retention, 0) {
            Ok(ns) => Ok(ns),
            Err(()) => Err(DomainError::ModelStateError),
        },
        Some(last) => {
            let memory = match card.memory_state() {
                Ok(m) => m,
                Err(e) => {
                    return Err(e);
                },
            };
            let elapsed = elapsed_days(now, *last);
            match fsrs_call(Some(memory), desired_retention, elapsed) {
                Ok(ns) => Ok(ns),
                Err(()) => Err(DomainError::ModelStateError),
            }
        },
    }
}

/// The candidate that a rating selects.
pub open spec fn spec_pick(ns: NextStates, rating: CardRating) -> NextState {
    match rating {
        CardRating::Easy => ns.easy,
        CardRating::Good => ns.good,
        CardRating::Difficult => ns.hard,
        CardRating::Again => ns.again,
    }
}

/// The due time: `now` plus the interval, clamped into the representable
/// range.
pub open spec fn spec_schedule_at(now: i64, minutes: i64) -> int {
    let t = now + 60 * (minutes as int);
    if t > i64::MAX {
        i64::MAX as int
    } else if t < i64::MIN {
        i64::MIN as int
    } else {
        t
    }
}

/// Whether a review of `card` at `now` can be computed at all.
pub open spec fn spec_review_ok(card: Flashcard, desired_retention: u8, now: i64) -> bool {
    schedulable(card) && fsrs_next_states(
        spec_memory_input(card),
        desired_retention,
        spec_card_elapsed(card, now) as u32,
    ) is Ok
}

/// The review record a rating produces, when one can be computed.
pub open spec fn spec_review(
    card: Flashcard,
    rating: CardRating,
    desired_retention: u8,
    now: i64,
) -> FlashcardReviewNew {
    let pick = spec_pick(
        fsrs_next_states(
            spec_memory_input(card),
            desired_retention,
            spec_card_elapsed(card, now) as u32,
        )->Ok_0,
        rating,
    );
    FlashcardReviewNew {
        reviewed: now,
        scheduled: spec_schedule_at(now, pick.interval_minutes) as i64,
        rating,
        memory: pick.memory,
        flashcard_id: card.id,
    }
}

/// Compute the review record a rating produces for `card` at `now`: the
/// memory model's candidate for that rating, its interval added to `now` as
/// the next due time, and the card's identity carried over. Fails exactly
/// when the card cannot be scheduled (see `schedule_states`).
pub fn new_review(card: &Flashcard, rating: CardRating, desired_retention: u8, now: i64) -> (r:
    Result<FlashcardReviewNew, DomainError>)
    ensures
        r is Ok <==> spec_review_ok(*card, desired_retention, now),
        r matches Ok(rev) ==> rev == spec_review(*card, rating, desired_retention, now),
        r matches Err(e) ==> e == DomainError::ModelStateError,
{
    let states = schedule_states(card, desired_retention, now)?;
    let next = match rating {
        CardRating::Easy => states.easy,
        CardRating::Good => states.good,
        CardRating::Difficult => states.hard,
        CardRating::Again => states.again,
    };
    let t: i128 = now as i128 + 60i128 * (next.interval_minutes as i128);
    let scheduled: i64 = if t > i64::MAX as i128 {
        i64::MAX
    } else if t < i64::MIN as i128 {
        i64::MIN
    } else {
        t as i64
    };
    Ok(
        FlashcardReviewNew {
            reviewed: now,
            scheduled,
            rating,
            memory: next.memory,
            flashcard_id: card.id,
        },
    )
}

} // verus!
