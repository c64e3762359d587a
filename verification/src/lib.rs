//! Core of a spaced-repetition review service for AR glasses: credential
//! verification, protocol event fan-out, review scheduling, transport state,
//! and the live review-session loop.
//!
//! Network and database access stay outside this crate; every function here
//! works on plain values and carries a proved contract.

pub mod app_session;
pub mod auth;
pub mod clock;
pub mod errors;
pub mod event_manager;
pub mod events;
pub mod import;
pub mod json;
pub mod layout_manager;
pub mod models;
pub mod observer;
pub mod paging;
pub mod protocol;
pub mod session;
pub mod srs;
pub mod text;
pub mod webhook;
