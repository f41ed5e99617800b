//! Verified engine of a multiplayer deck-building card game.
//!
//! The crate owns the authoritative match state, validates and applies
//! player actions, runs the card-ability interpreter, records every
//! mutation as a replayable delta, and redacts those deltas per viewer so
//! that concealed information (opponents' hands, deck order) never leaks.
#![verifier::loop_isolation(false)]

pub mod api;
pub mod cards;
pub mod master;
pub mod smallrng;
pub mod visibility;
