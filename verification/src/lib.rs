//! Score-state, hitresult and legacy-score logic of osu!standard
//! performance calculation, with the integer parts verified.

use vstd::prelude::*;

pub mod attributes;
pub mod drain;
pub mod gradual;
pub mod hitresult_generator;
pub mod object;
pub mod performance;
pub mod pp;
pub mod legacy_score;
pub mod legacy_score_simulator;
pub mod score_state;

verus! {

/// Marker type for the osu!standard game mode.
pub struct Osu;

} // verus!
