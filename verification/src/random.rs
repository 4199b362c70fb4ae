//! The injectable source of random building candidates and the drawing of
//! a turn's candidate pair.
//!
//! The engine never reaches for process-global randomness: whoever runs a
//! game injects a [`RandomSource`], and tests inject a [`ScriptedSource`]
//! with a fixed sequence to make every run reproducible.

use vstd::prelude::*;

use crate::buildings::Building;

verus! {

/// How often the pair drawing retries before it falls back to a fixed
/// valid pair.
pub const MAX_DRAW_TRIES: usize = 64;

/// An injectable supplier of building candidates.
pub trait RandomSource {
    /// The next candidate building drawn from the source.
    fn next_building(&mut self) -> Building;
}

/// A deterministic source that cycles through a fixed script of buildings;
/// an empty script yields Houses forever.
#[derive(Debug)]
pub struct ScriptedSource {
    script: Vec<Building>,
    next: usize,
}

impl ScriptedSource {
    /// A source that replays `script` from its start, cycling.
    pub fn new(script: Vec<Building>) -> (s: ScriptedSource) {
        ScriptedSource { script, next: 0 }
    }
}

impl RandomSource for ScriptedSource {
    fn next_building(&mut self) -> Building {
        if self.script.len() == 0 {
            return Building::House;
        }
        let idx = self.next % self.script.len();
        let b = self.script[idx];
        self.next = if idx + 1 == self.script.len() {
            0
        } else {
            idx + 1
        };
        b
    }
}

/// A candidate pair is valid when the two variants differ and, on the very
/// first turn, neither is a Workshop.
pub open spec fn spec_valid_pair(turn: u32, building1: Building, building2: Building) -> bool {
    &&& building1 != building2
    &&& turn == 0 ==> building1 != Building::Workshop && building2 != Building::Workshop
}

/// Whether a drawn pair may be offered; see [`spec_valid_pair`].
pub fn correct_proposition(turn: u32, building1: Building, building2: Building) -> (r: bool)
    ensures
        r == spec_valid_pair(turn, building1, building2),
{
    if building1 == building2 {
        return false;
    }
    if turn == 0 && (building1 == Building::Workshop || building2 == Building::Workshop) {
        return false;
    }
    true
}

/// Draws the turn's candidate pair from the injected source, redrawing
/// while the pair is invalid. The retrying is bounded; a source that fails
/// to produce a valid pair within [`MAX_DRAW_TRIES`] draws falls back to
/// the fixed pair House/Forest, which is valid on every turn.
pub fn draw_candidates<R: RandomSource>(turn: u32, source: &mut R) -> (pair: (
    Building,
    Building,
))
    ensures
        spec_valid_pair(turn, pair.0, pair.1),
{
    let mut tries: usize = 0;
    while tries < MAX_DRAW_TRIES
        invariant
            tries <= MAX_DRAW_TRIES,
        decreases MAX_DRAW_TRIES - tries,
    {
        let building1 = source.next_building();
        let building2 = source.next_building();
        if correct_proposition(turn, building1, building2) {
            return (building1, building2);
        }
        tries = tries + 1;
    }
    (Building::House, Building::Forest)
}

} // verus!
