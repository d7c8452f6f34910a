//! Team behaviour: the per-step evaluation of a club's players and staff as
//! a team. An extension surface: the evaluation holds no findings yet.

use vstd::prelude::*;
use crate::player::PlayerCollection;
use crate::staff::StaffCollection;

verus! {

/// The findings of one team-behaviour evaluation.
#[derive(Clone, Debug, PartialEq, Eq, Structural)]
pub struct TeamBehaviourResult {}

impl TeamBehaviourResult {
    pub fn new() -> (r: TeamBehaviourResult)
        ensures
            r == (TeamBehaviourResult {}),
    {
        TeamBehaviourResult {}
    }
}

/// The team-behaviour evaluator.
pub struct TeamBehaviour {}

impl TeamBehaviour {
    /// Evaluate the behaviour of a team for one step. The evaluation is an
    /// extension point and holds no findings yet.
    pub fn simulate(players: &PlayerCollection, staff: &StaffCollection) -> (r: TeamBehaviourResult)
        ensures
            r == (TeamBehaviourResult {}),
    {
        let result = TeamBehaviourResult::new();

        result
    }
}

} // verus!
