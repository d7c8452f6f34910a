//! Players and their time-bounded club contracts.

use vstd::prelude::*;
use crate::context::SimDate;
use crate::context::SimulationContext;

verus! {

/// A positional role a player can occupy on the field. The match engine's
/// skill aggregation weighs a player's skill once per role they occupy.
#[derive(Clone, Copy, Debug, PartialEq, Eq, Structural)]
pub enum PlayerPositionType {
    Goalkeeper,
    Sweeper,
    DefenderLeft,
    DefenderCenter,
    DefenderRight,
    MidfielderLeft,
    MidfielderCenter,
    MidfielderRight,
    WingbackLeft,
    WingbackRight,
    Striker,
}

/// A player: an identity, one skill value, and the roles they can occupy.
#[derive(Debug)]
pub struct Player {
    pub id: u32,
    pub skill: u16,
    pub positions: Vec<PlayerPositionType>,
}

/// The mathematical content of a player.
#[verifier::ext_equal]
pub ghost struct PlayerView {
    pub id: u32,
    pub skill: u16,
    pub positions: Seq<PlayerPositionType>,
}

impl View for Player {
    type V = PlayerView;

    open spec fn view(&self) -> PlayerView {
        PlayerView { id: self.id, skill: self.skill, positions: self.positions@ }
    }
}

impl Clone for Player {
    /// A clone carries the same identity, skill and roles.
    fn clone(&self) -> (r: Player)
        ensures
            r@ == self@,
    {
        let mut positions: Vec<PlayerPositionType> = Vec::new();
        let n = self.positions.len();
        for i in 0..n
            invariant
                n == self.positions@.len(),
                positions@ == self.positions@.take(i as int),
        {
            positions.push(self.positions[i]);
            proof {
                assert(positions@ =~= self.positions@.take(i + 1));
            }
        }
        proof {
            assert(positions@ =~= self.positions@);
        }
        Player { id: self.id, skill: self.skill, positions }
    }
}

impl Player {
    pub fn new(id: u32, skill: u16, positions: Vec<PlayerPositionType>) -> (r: Player)
        ensures
            r.id == id,
            r.skill == skill,
            r.positions@ == positions@,
    {
        Player { id, skill, positions }
    }

    pub fn positions(&self) -> (r: &Vec<PlayerPositionType>)
        ensures
            r@ == self.positions@,
    {
        &self.positions
    }

    pub fn get_skill(&self) -> (r: u16)
        ensures
            r == self.skill,
    {
        self.skill
    }
}

/// A time-bounded binding of a player to a club. The contract is expired
/// when its expiry day is on or before the current simulated day; expired
/// contracts are excluded from squad selection.
#[derive(Clone, Debug)]
pub struct PlayerClubContract {
    pub player: Player,
    /// The day number on which the contract expires.
    pub expired: u64,
    /// How many simulation steps have advanced this contract's state.
    pub steps_simulated: u64,
}

/// The contract after one simulation step: its per-step bookkeeping
/// advances, everything else is kept.
pub open spec fn player_contract_step(c: PlayerClubContract) -> PlayerClubContract {
    PlayerClubContract {
        steps_simulated: if c.steps_simulated == u64::MAX { 0 } else { (c.steps_simulated + 1) as u64 },
        ..c
    }
}

impl PlayerClubContract {
    pub fn new(player: Player, expired: u64) -> (r: PlayerClubContract)
        ensures
            r.player == player,
            r.expired == expired,
            r.steps_simulated == 0,
    {
        PlayerClubContract { player, expired, steps_simulated: 0 }
    }

    /// Whether the contract has expired at the given date: its expiry day is
    /// on or before the date's day.
    pub fn is_expired(&self, date: SimDate) -> (r: bool)
        ensures
            r == (self.expired <= date.day),
    {
        self.expired <= date.day
    }

    /// Advance this contract's state for one time step.
    pub fn simulate(&mut self, context: &SimulationContext)
        ensures
            *final(self) == player_contract_step(*old(self)),
    {
        self.steps_simulated = self.steps_simulated.wrapping_add(1);
    }
}

/// A club's owned set of player contracts.
#[derive(Clone, Debug)]
pub struct PlayerCollection {
    pub players: Vec<PlayerClubContract>,
}

impl PlayerCollection {
    pub fn new(players: Vec<PlayerClubContract>) -> (r: PlayerCollection)
        ensures
            r.players@ == players@,
    {
        PlayerCollection { players }
    }

    pub fn len(&self) -> (r: usize)
        ensures
            r == self.players@.len(),
    {
        self.players.len()
    }
}

} // verus!
