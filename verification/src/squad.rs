//! Tactics and the ephemeral match-ready squad a club derives from its
//! eligible roster.

use vstd::prelude::*;
use crate::player::Player;
use crate::player::PlayerPositionType;
use crate::player::PlayerView;

verus! {

/// A formation a club can line up in.
#[derive(Clone, Copy, Debug, PartialEq, Eq, Structural)]
pub enum Formation {
    FourFourTwo,
    FourThreeThree,
    FiveThreeTwo,
}

/// The tactics a club has selected; a club without selected tactics cannot
/// produce a match squad.
#[derive(Clone, Copy, Debug, PartialEq, Eq, Structural)]
pub struct Tactics {
    pub formation: Formation,
}

impl Tactics {
    pub fn new(formation: Formation) -> (r: Tactics)
        ensures
            r == (Tactics { formation }),
    {
        Tactics { formation }
    }
}

/// One selected lineup member: the position the lineup assigns and the
/// player filling it.
#[derive(Clone, Debug)]
pub struct SquadPlayer {
    pub position: PlayerPositionType,
    pub player: Player,
}

/// The mathematical content of a lineup member.
#[verifier::ext_equal]
pub ghost struct SquadPlayerView {
    pub position: PlayerPositionType,
    pub player: PlayerView,
}

impl View for SquadPlayer {
    type V = SquadPlayerView;

    open spec fn view(&self) -> SquadPlayerView {
        SquadPlayerView { position: self.position, player: self.player@ }
    }
}

/// A match-ready squad: the club it stands for, the club's selected tactics,
/// and the selected lineup. It is built per match and does not outlive it.
#[derive(Clone, Debug)]
pub struct Squad {
    pub club_id: u32,
    pub tactics: Tactics,
    pub main_squad: Vec<SquadPlayer>,
}

/// The mathematical content of a squad.
#[verifier::ext_equal]
pub ghost struct SquadView {
    pub club_id: u32,
    pub tactics: Tactics,
    pub main_squad: Seq<SquadPlayerView>,
}

impl View for Squad {
    type V = SquadView;

    open spec fn view(&self) -> SquadView {
        SquadView {
            club_id: self.club_id,
            tactics: self.tactics,
            main_squad: self.main_squad@.map_values(|sp: SquadPlayer| sp@),
        }
    }
}

} // verus!
