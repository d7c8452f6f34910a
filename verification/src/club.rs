//! Clubs: governance board, owned contracts, tactics, the per-step club
//! simulation and the squad builder.

use vstd::prelude::*;
use crate::context::SimDate;
use crate::context::SimulationContext;
use crate::player::Player;
use crate::player::PlayerClubContract;
use crate::player::PlayerPositionType;
use crate::player::player_contract_step;
use crate::random::RandomSource;
use crate::squad::Squad;
use crate::squad::SquadPlayer;
use crate::squad::SquadPlayerView;
use crate::squad::SquadView;
use crate::staff::StaffClubContract;
use crate::staff::staff_contract_step;
use crate::squad::Tactics;

verus! {

/// A club's governance board: the director seats, each an optional staff
/// contract.
#[derive(Clone, Debug)]
pub struct ClubBoard {
    pub director: Option<StaffClubContract>,
    pub sport_director: Option<StaffClubContract>,
}

impl ClubBoard {
    pub fn new() -> (r: ClubBoard)
        ensures
            r.director is None,
            r.sport_director is None,
    {
        ClubBoard { director: None, sport_director: None }
    }

    /// One governance step: run an election for each vacant seat, and on
    /// steps that check contract expiration, evaluate whether an occupied
    /// seat's contract is expiring. The election and expiration reactions
    /// are extension points that intentionally leave the board unchanged.
    pub fn simulate(&mut self, context: &SimulationContext)
        ensures
            *final(self) == *old(self),
    {
        if self.director.is_none() {
            self.run_director_election(context);
        }

        if self.sport_director.is_none() {
            self.run_sport_director_election(context);
        }

        if context.check_contract_expiration() {
            if self.director.is_some() && self.is_director_contract_expiring(context) {
            }

            if self.sport_director.is_some() && self.is_sport_director_contract_expiring(context) {
            }
        }
    }

    /// Whether the director's contract has expired in the given context.
    /// Querying an empty seat is a caller contract violation.
    fn is_director_contract_expiring(&self, context: &SimulationContext) -> (r: bool)
        requires
            self.director is Some,
        ensures
            r == (self.director->Some_0.expired <= context.date.day),
    {
        match &self.director {
            Some(contract) => contract.is_expired(context),
            None => false,
        }
    }

    /// Governance extension point: elect a director for a vacant seat.
    /// No election procedure is defined yet, so the board is left as it is.
    fn run_director_election(&mut self, context: &SimulationContext)
        ensures
            *final(self) == *old(self),
    {
    }

    /// Whether the sport director's contract has expired in the given
    /// context. Querying an empty seat is a caller contract violation.
    fn is_sport_director_contract_expiring(&self, context: &SimulationContext) -> (r: bool)
        requires
            self.sport_director is Some,
        ensures
            r == (self.sport_director->Some_0.expired <= context.date.day),
    {
        match &self.sport_director {
            Some(contract) => contract.is_expired(context),
            None => false,
        }
    }

    /// Governance extension point: elect a sport director for a vacant seat.
    /// No election procedure is defined yet, so the board is left as it is.
    fn run_sport_director_election(&mut self, context: &SimulationContext)
        ensures
            *final(self) == *old(self),
    {
    }
}

/// A club: identity, name, board, owned player and staff contracts, and the
/// optional selected tactics.
#[derive(Clone, Debug)]
pub struct Club {
    pub id: u32,
    pub name: String,
    pub board: ClubBoard,
    pub players: Vec<PlayerClubContract>,
    pub staffs: Vec<StaffClubContract>,
    pub tactics: Option<Tactics>,
}

/// The lineup the squad builder selects on the given day: the players of the
/// contracts that have not expired, in roster order, each assigned the
/// builder's fixed position.
pub open spec fn eligible_lineup(contracts: Seq<PlayerClubContract>, day: u64) -> Seq<SquadPlayerView>
    decreases contracts.len(),
{
    if contracts.len() == 0 {
        Seq::empty()
    } else {
        let rest = eligible_lineup(contracts.drop_last(), day);
        let c = contracts.last();
        if c.expired <= day {
            rest
        } else {
            rest.push(SquadPlayerView { position: PlayerPositionType::Goalkeeper, player: c.player@ })
        }
    }
}

/// The squad the builder derives from a club on the given day. Meaningful
/// only for a club with selected tactics.
pub open spec fn match_squad_of(club: Club, day: u64) -> SquadView {
    SquadView {
        club_id: club.id,
        tactics: club.tactics->Some_0,
        main_squad: eligible_lineup(club.players@, day),
    }
}

impl Club {
    /// A new club draws a fresh identity below one million from the random
    /// source, owns the given contracts, and has neither board members nor
    /// selected tactics yet.
    pub fn new<R: RandomSource>(
        name: String,
        players: Vec<PlayerClubContract>,
        staffs: Vec<StaffClubContract>,
        rng: &mut R,
    ) -> (r: Club)
        ensures
            r.id < 1000000,
            r.name == name,
            r.players@ == players@,
            r.staffs@ == staffs@,
            r.board.director is None,
            r.board.sport_director is None,
            r.tactics is None,
    {
        let id = rng.next_in(0, 999999);
        Club {
            id: id as u32,
            name,
            board: ClubBoard::new(),
            players,
            staffs,
            tactics: None,
        }
    }

    pub fn items_count(&self) -> (r: usize)
        ensures
            r == self.players@.len(),
    {
        self.players.len()
    }

    /// Select the club's tactics; the squad builder needs them.
    pub fn select_tactics(&mut self, tactics: Tactics)
        ensures
            final(self).tactics == Some(tactics),
            final(self).id == old(self).id,
            final(self).name == old(self).name,
            final(self).board == old(self).board,
            final(self).players@ == old(self).players@,
            final(self).staffs@ == old(self).staffs@,
    {
        self.tactics = Some(tactics);
    }

    /// The squad builder: select the lineup eligible on the given date and
    /// attach the club's selected tactics. Answers nothing exactly when the
    /// club has no selected tactics.
    pub fn get_match_squad(&self, date: SimDate) -> (r: Option<Squad>)
        ensures
            r is Some <==> self.tactics is Some,
            r matches Some(s) ==> s@ == match_squad_of(*self, date.day),
    {
        let tactics = match &self.tactics {
            Some(t) => *t,
            None => {
                return None;
            },
        };

        let mut lineup: Vec<SquadPlayer> = Vec::new();
        let n = self.players.len();
        for i in 0..n
            invariant
                n == self.players@.len(),
                lineup@.map_values(|sp: SquadPlayer| sp@) =~= eligible_lineup(self.players@.take(i as int), date.day),
        {
            let contract = &self.players[i];
            if !contract.is_expired(date) {
                lineup.push(SquadPlayer {
                    position: PlayerPositionType::Goalkeeper,
                    player: contract.player.clone(),
                });
            }
            proof {
                assert(self.players@.take(i + 1).drop_last() =~= self.players@.take(i as int));
                assert(self.players@.take(i + 1).last() == self.players@[i as int]);
            }
        }
        proof {
            assert(self.players@.take(n as int) =~= self.players@);
        }
        Some(Squad { club_id: self.id, tactics, main_squad: lineup })
    }

    /// Advance the club for one time step: every player contract, every
    /// staff contract, then the governance board.
    pub fn simulate(&mut self, context: &SimulationContext)
        ensures
            final(self).id == old(self).id,
            final(self).name == old(self).name,
            final(self).board == old(self).board,
            final(self).tactics == old(self).tactics,
            final(self).players@ == old(self).players@.map_values(|c: PlayerClubContract| player_contract_step(c)),
            final(self).staffs@ == old(self).staffs@.map_values(|c: StaffClubContract| staff_contract_step(c)),
    {
        let ghost orig_players = self.players@;
        let ghost orig_staffs = self.staffs@;

        let np = self.players.len();
        for i in 0..np
            invariant
                np == self.players@.len(),
                np == orig_players.len(),
                self.id == old(self).id,
                self.name == old(self).name,
                self.board == old(self).board,
                self.tactics == old(self).tactics,
                self.staffs@ == orig_staffs,
                forall|j: int| 0 <= j < i ==> self.players@[j] == player_contract_step(orig_players[j]),
                forall|j: int| i <= j < np ==> self.players@[j] == orig_players[j],
        {
            self.players[i].simulate(context);
        }

        let ns = self.staffs.len();
        for i in 0..ns
            invariant
                ns == self.staffs@.len(),
                ns == orig_staffs.len(),
                self.id == old(self).id,
                self.name == old(self).name,
                self.board == old(self).board,
                self.tactics == old(self).tactics,
                forall|j: int| 0 <= j < orig_players.len()
                    ==> self.players@[j] == player_contract_step(orig_players[j]),
                self.players@.len() == orig_players.len(),
                forall|j: int| 0 <= j < i ==> self.staffs@[j] == staff_contract_step(orig_staffs[j]),
                forall|j: int| i <= j < ns ==> self.staffs@[j] == orig_staffs[j],
        {
            let _ = self.staffs[i].simulate(context);
        }

        self.board.simulate(context);

        proof {
            assert(self.players@ =~= orig_players.map_values(|c: PlayerClubContract| player_contract_step(c)));
            assert(self.staffs@ =~= orig_staffs.map_values(|c: StaffClubContract| staff_contract_step(c)));
        }
    }
}

/// Every member of the selected lineup comes from a contract that had not
/// expired on the selection day: contracts expiring on or before that day
/// are excluded from squad selection.
pub proof fn lemma_squad_selection_excludes_expired(contracts: Seq<PlayerClubContract>, day: u64)
    ensures
        forall|k: int| 0 <= k < eligible_lineup(contracts, day).len()
            ==> exists|j: int| 0 <= j < contracts.len() && contracts[j].expired > day
                && #[trigger] eligible_lineup(contracts, day)[k].player == contracts[j].player@,
    decreases contracts.len(),
{
    if contracts.len() == 0 {
    } else {
        lemma_squad_selection_excludes_expired(contracts.drop_last(), day);
        let rest = eligible_lineup(contracts.drop_last(), day);
        assert forall|k: int| 0 <= k < eligible_lineup(contracts, day).len()
            implies exists|j: int| 0 <= j < contracts.len() && contracts[j].expired > day
                && #[trigger] eligible_lineup(contracts, day)[k].player == contracts[j].player@ by {
            if k < rest.len() {
                let j = choose|j: int| 0 <= j < contracts.drop_last().len()
                    && contracts.drop_last()[j].expired > day
                    && rest[k].player == contracts.drop_last()[j].player@;
                assert(contracts[j] == contracts.drop_last()[j]);
                assert(eligible_lineup(contracts, day)[k] == rest[k]);
            } else {
                let j = contracts.len() - 1;
                assert(contracts[j].expired > day);
                assert(eligible_lineup(contracts, day)[k].player == contracts[j].player@);
            }
        }
    }
}

/// The squad builder is free of hidden mutation: any two squads it derives
/// from the same club on the same day are identical.
pub proof fn lemma_squad_builder_idempotent(club: Club, date: SimDate, s1: Squad, s2: Squad)
    requires
        s1@ == match_squad_of(club, date.day),
        s2@ == match_squad_of(club, date.day),
    ensures
        s1@ == s2@,
{
}

} // verus!
