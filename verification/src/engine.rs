//! The match engine: aggregates each squad's skills once per match, then
//! resolves a fixed number of randomized battles over the five field zones,
//! producing a final score and a chronological event log.

use vstd::prelude::*;
use vstd::arithmetic::mul::lemma_mul_inequality;
use vstd::arithmetic::mul::lemma_mul_is_distributive_add_other_way;
use vstd::arithmetic::mul::lemma_mul_nonnegative;
use crate::player::PlayerPositionType;
use crate::player::PlayerView;
use crate::random::RandomSource;
use crate::squad::Squad;
use crate::squad::SquadPlayerView;

verus! {

/// How many battles one match resolves; the match ends exactly when they
/// are used up, never earlier.
pub const MATCH_ACTIONS: u16 = 50;

/// The five discrete field zones of the match state machine. The `B` side
/// is the home team's target, the `A` side the away team's target.
#[derive(Clone, Copy, Debug, PartialEq, Eq, Structural)]
pub enum MatchFieldZone {
    AGoal,
    AField,
    Midfield,
    BField,
    BGoal,
}

/// Which squad is attacking.
#[derive(Clone, Copy, Debug, PartialEq, Eq, Structural)]
pub enum Side {
    Home,
    Away,
}

/// The other side.
pub open spec fn opposite(side: Side) -> Side {
    match side {
        Side::Home => Side::Away,
        Side::Away => Side::Home,
    }
}

/// The zone one step closer to the home team's target (the `B` goal); a
/// zone the advancing direction does not cover falls back to midfield.
pub open spec fn up_field_zone(field: MatchFieldZone) -> MatchFieldZone {
    match field {
        MatchFieldZone::AGoal => MatchFieldZone::Midfield,
        MatchFieldZone::AField => MatchFieldZone::Midfield,
        MatchFieldZone::Midfield => MatchFieldZone::BField,
        MatchFieldZone::BField => MatchFieldZone::BGoal,
        MatchFieldZone::BGoal => MatchFieldZone::BField,
    }
}

/// The zone one step closer to the away team's target (the `A` goal); a
/// zone the advancing direction does not cover falls back to midfield.
pub open spec fn down_field_zone(field: MatchFieldZone) -> MatchFieldZone {
    match field {
        MatchFieldZone::BGoal => MatchFieldZone::Midfield,
        MatchFieldZone::BField => MatchFieldZone::Midfield,
        MatchFieldZone::Midfield => MatchFieldZone::AField,
        MatchFieldZone::AField => MatchFieldZone::AGoal,
        MatchFieldZone::AGoal => MatchFieldZone::AField,
    }
}

/// The zone with the two halves of the field exchanged.
pub open spec fn mirror_zone(field: MatchFieldZone) -> MatchFieldZone {
    match field {
        MatchFieldZone::AGoal => MatchFieldZone::BGoal,
        MatchFieldZone::AField => MatchFieldZone::BField,
        MatchFieldZone::Midfield => MatchFieldZone::Midfield,
        MatchFieldZone::BField => MatchFieldZone::AField,
        MatchFieldZone::BGoal => MatchFieldZone::AGoal,
    }
}

/// The two advancing tables are mirrors of each other: advancing toward one
/// goal is advancing toward the other on the mirrored field.
pub proof fn lemma_field_tables_mirror(field: MatchFieldZone)
    ensures
        down_field_zone(field) == mirror_zone(up_field_zone(mirror_zone(field))),
        up_field_zone(field) == mirror_zone(down_field_zone(mirror_zone(field))),
{
}

/// The four aggregate skills a match team is summarized by.
#[derive(Clone, Copy, Debug, PartialEq, Eq, Structural)]
pub enum SkillKind {
    Goalkeeping,
    Defending,
    Midfield,
    Attacking,
}

/// The weighting table of the skill aggregation, in half skill points per
/// occupied role: a goalkeeper counts fully toward goalkeeping; a sweeper or
/// defender fully toward defending; a midfielder half toward defending,
/// fully toward midfield and half toward attacking; a wingback or striker
/// fully toward attacking.
pub open spec fn position_weight(kind: SkillKind, position: PlayerPositionType) -> int {
    match kind {
        SkillKind::Goalkeeping => match position {
            PlayerPositionType::Goalkeeper => 2,
            _ => 0,
        },
        SkillKind::Defending => match position {
            PlayerPositionType::Sweeper
            | PlayerPositionType::DefenderLeft
            | PlayerPositionType::DefenderCenter
            | PlayerPositionType::DefenderRight => 2,
            PlayerPositionType::MidfielderLeft
            | PlayerPositionType::MidfielderCenter
            | PlayerPositionType::MidfielderRight => 1,
            _ => 0,
        },
        SkillKind::Midfield => match position {
            PlayerPositionType::MidfielderLeft
            | PlayerPositionType::MidfielderCenter
            | PlayerPositionType::MidfielderRight => 2,
            _ => 0,
        },
        SkillKind::Attacking => match position {
            PlayerPositionType::MidfielderLeft
            | PlayerPositionType::MidfielderCenter
            | PlayerPositionType::MidfielderRight => 1,
            PlayerPositionType::WingbackLeft
            | PlayerPositionType::WingbackRight
            | PlayerPositionType::Striker => 2,
            _ => 0,
        },
    }
}

/// The total weight, in half points per skill point, the given roles add to
/// one skill kind.
pub open spec fn positions_weight(kind: SkillKind, positions: Seq<PlayerPositionType>) -> int
    decreases positions.len(),
{
    if positions.len() == 0 {
        0
    } else {
        positions_weight(kind, positions.drop_last()) + position_weight(kind, positions.last())
    }
}

/// What one player adds to a team's aggregate of one skill kind, in half
/// skill points.
pub open spec fn player_contrib(kind: SkillKind, player: PlayerView) -> int {
    positions_weight(kind, player.positions) * player.skill
}

/// A team's aggregate of one skill kind, in half skill points: the sum of
/// the lineup's contributions.
pub open spec fn team_skill(kind: SkillKind, lineup: Seq<SquadPlayerView>) -> int
    decreases lineup.len(),
{
    if lineup.len() == 0 {
        0
    } else {
        team_skill(kind, lineup.drop_last()) + player_contrib(kind, lineup.last().player)
    }
}

/// Role weights are non-negative, so every prefix weight is bounded by the
/// whole.
pub proof fn lemma_positions_weight_bounds(kind: SkillKind, positions: Seq<PlayerPositionType>, j: int)
    requires
        0 <= j <= positions.len(),
    ensures
        0 <= positions_weight(kind, positions.take(j)) <= positions_weight(kind, positions),
    decreases positions.len(),
{
    if positions.len() == 0 {
        assert(positions.take(j) =~= positions);
    } else if j == positions.len() {
        assert(positions.take(j) =~= positions);
        lemma_positions_weight_bounds(kind, positions.drop_last(), positions.len() - 1);
        assert(positions.drop_last().take(positions.len() - 1) =~= positions.drop_last());
    } else {
        assert(positions.take(j) =~= positions.drop_last().take(j));
        lemma_positions_weight_bounds(kind, positions.drop_last(), j);
    }
}

/// Player contributions are non-negative.
pub proof fn lemma_player_contrib_nonneg(kind: SkillKind, player: PlayerView)
    ensures
        player_contrib(kind, player) >= 0,
{
    lemma_positions_weight_bounds(kind, player.positions, player.positions.len() as int);
    lemma_mul_nonnegative(positions_weight(kind, player.positions), player.skill as int);
}

/// Contributions are non-negative, so every prefix aggregate is bounded by
/// the whole team's.
pub proof fn lemma_team_skill_bounds(kind: SkillKind, lineup: Seq<SquadPlayerView>, i: int)
    requires
        0 <= i <= lineup.len(),
    ensures
        0 <= team_skill(kind, lineup.take(i)) <= team_skill(kind, lineup),
    decreases lineup.len(),
{
    if lineup.len() == 0 {
        assert(lineup.take(i) =~= lineup);
    } else if i == lineup.len() {
        assert(lineup.take(i) =~= lineup);
        lemma_team_skill_bounds(kind, lineup.drop_last(), lineup.len() - 1);
        assert(lineup.drop_last().take(lineup.len() - 1) =~= lineup.drop_last());
        lemma_player_contrib_nonneg(kind, lineup.last().player);
    } else {
        assert(lineup.take(i) =~= lineup.drop_last().take(i));
        lemma_team_skill_bounds(kind, lineup.drop_last(), i);
        lemma_player_contrib_nonneg(kind, lineup.last().player);
    }
}

/// Two lineups of equal content aggregate to equal skills: the aggregates
/// are deterministic functions of the lineup and the weighting table.
pub proof fn lemma_skill_aggregation_deterministic(
    kind: SkillKind,
    a: Seq<SquadPlayerView>,
    b: Seq<SquadPlayerView>,
)
    requires
        a =~~= b,
    ensures
        team_skill(kind, a) == team_skill(kind, b),
{
    assert(a =~~= b);
    assert(a == b);
}

/// Accumulating one more role distributes over the skill multiplication.
proof fn lemma_weight_step(kind: SkillKind, positions: Seq<PlayerPositionType>, j: int, skill: int)
    requires
        0 <= j < positions.len(),
    ensures
        positions_weight(kind, positions.take(j + 1)) * skill
            == positions_weight(kind, positions.take(j)) * skill
                + position_weight(kind, positions[j]) * skill,
{
    assert(positions.take(j + 1).drop_last() =~= positions.take(j));
    assert(positions.take(j + 1).last() == positions[j]);
    lemma_mul_is_distributive_add_other_way(
        skill,
        positions_weight(kind, positions.take(j)),
        position_weight(kind, positions[j]),
    );
}

/// While a player is accumulated role by role, the partial aggregate never
/// passes the team's total.
proof fn lemma_partial_contrib_bound(
    kind: SkillKind,
    lineup: Seq<SquadPlayerView>,
    i: int,
    j: int,
)
    requires
        0 <= i < lineup.len(),
        0 <= j <= lineup[i].player.positions.len(),
    ensures
        team_skill(kind, lineup.take(i))
            + positions_weight(kind, lineup[i].player.positions.take(j)) * lineup[i].player.skill
            <= team_skill(kind, lineup.take(i + 1)),
        team_skill(kind, lineup.take(i))
            + positions_weight(kind, lineup[i].player.positions.take(j)) * lineup[i].player.skill
            >= 0,
{
    let positions = lineup[i].player.positions;
    let skill = lineup[i].player.skill as int;
    lemma_positions_weight_bounds(kind, positions, j);
    lemma_mul_inequality(positions_weight(kind, positions.take(j)), positions_weight(kind, positions), skill);
    lemma_mul_nonnegative(positions_weight(kind, positions.take(j)), skill);
    assert(lineup.take(i + 1).drop_last() =~= lineup.take(i));
    assert(lineup.take(i + 1).last() == lineup[i]);
    lemma_team_skill_bounds(kind, lineup.take(i), i);
    assert(lineup.take(i).take(i) =~= lineup.take(i));
}

/// The per-match aggregate the engine builds once per side: the four skill
/// totals, in half skill points.
#[derive(Clone, Copy, Debug, PartialEq, Eq, Structural)]
pub struct MatchTeam {
    pub id: u32,
    pub goalkeeping_skill: u64,
    pub defender_skill: u64,
    pub midfielder_skill: u64,
    pub striker_skill: u64,
}

impl MatchTeam {
    pub fn new(id: u32) -> (r: MatchTeam)
        ensures
            r.id == id,
            r.goalkeeping_skill == 0,
            r.defender_skill == 0,
            r.midfielder_skill == 0,
            r.striker_skill == 0,
    {
        MatchTeam {
            id,
            goalkeeping_skill: 0,
            defender_skill: 0,
            midfielder_skill: 0,
            striker_skill: 0,
        }
    }
}

/// The attacking side's skill relevant in a zone: its attacking skill on
/// the field, its defending skill in a goal zone (a side under pressure at a
/// goal), its midfield skill at midfield.
pub open spec fn attacking_skill_in_zone(team: MatchTeam, zone: MatchFieldZone) -> u64 {
    match zone {
        MatchFieldZone::AField | MatchFieldZone::BField => team.striker_skill,
        MatchFieldZone::AGoal | MatchFieldZone::BGoal => team.defender_skill,
        MatchFieldZone::Midfield => team.midfielder_skill,
    }
}

/// The defending side's skill relevant in a zone.
pub open spec fn defending_skill_in_zone(team: MatchTeam, zone: MatchFieldZone) -> u64 {
    match zone {
        MatchFieldZone::AField | MatchFieldZone::BField => team.defender_skill,
        MatchFieldZone::AGoal | MatchFieldZone::BGoal => team.striker_skill,
        MatchFieldZone::Midfield => team.midfielder_skill,
    }
}

/// The score of a match: two non-negative goal counts.
#[derive(Clone, Copy, Debug, PartialEq, Eq, Structural)]
pub struct Score {
    pub home: u32,
    pub away: u32,
}

/// One chronological match event: a played appearance (player, started,
/// minutes), a goal, an assist or an injury.
#[derive(Clone, Copy, Debug, PartialEq, Eq, Structural)]
pub enum MatchEvent {
    MatchPlayed(u32, bool, u8),
    Goal(u32),
    Assist(u32),
    Injury(u32),
}

/// A substitution record. The engine declares the log but does not fill it
/// yet; populating it is a future extension.
#[derive(Clone, Copy, Debug, PartialEq, Eq, Structural)]
pub struct PlayerChanges {}

/// A resolved match: the final score, the chronological events, and the
/// substitution log.
#[derive(Clone, Debug)]
pub struct FootballMatchDetails {
    pub score: Score,
    pub events: Vec<MatchEvent>,
    pub player_changes: Vec<PlayerChanges>,
}

/// The engine-internal match state one battle transforms: the ball's zone,
/// the attacking side, and the running score.
#[derive(Clone, Copy, Debug, PartialEq, Eq, Structural)]
pub struct MatchState {
    pub zone: MatchFieldZone,
    pub attacking_side: Side,
    pub home_score: u32,
    pub away_score: u32,
}

/// The scorer a backward offset reaches: one-based from the end of the
/// lineup, so an offset of one names the last member; an offset of zero or
/// one past the lineup's length reaches nobody.
pub open spec fn scorer_for_offset(lineup: Seq<SquadPlayerView>, offset: u64) -> Option<u32> {
    if 1 <= offset <= lineup.len() {
        Some(lineup[lineup.len() - offset].player.id)
    } else {
        None
    }
}

/// Whether some lineup member of the squad carries the given identity.
pub open spec fn in_lineup(lineup: Seq<SquadPlayerView>, id: u32) -> bool {
    exists|k: int| 0 <= k < lineup.len() && #[trigger] lineup[k].player.id == id
}

/// The team attacking in the given state.
pub open spec fn attacking_team_of(state: MatchState, home_team: MatchTeam, away_team: MatchTeam) -> MatchTeam {
    if state.attacking_side == Side::Home {
        home_team
    } else {
        away_team
    }
}

/// The team defending in the given state.
pub open spec fn defending_team_of(state: MatchState, home_team: MatchTeam, away_team: MatchTeam) -> MatchTeam {
    if state.attacking_side == Side::Home {
        away_team
    } else {
        home_team
    }
}

/// Whether a battle the attacker won stands in the zone of the goal it
/// attacks: a home attacker at the home team's target, or an away attacker
/// at the away team's target. Exactly these battles score.
pub open spec fn goal_scored(state: MatchState, attacker_won: bool) -> bool {
    attacker_won && ((state.attacking_side == Side::Home && state.zone == MatchFieldZone::BGoal)
        || (state.attacking_side == Side::Away && state.zone == MatchFieldZone::AGoal))
}

/// The match state one battle outcome produces. A goal increments the
/// attacker's score and returns the ball to midfield with the sides
/// swapped; any other attacking win advances the ball one zone toward the
/// attacked goal; a defending win returns the ball to midfield and swaps
/// the sides without any score change.
pub open spec fn action_transition(state: MatchState, attacker_won: bool) -> MatchState {
    if !attacker_won {
        MatchState {
            zone: MatchFieldZone::Midfield,
            attacking_side: opposite(state.attacking_side),
            ..state
        }
    } else if state.attacking_side == Side::Home {
        if state.zone == MatchFieldZone::BGoal {
            MatchState {
                zone: MatchFieldZone::Midfield,
                attacking_side: Side::Away,
                home_score: (state.home_score + 1) as u32,
                ..state
            }
        } else {
            MatchState { zone: up_field_zone(state.zone), ..state }
        }
    } else {
        if state.zone == MatchFieldZone::AGoal {
            MatchState {
                zone: MatchFieldZone::Midfield,
                attacking_side: Side::Home,
                away_score: (state.away_score + 1) as u32,
                ..state
            }
        } else {
            MatchState { zone: down_field_zone(state.zone), ..state }
        }
    }
}

/// The state every match starts from: the ball at midfield, the home side
/// attacking, no goals.
pub open spec fn initial_match_state() -> MatchState {
    MatchState {
        zone: MatchFieldZone::Midfield,
        attacking_side: Side::Home,
        home_score: 0,
        away_score: 0,
    }
}

/// The state a sequence of battle outcomes drives a match through, one
/// transition per battle.
pub open spec fn run_transitions(state: MatchState, outcomes: Seq<bool>) -> MatchState
    decreases outcomes.len(),
{
    if outcomes.len() == 0 {
        state
    } else {
        action_transition(run_transitions(state, outcomes.drop_last()), outcomes.last())
    }
}

/// A score changes exactly on a goal: when and only when the attacker wins
/// the battle in the zone of the goal it attacks, the attacker's count grows
/// by one and the other count is kept; the ball then returns to midfield and
/// the sides swap. The same reset and swap, with no score change, follows
/// every battle the defender wins.
pub proof fn lemma_score_changes_only_on_goal(state: MatchState, attacker_won: bool)
    requires
        state.home_score < u32::MAX,
        state.away_score < u32::MAX,
    ensures
        goal_scored(state, attacker_won) <==> action_transition(state, attacker_won).home_score
            + action_transition(state, attacker_won).away_score
            == state.home_score + state.away_score + 1,
        !goal_scored(state, attacker_won) ==> action_transition(state, attacker_won).home_score
            == state.home_score && action_transition(state, attacker_won).away_score == state.away_score,
        goal_scored(state, attacker_won) ==> action_transition(state, attacker_won).zone
            == MatchFieldZone::Midfield && action_transition(state, attacker_won).attacking_side
            == opposite(state.attacking_side),
        !attacker_won ==> action_transition(state, attacker_won) == (MatchState {
            zone: MatchFieldZone::Midfield,
            attacking_side: opposite(state.attacking_side),
            ..state
        }),
{
}

/// An attacker that keeps winning battles walks the ball toward its target
/// without regression: from midfield the home side reaches its target in two
/// battles and scores on the third, which returns the ball to midfield with
/// the away side attacking.
pub proof fn lemma_dominant_attacker_scores(state: MatchState)
    requires
        state.zone == MatchFieldZone::Midfield,
        state.attacking_side == Side::Home,
        state.home_score < u32::MAX,
    ensures
        action_transition(state, true).zone == MatchFieldZone::BField,
        action_transition(action_transition(state, true), true).zone == MatchFieldZone::BGoal,
        ({
            let scored = action_transition(action_transition(action_transition(state, true), true), true);
            &&& scored.home_score == state.home_score + 1
            &&& scored.away_score == state.away_score
            &&& scored.zone == MatchFieldZone::Midfield
            &&& scored.attacking_side == Side::Away
        }),
{
}

/// Whether a lineup carries no battle-relevant skill: its defending,
/// midfield and attacking aggregates are all zero. An empty lineup carries
/// none.
pub open spec fn no_battle_skill(lineup: Seq<SquadPlayerView>) -> bool {
    &&& team_skill(SkillKind::Defending, lineup) == 0
    &&& team_skill(SkillKind::Midfield, lineup) == 0
    &&& team_skill(SkillKind::Attacking, lineup) == 0
}

/// The match engine for one fixture.
pub struct FootballEngine {
    pub home_squad: Squad,
    pub away_squad: Squad,
}

impl FootballEngine {
    pub fn new(home_squad: Squad, away_squad: Squad) -> (r: FootballEngine)
        ensures
            r.home_squad@ == home_squad@,
            r.away_squad@ == away_squad@,
    {
        FootballEngine { home_squad, away_squad }
    }

    /// The zone one step closer to the home team's target.
    pub fn up_field(field: &MatchFieldZone) -> (r: MatchFieldZone)
        ensures
            r == up_field_zone(*field),
    {
        match field {
            MatchFieldZone::AGoal => MatchFieldZone::Midfield,
            MatchFieldZone::AField => MatchFieldZone::Midfield,
            MatchFieldZone::Midfield => MatchFieldZone::BField,
            MatchFieldZone::BField => MatchFieldZone::BGoal,
            MatchFieldZone::BGoal => MatchFieldZone::BField,
        }
    }

    /// The zone one step closer to the away team's target.
    pub fn down_field(field: &MatchFieldZone) -> (r: MatchFieldZone)
        ensures
            r == down_field_zone(*field),
    {
        match field {
            MatchFieldZone::BGoal => MatchFieldZone::Midfield,
            MatchFieldZone::BField => MatchFieldZone::Midfield,
            MatchFieldZone::Midfield => MatchFieldZone::AField,
            MatchFieldZone::AField => MatchFieldZone::AGoal,
            MatchFieldZone::AGoal => MatchFieldZone::AField,
        }
    }

    /// Aggregate one squad into its match team: for every lineup player and
    /// every role they occupy, accumulate the player's skill into the four
    /// totals per the weighting table.
    #[verifier::rlimit(30)]
    pub fn get_team_for_squad(squad: &Squad) -> (team: MatchTeam)
        requires
            team_skill(SkillKind::Goalkeeping, squad@.main_squad) <= u64::MAX,
            team_skill(SkillKind::Defending, squad@.main_squad) <= u64::MAX,
            team_skill(SkillKind::Midfield, squad@.main_squad) <= u64::MAX,
            team_skill(SkillKind::Attacking, squad@.main_squad) <= u64::MAX,
        ensures
            team.id == squad.club_id,
            team.goalkeeping_skill == team_skill(SkillKind::Goalkeeping, squad@.main_squad),
            team.defender_skill == team_skill(SkillKind::Defending, squad@.main_squad),
            team.midfielder_skill == team_skill(SkillKind::Midfield, squad@.main_squad),
            team.striker_skill == team_skill(SkillKind::Attacking, squad@.main_squad),
    {
        let ghost lineup = squad@.main_squad;
        let mut team = MatchTeam::new(squad.club_id);
        let n = squad.main_squad.len();
        for i in 0..n
            invariant
                n == squad.main_squad@.len(),
                lineup == squad@.main_squad,
                lineup.len() == n,
                team_skill(SkillKind::Goalkeeping, lineup) <= u64::MAX,
                team_skill(SkillKind::Defending, lineup) <= u64::MAX,
                team_skill(SkillKind::Midfield, lineup) <= u64::MAX,
                team_skill(SkillKind::Attacking, lineup) <= u64::MAX,
                team.id == squad.club_id,
                team.goalkeeping_skill == team_skill(SkillKind::Goalkeeping, lineup.take(i as int)),
                team.defender_skill == team_skill(SkillKind::Defending, lineup.take(i as int)),
                team.midfielder_skill == team_skill(SkillKind::Midfield, lineup.take(i as int)),
                team.striker_skill == team_skill(SkillKind::Attacking, lineup.take(i as int)),
        {
            let player = &squad.main_squad[i].player;
            let skill = player.get_skill() as u64;
            let ghost positions = lineup[i as int].player.positions;
            proof {
                assert(lineup[i as int] == squad.main_squad@[i as int]@);
                assert(positions == player.positions@);
                assert(skill == lineup[i as int].player.skill);
            }
            let m = player.positions.len();
            for j in 0..m
                invariant
                    n == squad.main_squad@.len(),
                    lineup == squad@.main_squad,
                    lineup.len() == n,
                    i < n,
                    m == positions.len(),
                    positions == squad.main_squad@[i as int].player.positions@,
                    positions == lineup[i as int].player.positions,
                    skill == lineup[i as int].player.skill,
                    skill <= u16::MAX,
                    team_skill(SkillKind::Goalkeeping, lineup) <= u64::MAX,
                    team_skill(SkillKind::Defending, lineup) <= u64::MAX,
                    team_skill(SkillKind::Midfield, lineup) <= u64::MAX,
                    team_skill(SkillKind::Attacking, lineup) <= u64::MAX,
                    team.id == squad.club_id,
                    team.goalkeeping_skill == team_skill(SkillKind::Goalkeeping, lineup.take(i as int))
                        + positions_weight(SkillKind::Goalkeeping, positions.take(j as int)) * skill,
                    team.defender_skill == team_skill(SkillKind::Defending, lineup.take(i as int))
                        + positions_weight(SkillKind::Defending, positions.take(j as int)) * skill,
                    team.midfielder_skill == team_skill(SkillKind::Midfield, lineup.take(i as int))
                        + positions_weight(SkillKind::Midfield, positions.take(j as int)) * skill,
                    team.striker_skill == team_skill(SkillKind::Attacking, lineup.take(i as int))
                        + positions_weight(SkillKind::Attacking, positions.take(j as int)) * skill,
            {
                proof {
                    assert(positions.take(j + 1).drop_last() =~= positions.take(j as int));
                    assert(positions.take(j + 1).last() == positions[j as int]);
                    lemma_partial_contrib_bound(SkillKind::Goalkeeping, lineup, i as int, j + 1);
                    lemma_partial_contrib_bound(SkillKind::Defending, lineup, i as int, j + 1);
                    lemma_partial_contrib_bound(SkillKind::Midfield, lineup, i as int, j + 1);
                    lemma_partial_contrib_bound(SkillKind::Attacking, lineup, i as int, j + 1);
                    lemma_team_skill_bounds(SkillKind::Goalkeeping, lineup, i + 1);
                    lemma_team_skill_bounds(SkillKind::Defending, lineup, i + 1);
                    lemma_team_skill_bounds(SkillKind::Midfield, lineup, i + 1);
                    lemma_team_skill_bounds(SkillKind::Attacking, lineup, i + 1);
                    lemma_weight_step(SkillKind::Goalkeeping, positions, j as int, skill as int);
                    lemma_weight_step(SkillKind::Defending, positions, j as int, skill as int);
                    lemma_weight_step(SkillKind::Midfield, positions, j as int, skill as int);
                    lemma_weight_step(SkillKind::Attacking, positions, j as int, skill as int);
                }
                let pos = squad.main_squad[i].player.positions[j];
                proof {
                    assert(pos == positions[j as int]);
                }
                match pos {
                    PlayerPositionType::Goalkeeper => {
                        proof {
                            assert(team.goalkeeping_skill + 2 * skill
                                == team_skill(SkillKind::Goalkeeping, lineup.take(i as int))
                                    + positions_weight(SkillKind::Goalkeeping, positions.take(j + 1)) * skill);
                        }
                        team.goalkeeping_skill = team.goalkeeping_skill + 2 * skill;
                    },
                    PlayerPositionType::Sweeper
                    | PlayerPositionType::DefenderLeft
                    | PlayerPositionType::DefenderCenter
                    | PlayerPositionType::DefenderRight => {
                        proof {
                            assert(team.defender_skill + 2 * skill
                                == team_skill(SkillKind::Defending, lineup.take(i as int))
                                    + positions_weight(SkillKind::Defending, positions.take(j + 1)) * skill);
                        }
                        team.defender_skill = team.defender_skill + 2 * skill;
                    },
                    PlayerPositionType::MidfielderLeft
                    | PlayerPositionType::MidfielderCenter
                    | PlayerPositionType::MidfielderRight => {
                        proof {
                            assert(position_weight(SkillKind::Defending, positions[j as int]) * skill
                                == skill) by {
                                vstd::arithmetic::mul::lemma_mul_basics(skill as int);
                            }
                            assert(team.defender_skill + skill
                                == team_skill(SkillKind::Defending, lineup.take(i as int))
                                    + positions_weight(SkillKind::Defending, positions.take(j + 1)) * skill);
                            assert(team.midfielder_skill + 2 * skill
                                == team_skill(SkillKind::Midfield, lineup.take(i as int))
                                    + positions_weight(SkillKind::Midfield, positions.take(j + 1)) * skill);
                            assert(position_weight(SkillKind::Attacking, positions[j as int]) * skill
                                == skill) by {
                                vstd::arithmetic::mul::lemma_mul_basics(skill as int);
                            }
                            assert(team.striker_skill + skill
                                == team_skill(SkillKind::Attacking, lineup.take(i as int))
                                    + positions_weight(SkillKind::Attacking, positions.take(j + 1)) * skill);
                        }
                        team.defender_skill = team.defender_skill + skill;
                        team.midfielder_skill = team.midfielder_skill + 2 * skill;
                        team.striker_skill = team.striker_skill + skill;
                    },
                    PlayerPositionType::WingbackLeft
                    | PlayerPositionType::WingbackRight
                    | PlayerPositionType::Striker => {
                        proof {
                            assert(team.striker_skill + 2 * skill
                                == team_skill(SkillKind::Attacking, lineup.take(i as int))
                                    + positions_weight(SkillKind::Attacking, positions.take(j + 1)) * skill);
                        }
                        team.striker_skill = team.striker_skill + 2 * skill;
                    },
                }
            }
            proof {
                assert(positions.take(m as int) =~= positions);
                assert(lineup.take(i + 1).drop_last() =~= lineup.take(i as int));
                assert(lineup.take(i + 1).last() == lineup[i as int]);
            }
        }
        proof {
            assert(lineup.take(n as int) =~= lineup);
        }
        team
    }

    /// Resolve one battle: each side draws a sample bounded by its relevant
    /// skill in the current zone, and the attacker wins exactly when its
    /// sample is strictly larger — equal samples count as a defending win.
    /// The winner flag comes with the two samples, so the decision rule and
    /// the zone's skill pairing stand in the contract; an attacker with no
    /// relevant skill can draw nothing above zero and so cannot win.
    pub fn get_battle_winner<R: RandomSource>(
        attacking_team: &MatchTeam,
        defending_team: &MatchTeam,
        current_zone: &MatchFieldZone,
        rng: &mut R,
    ) -> (battle: (bool, u64, u64))
        ensures
            battle.0 == (battle.1 > battle.2),
            battle.1 <= attacking_skill_in_zone(*attacking_team, *current_zone),
            battle.2 <= defending_skill_in_zone(*defending_team, *current_zone),
    {
        let attacking_team_skill: u64;
        let defending_team_skill: u64;

        match current_zone {
            MatchFieldZone::AField | MatchFieldZone::BField => {
                attacking_team_skill = attacking_team.striker_skill;
                defending_team_skill = defending_team.defender_skill;
            },
            MatchFieldZone::AGoal | MatchFieldZone::BGoal => {
                attacking_team_skill = attacking_team.defender_skill;
                defending_team_skill = defending_team.striker_skill;
            },
            MatchFieldZone::Midfield => {
                attacking_team_skill = attacking_team.midfielder_skill;
                defending_team_skill = defending_team.midfielder_skill;
            },
        }

        let random_a = rng.next_in(0, attacking_team_skill);
        let random_d = rng.next_in(0, defending_team_skill);

        (random_a > random_d, random_a, random_d)
    }

    /// Pick the scorer credited for a goal: draw an offset below five and
    /// index backward from the end of the lineup by it; an offset that
    /// reaches past the lineup (or a zero offset, which reaches past its
    /// front end) credits nobody.
    pub fn goalscorer<R: RandomSource>(squad: &Squad, rng: &mut R) -> (r: Option<u32>)
        ensures
            exists|offset: u64| offset <= 4 && r == #[trigger] scorer_for_offset(squad@.main_squad, offset),
            r matches Some(id) ==> in_lineup(squad@.main_squad, id),
            squad.main_squad@.len() == 0 ==> r is None,
    {
        let random_player = rng.next_in(0, 4);
        let r = Self::scorer_at_offset(squad, random_player);
        proof {
            assert(r == scorer_for_offset(squad@.main_squad, random_player));
        }
        r
    }

    /// The scorer the given backward offset reaches in the lineup.
    pub fn scorer_at_offset(squad: &Squad, offset: u64) -> (r: Option<u32>)
        ensures
            r == scorer_for_offset(squad@.main_squad, offset),
            r matches Some(id) ==> in_lineup(squad@.main_squad, id),
    {
        let len = squad.main_squad.len();

        if offset == 0 || offset > len as u64 {
            None
        } else {
            let idx = len - (offset as usize);
            let id = squad.main_squad[idx].player.id;
            proof {
                assert(squad@.main_squad[idx as int].player.id == id);
            }
            Some(id)
        }
    }

    /// Resolve one battle and apply its outcome to the match state: the new
    /// state is exactly the transition of the old one under the returned
    /// battle outcome, whose samples are bounded by the sides' relevant
    /// skills in the old zone.
    ///
    /// A goal event may be appended only on a goal. The goal's scorer is
    /// always drawn from the away lineup: after a home goal the sides have
    /// already swapped when the scorer is credited, so the conceding side is
    /// credited — a quirk kept deliberately.
    pub fn play_action<R: RandomSource>(
        home_team: &MatchTeam,
        away_team: &MatchTeam,
        away_squad: &Squad,
        state: &mut MatchState,
        events: &mut Vec<MatchEvent>,
        rng: &mut R,
    ) -> (battle: (bool, u64, u64))
        requires
            old(state).home_score < u32::MAX,
            old(state).away_score < u32::MAX,
        ensures
            battle.0 == (battle.1 > battle.2),
            battle.1 <= attacking_skill_in_zone(
                attacking_team_of(*old(state), *home_team, *away_team),
                old(state).zone,
            ),
            battle.2 <= defending_skill_in_zone(
                defending_team_of(*old(state), *home_team, *away_team),
                old(state).zone,
            ),
            *final(state) == action_transition(*old(state), battle.0),
            final(events)@.len() >= old(events)@.len(),
            final(events)@.len() <= old(events)@.len() + 1,
            forall|j: int| 0 <= j < old(events)@.len() ==> final(events)@[j] == old(events)@[j],
            !goal_scored(*old(state), battle.0) ==> final(events)@ == old(events)@,
            final(events)@.len() == old(events)@.len() + 1 ==> {
                &&& goal_scored(*old(state), battle.0)
                &&& (final(events)@.last() matches MatchEvent::Goal(id)
                    && in_lineup(away_squad@.main_squad, id))
            },
    {
        let battle = if state.attacking_side == Side::Home {
            Self::get_battle_winner(home_team, away_team, &state.zone, rng)
        } else {
            Self::get_battle_winner(away_team, home_team, &state.zone, rng)
        };
        let attacker_won = battle.0;

        if attacker_won {
            if state.attacking_side == Side::Home {
                if state.zone == MatchFieldZone::BGoal {
                    state.home_score = state.home_score + 1;
                    state.zone = MatchFieldZone::Midfield;
                    state.attacking_side = Side::Away;

                    match Self::goalscorer(away_squad, rng) {
                        Some(id) => {
                            events.push(MatchEvent::Goal(id));
                        },
                        None => {},
                    }
                } else {
                    state.zone = Self::up_field(&state.zone);
                }
            } else {
                if state.zone == MatchFieldZone::AGoal {
                    state.away_score = state.away_score + 1;
                    state.zone = MatchFieldZone::Midfield;
                    state.attacking_side = Side::Home;

                    match Self::goalscorer(away_squad, rng) {
                        Some(id) => {
                            events.push(MatchEvent::Goal(id));
                        },
                        None => {},
                    }
                } else {
                    state.zone = Self::down_field(&state.zone);
                }
            }
        } else {
            state.zone = MatchFieldZone::Midfield;
            state.attacking_side = if state.attacking_side == Side::Home {
                Side::Away
            } else {
                Side::Home
            };
        }

        battle
    }

    /// Play the match: aggregate both squads, resolve exactly
    /// `MATCH_ACTIONS` battles from midfield, then append one played
    /// appearance of ninety minutes for every starting player of the home
    /// side and then of the away side. The substitution log stays empty.
    ///
    /// The event log is a block of goal events followed by the appearance
    /// block, and the two final goal counts sum to at most the number of
    /// battles. Two sides without battle-relevant skill — empty lineups in
    /// particular — cannot win a battle, so such a match ends goalless.
    pub fn play<R: RandomSource>(&mut self, rng: &mut R) -> (result: FootballMatchDetails)
        requires
            team_skill(SkillKind::Goalkeeping, old(self).home_squad@.main_squad) <= u64::MAX,
            team_skill(SkillKind::Defending, old(self).home_squad@.main_squad) <= u64::MAX,
            team_skill(SkillKind::Midfield, old(self).home_squad@.main_squad) <= u64::MAX,
            team_skill(SkillKind::Attacking, old(self).home_squad@.main_squad) <= u64::MAX,
            team_skill(SkillKind::Goalkeeping, old(self).away_squad@.main_squad) <= u64::MAX,
            team_skill(SkillKind::Defending, old(self).away_squad@.main_squad) <= u64::MAX,
            team_skill(SkillKind::Midfield, old(self).away_squad@.main_squad) <= u64::MAX,
            team_skill(SkillKind::Attacking, old(self).away_squad@.main_squad) <= u64::MAX,
            old(self).home_squad@.main_squad.len() + old(self).away_squad@.main_squad.len()
                + MATCH_ACTIONS <= usize::MAX,
        ensures
            *final(self) == *old(self),
            result.score.home + result.score.away <= MATCH_ACTIONS,
            result.player_changes@.len() == 0,
            result.events@.len() >= old(self).home_squad@.main_squad.len()
                + old(self).away_squad@.main_squad.len(),
            result.events@.len() <= MATCH_ACTIONS + old(self).home_squad@.main_squad.len()
                + old(self).away_squad@.main_squad.len(),
            result.events@.len() <= result.score.home + result.score.away
                + old(self).home_squad@.main_squad.len() + old(self).away_squad@.main_squad.len(),
            forall|j: int| 0 <= j < result.events@.len() - old(self).home_squad@.main_squad.len()
                - old(self).away_squad@.main_squad.len()
                ==> (#[trigger] result.events@[j] matches MatchEvent::Goal(id)
                    && in_lineup(old(self).away_squad@.main_squad, id)),
            forall|j: int| 0 <= j < old(self).home_squad@.main_squad.len()
                ==> result.events@[result.events@.len() - old(self).home_squad@.main_squad.len()
                    - old(self).away_squad@.main_squad.len() + j]
                    == MatchEvent::MatchPlayed(old(self).home_squad@.main_squad[j].player.id, true, 90),
            forall|j: int| 0 <= j < old(self).away_squad@.main_squad.len()
                ==> result.events@[result.events@.len() - old(self).away_squad@.main_squad.len() + j]
                    == MatchEvent::MatchPlayed(old(self).away_squad@.main_squad[j].player.id, true, 90),
            no_battle_skill(old(self).home_squad@.main_squad)
                && no_battle_skill(old(self).away_squad@.main_squad)
                ==> result.score.home == 0 && result.score.away == 0
                    && result.events@.len() == old(self).home_squad@.main_squad.len()
                        + old(self).away_squad@.main_squad.len(),
            old(self).home_squad@.main_squad.len() == 0 && old(self).away_squad@.main_squad.len() == 0
                ==> result.score.home == 0 && result.score.away == 0 && result.events@.len() == 0,
            exists|outcomes: Seq<bool>| outcomes.len() == MATCH_ACTIONS
                && (#[trigger] run_transitions(initial_match_state(), outcomes)).home_score
                    == result.score.home
                && run_transitions(initial_match_state(), outcomes).away_score == result.score.away,
    {
        let ghost home_lineup = self.home_squad@.main_squad;
        let ghost away_lineup = self.away_squad@.main_squad;

        let home_team = Self::get_team_for_squad(&self.home_squad);
        let away_team = Self::get_team_for_squad(&self.away_squad);

        let mut state = MatchState {
            zone: MatchFieldZone::Midfield,
            attacking_side: Side::Home,
            home_score: 0,
            away_score: 0,
        };
        let mut events: Vec<MatchEvent> = Vec::new();
        let ghost mut outcomes: Seq<bool> = Seq::empty();

        for i in 0..MATCH_ACTIONS
            invariant
                *self == *old(self),
                home_lineup == self.home_squad@.main_squad,
                away_lineup == self.away_squad@.main_squad,
                home_team.defender_skill == team_skill(SkillKind::Defending, home_lineup),
                home_team.midfielder_skill == team_skill(SkillKind::Midfield, home_lineup),
                home_team.striker_skill == team_skill(SkillKind::Attacking, home_lineup),
                away_team.defender_skill == team_skill(SkillKind::Defending, away_lineup),
                away_team.midfielder_skill == team_skill(SkillKind::Midfield, away_lineup),
                away_team.striker_skill == team_skill(SkillKind::Attacking, away_lineup),
                outcomes.len() == i,
                state == run_transitions(initial_match_state(), outcomes),
                state.home_score + state.away_score <= i,
                events@.len() <= state.home_score + state.away_score,
                forall|j: int| 0 <= j < events@.len()
                    ==> (#[trigger] events@[j] matches MatchEvent::Goal(id)
                        && in_lineup(away_lineup, id)),
                no_battle_skill(home_lineup) && no_battle_skill(away_lineup)
                    ==> state.home_score == 0 && state.away_score == 0 && events@.len() == 0,
        {
            let ghost prev = state;
            let ghost prev_outcomes = outcomes;
            let battle = Self::play_action(
                &home_team,
                &away_team,
                &self.away_squad,
                &mut state,
                &mut events,
                rng,
            );
            proof {
                outcomes = prev_outcomes.push(battle.0);
                assert(outcomes.drop_last() =~= prev_outcomes);
                assert(outcomes.last() == battle.0);
                if no_battle_skill(home_lineup) && no_battle_skill(away_lineup) {
                    assert(attacking_skill_in_zone(
                        attacking_team_of(prev, home_team, away_team),
                        prev.zone,
                    ) == 0);
                    assert(!battle.0);
                }
            }
        }

        let ghost goals_len = events@.len();

        let nh = self.home_squad.main_squad.len();
        for j in 0..nh
            invariant
                *self == *old(self),
                home_lineup == self.home_squad@.main_squad,
                away_lineup == self.away_squad@.main_squad,
                nh == home_lineup.len(),
                nh == self.home_squad.main_squad@.len(),
                outcomes.len() == MATCH_ACTIONS,
                state == run_transitions(initial_match_state(), outcomes),
                events@.len() == goals_len + j,
                goals_len <= MATCH_ACTIONS,
                no_battle_skill(home_lineup) && no_battle_skill(away_lineup)
                    ==> state.home_score == 0 && state.away_score == 0 && goals_len == 0,
                forall|k: int| 0 <= k < goals_len
                    ==> (#[trigger] events@[k] matches MatchEvent::Goal(id)
                        && in_lineup(away_lineup, id)),
                forall|k: int| 0 <= k < j ==> events@[goals_len + k]
                    == MatchEvent::MatchPlayed(home_lineup[k].player.id, true, 90),
        {
            let id = self.home_squad.main_squad[j].player.id;
            proof {
                assert(home_lineup[j as int] == self.home_squad.main_squad@[j as int]@);
                assert(home_lineup[j as int].player.id == id);
            }
            events.push(MatchEvent::MatchPlayed(id, true, 90));
        }

        let na = self.away_squad.main_squad.len();
        for j in 0..na
            invariant
                *self == *old(self),
                home_lineup == self.home_squad@.main_squad,
                away_lineup == self.away_squad@.main_squad,
                nh == home_lineup.len(),
                na == away_lineup.len(),
                na == self.away_squad.main_squad@.len(),
                outcomes.len() == MATCH_ACTIONS,
                state == run_transitions(initial_match_state(), outcomes),
                events@.len() == goals_len + home_lineup.len() + j,
                goals_len <= MATCH_ACTIONS,
                no_battle_skill(home_lineup) && no_battle_skill(away_lineup)
                    ==> state.home_score == 0 && state.away_score == 0 && goals_len == 0,
                forall|k: int| 0 <= k < goals_len
                    ==> (#[trigger] events@[k] matches MatchEvent::Goal(id)
                        && in_lineup(away_lineup, id)),
                forall|k: int| 0 <= k < home_lineup.len() ==> events@[goals_len + k]
                    == MatchEvent::MatchPlayed(home_lineup[k].player.id, true, 90),
                forall|k: int| 0 <= k < j ==> events@[goals_len + home_lineup.len() + k]
                    == MatchEvent::MatchPlayed(away_lineup[k].player.id, true, 90),
        {
            let id = self.away_squad.main_squad[j].player.id;
            proof {
                assert(away_lineup[j as int] == self.away_squad.main_squad@[j as int]@);
                assert(away_lineup[j as int].player.id == id);
            }
            events.push(MatchEvent::MatchPlayed(id, true, 90));
        }

        proof {
            if home_lineup.len() == 0 && away_lineup.len() == 0 {
                assert(no_battle_skill(home_lineup));
                assert(no_battle_skill(away_lineup));
            }
            assert(run_transitions(initial_match_state(), outcomes).home_score == state.home_score);
        }

        FootballMatchDetails {
            score: Score { home: state.home_score, away: state.away_score },
            events,
            player_changes: Vec::new(),
        }
    }
}

} // verus!
