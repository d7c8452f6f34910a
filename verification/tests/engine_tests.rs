use football_sim::engine::FootballEngine;
use football_sim::engine::MatchEvent;
use football_sim::engine::MatchFieldZone;
use football_sim::engine::MatchState;
use football_sim::engine::MatchTeam;
use football_sim::engine::Side;
use football_sim::player::Player;
use football_sim::player::PlayerPositionType;
use football_sim::random::Lcg;
use football_sim::random::MaxSource;
use football_sim::random::MinSource;
use football_sim::squad::Formation;
use football_sim::squad::Squad;
use football_sim::squad::SquadPlayer;
use football_sim::squad::Tactics;

fn lineup_member(id: u32, skill: u16, positions: Vec<PlayerPositionType>) -> SquadPlayer {
    SquadPlayer {
        position: PlayerPositionType::Goalkeeper,
        player: Player::new(id, skill, positions),
    }
}

fn squad(club_id: u32, members: Vec<SquadPlayer>) -> Squad {
    Squad {
        club_id,
        tactics: Tactics::new(Formation::FourFourTwo),
        main_squad: members,
    }
}

fn strong_home_squad() -> Squad {
    squad(
        1,
        vec![
            lineup_member(11, 100, vec![PlayerPositionType::Sweeper]),
            lineup_member(12, 100, vec![PlayerPositionType::MidfielderCenter]),
            lineup_member(13, 100, vec![PlayerPositionType::Striker]),
        ],
    )
}

fn weak_away_squad_three() -> Squad {
    squad(
        2,
        vec![
            lineup_member(21, 1, vec![PlayerPositionType::Sweeper]),
            lineup_member(22, 1, vec![PlayerPositionType::MidfielderCenter]),
            lineup_member(23, 1, vec![PlayerPositionType::Striker]),
        ],
    )
}

fn weak_away_squad_four() -> Squad {
    squad(
        2,
        vec![
            lineup_member(21, 1, vec![PlayerPositionType::Sweeper]),
            lineup_member(22, 1, vec![PlayerPositionType::MidfielderCenter]),
            lineup_member(23, 1, vec![PlayerPositionType::Striker]),
            lineup_member(24, 1, vec![PlayerPositionType::Goalkeeper]),
        ],
    )
}

#[test]
fn up_field_table_matches_all_zones() {
    assert_eq!(FootballEngine::up_field(&MatchFieldZone::AGoal), MatchFieldZone::Midfield);
    assert_eq!(FootballEngine::up_field(&MatchFieldZone::AField), MatchFieldZone::Midfield);
    assert_eq!(FootballEngine::up_field(&MatchFieldZone::Midfield), MatchFieldZone::BField);
    assert_eq!(FootballEngine::up_field(&MatchFieldZone::BField), MatchFieldZone::BGoal);
    assert_eq!(FootballEngine::up_field(&MatchFieldZone::BGoal), MatchFieldZone::BField);
}

#[test]
fn down_field_table_matches_all_zones() {
    assert_eq!(FootballEngine::down_field(&MatchFieldZone::BGoal), MatchFieldZone::Midfield);
    assert_eq!(FootballEngine::down_field(&MatchFieldZone::BField), MatchFieldZone::Midfield);
    assert_eq!(FootballEngine::down_field(&MatchFieldZone::Midfield), MatchFieldZone::AField);
    assert_eq!(FootballEngine::down_field(&MatchFieldZone::AField), MatchFieldZone::AGoal);
    assert_eq!(FootballEngine::down_field(&MatchFieldZone::AGoal), MatchFieldZone::AField);
}

#[test]
fn field_tables_are_not_inverses() {
    let down = FootballEngine::down_field(&MatchFieldZone::AGoal);
    let back_up = FootballEngine::up_field(&down);
    assert_ne!(back_up, MatchFieldZone::AGoal);
}

#[test]
fn aggregation_goalkeeper_counts_toward_goalkeeping_only() {
    let s = squad(1, vec![lineup_member(1, 7, vec![PlayerPositionType::Goalkeeper])]);
    let team = FootballEngine::get_team_for_squad(&s);
    assert_eq!(team.goalkeeping_skill, 14);
    assert_eq!(team.defender_skill, 0);
    assert_eq!(team.midfielder_skill, 0);
    assert_eq!(team.striker_skill, 0);
}

#[test]
fn aggregation_defenders_count_toward_defending_only() {
    let s = squad(
        1,
        vec![
            lineup_member(1, 3, vec![PlayerPositionType::Sweeper]),
            lineup_member(2, 4, vec![PlayerPositionType::DefenderLeft]),
            lineup_member(3, 5, vec![PlayerPositionType::DefenderCenter]),
            lineup_member(4, 6, vec![PlayerPositionType::DefenderRight]),
        ],
    );
    let team = FootballEngine::get_team_for_squad(&s);
    assert_eq!(team.goalkeeping_skill, 0);
    assert_eq!(team.defender_skill, 2 * (3 + 4 + 5 + 6));
    assert_eq!(team.midfielder_skill, 0);
    assert_eq!(team.striker_skill, 0);
}

#[test]
fn aggregation_midfielder_splits_half_full_half() {
    let s = squad(1, vec![lineup_member(1, 10, vec![PlayerPositionType::MidfielderCenter])]);
    let team = FootballEngine::get_team_for_squad(&s);
    // Half toward defending, full toward midfield, half toward attacking:
    // in half-point units, 10, 20 and 10 for a skill of 10.
    assert_eq!(team.goalkeeping_skill, 0);
    assert_eq!(team.defender_skill, 10);
    assert_eq!(team.midfielder_skill, 20);
    assert_eq!(team.striker_skill, 10);
}

#[test]
fn aggregation_attackers_count_toward_attacking_only() {
    let s = squad(
        1,
        vec![
            lineup_member(1, 3, vec![PlayerPositionType::WingbackLeft]),
            lineup_member(2, 4, vec![PlayerPositionType::WingbackRight]),
            lineup_member(3, 5, vec![PlayerPositionType::Striker]),
        ],
    );
    let team = FootballEngine::get_team_for_squad(&s);
    assert_eq!(team.goalkeeping_skill, 0);
    assert_eq!(team.defender_skill, 0);
    assert_eq!(team.midfielder_skill, 0);
    assert_eq!(team.striker_skill, 2 * (3 + 4 + 5));
}

#[test]
fn aggregation_sums_every_occupied_role() {
    let s = squad(
        1,
        vec![lineup_member(
            1,
            4,
            vec![PlayerPositionType::MidfielderCenter, PlayerPositionType::Striker],
        )],
    );
    let team = FootballEngine::get_team_for_squad(&s);
    assert_eq!(team.defender_skill, 4);
    assert_eq!(team.midfielder_skill, 8);
    assert_eq!(team.striker_skill, 4 + 8);
}

#[test]
fn aggregation_is_deterministic() {
    let s = strong_home_squad();
    let a = FootballEngine::get_team_for_squad(&s);
    let b = FootballEngine::get_team_for_squad(&s);
    assert_eq!(a, b);
}

#[test]
fn battle_equal_skills_favors_defender() {
    let mut attacker = MatchTeam::new(1);
    attacker.midfielder_skill = 50;
    let mut defender = MatchTeam::new(2);
    defender.midfielder_skill = 50;
    let mut rng = MaxSource {};
    let battle = FootballEngine::get_battle_winner(
        &attacker,
        &defender,
        &MatchFieldZone::Midfield,
        &mut rng,
    );
    // Maximal draws surface each side's full midfield skill; equal samples
    // count as a defending win.
    assert_eq!(battle, (false, 50, 50));
}

#[test]
fn play_action_goal_resets_zone_and_swaps_sides() {
    let home_squad = strong_home_squad();
    let away_squad = weak_away_squad_four();
    let home_team = FootballEngine::get_team_for_squad(&home_squad);
    let away_team = FootballEngine::get_team_for_squad(&away_squad);
    let mut state = MatchState {
        zone: MatchFieldZone::BGoal,
        attacking_side: Side::Home,
        home_score: 0,
        away_score: 0,
    };
    let mut events: Vec<MatchEvent> = Vec::new();
    let mut rng = MaxSource {};
    let battle = FootballEngine::play_action(&home_team, &away_team, &away_squad, &mut state, &mut events, &mut rng);
    // In a goal zone the attacker draws on its defending skill and the
    // defender on its attacking skill; maximal draws surface both in full.
    assert_eq!(battle, (true, 300, 3));
    assert_eq!(state.home_score, 1);
    assert_eq!(state.away_score, 0);
    assert_eq!(state.zone, MatchFieldZone::Midfield);
    assert_eq!(state.attacking_side, Side::Away);
    // The maximal scorer draw reaches four players back from the end of the
    // away lineup: its first member is credited.
    assert_eq!(events, vec![MatchEvent::Goal(21)]);
}

#[test]
fn play_action_defending_win_returns_to_midfield() {
    let home_squad = strong_home_squad();
    let away_squad = weak_away_squad_four();
    let home_team = FootballEngine::get_team_for_squad(&home_squad);
    let away_team = FootballEngine::get_team_for_squad(&away_squad);
    let mut state = MatchState {
        zone: MatchFieldZone::BField,
        attacking_side: Side::Away,
        home_score: 0,
        away_score: 0,
    };
    let mut events: Vec<MatchEvent> = Vec::new();
    let mut rng = MaxSource {};
    let battle = FootballEngine::play_action(&home_team, &away_team, &away_squad, &mut state, &mut events, &mut rng);
    assert!(!battle.0);
    assert_eq!(state.home_score, 0);
    assert_eq!(state.away_score, 0);
    assert_eq!(state.zone, MatchFieldZone::Midfield);
    assert_eq!(state.attacking_side, Side::Home);
    assert!(events.is_empty());
}

#[test]
fn play_action_advance_without_goal_keeps_attacker() {
    let home_squad = strong_home_squad();
    let away_squad = weak_away_squad_four();
    let home_team = FootballEngine::get_team_for_squad(&home_squad);
    let away_team = FootballEngine::get_team_for_squad(&away_squad);
    let mut state = MatchState {
        zone: MatchFieldZone::Midfield,
        attacking_side: Side::Home,
        home_score: 0,
        away_score: 0,
    };
    let mut events: Vec<MatchEvent> = Vec::new();
    let mut rng = MaxSource {};
    let battle = FootballEngine::play_action(&home_team, &away_team, &away_squad, &mut state, &mut events, &mut rng);
    assert!(battle.0);
    assert_eq!(state.zone, MatchFieldZone::BField);
    assert_eq!(state.attacking_side, Side::Home);
    assert_eq!(state.home_score, 0);
    assert_eq!(state.away_score, 0);
}

#[test]
fn overwhelming_home_attack_rolls_up_the_score() {
    // A deterministic source answering with the maximum of every range lets
    // the stronger side win every battle: the ball walks to the away goal in
    // two steps and scores on the third, then the away side loses its only
    // battle, for one goal every four battles from the third on.
    let mut engine = FootballEngine::new(strong_home_squad(), weak_away_squad_four());
    let mut rng = MaxSource {};
    let result = engine.play(&mut rng);
    assert_eq!(result.score.home, 12);
    assert_eq!(result.score.away, 0);
    let goals: Vec<&MatchEvent> = result
        .events
        .iter()
        .filter(|e| matches!(e, MatchEvent::Goal(_)))
        .collect();
    assert_eq!(goals.len(), 12);
    for g in goals {
        assert_eq!(*g, MatchEvent::Goal(21));
    }
}

#[test]
fn short_lineup_omits_the_scorer() {
    // With three away players the maximal scorer draw reaches past the
    // lineup: the goals still count, but no scorer is credited.
    let mut engine = FootballEngine::new(strong_home_squad(), weak_away_squad_three());
    let mut rng = MaxSource {};
    let result = engine.play(&mut rng);
    assert_eq!(result.score.home, 12);
    assert_eq!(result.score.away, 0);
    assert!(result.events.iter().all(|e| !matches!(e, MatchEvent::Goal(_))));
}

#[test]
fn minimal_draws_never_let_the_attacker_win() {
    let mut engine = FootballEngine::new(strong_home_squad(), weak_away_squad_four());
    let mut rng = MinSource {};
    let result = engine.play(&mut rng);
    assert_eq!(result.score.home, 0);
    assert_eq!(result.score.away, 0);
}

#[test]
fn play_emits_played_events_and_bounded_scores() {
    let mut engine = FootballEngine::new(strong_home_squad(), weak_away_squad_four());
    let mut rng = Lcg::new(42);
    let result = engine.play(&mut rng);
    assert!(result.score.home + result.score.away <= 50);
    assert!(result.player_changes.is_empty());
    let n = result.events.len();
    assert!(n >= 7);
    // The tail holds one ninety-minute appearance per starter, home side
    // first, in lineup order.
    let expected_ids = [11u32, 12, 13, 21, 22, 23, 24];
    for (k, id) in expected_ids.iter().enumerate() {
        assert_eq!(result.events[n - 7 + k], MatchEvent::MatchPlayed(*id, true, 90));
    }
    // Everything before the tail is a goal event.
    for e in &result.events[..n - 7] {
        assert!(matches!(e, MatchEvent::Goal(_)));
    }
}

#[test]
fn play_on_empty_lineups_scores_nothing() {
    let mut engine = FootballEngine::new(squad(1, vec![]), squad(2, vec![]));
    let mut rng = Lcg::new(7);
    let result = engine.play(&mut rng);
    assert_eq!(result.score.home, 0);
    assert_eq!(result.score.away, 0);
    assert!(result.events.is_empty());
}

#[test]
fn scorer_offset_indexes_backward_and_omits_out_of_range() {
    let s = weak_away_squad_three();
    assert_eq!(FootballEngine::scorer_at_offset(&s, 0), None);
    assert_eq!(FootballEngine::scorer_at_offset(&s, 1), Some(23));
    assert_eq!(FootballEngine::scorer_at_offset(&s, 3), Some(21));
    assert_eq!(FootballEngine::scorer_at_offset(&s, 4), None);
}
