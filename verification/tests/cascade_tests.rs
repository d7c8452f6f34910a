use football_sim::behaviour::TeamBehaviour;
use football_sim::behaviour::TeamBehaviourResult;
use football_sim::club::Club;
use football_sim::club::ClubBoard;
use football_sim::context::SimDate;
use football_sim::context::SimulationContext;
use football_sim::continent::Continent;
use football_sim::country::Country;
use football_sim::player::Player;
use football_sim::player::PlayerClubContract;
use football_sim::player::PlayerCollection;
use football_sim::player::PlayerPositionType;
use football_sim::random::Lcg;
use football_sim::random::MaxSource;
use football_sim::random::MinSource;
use football_sim::random::RandomSource;
use football_sim::simulator::FootballSimulator;
use football_sim::simulator::SimulatorData;
use football_sim::squad::Formation;
use football_sim::squad::Tactics;
use football_sim::staff::Staff;
use football_sim::staff::StaffClubContract;
use football_sim::staff::StaffCollection;
use football_sim::staff::StaffPosition;
use football_sim::tournament::Tournament;
use football_sim::tournament::TournamentFormat;

fn contract(id: u32, expires_day: u64) -> PlayerClubContract {
    PlayerClubContract::new(
        Player::new(id, 10, vec![PlayerPositionType::Striker]),
        expires_day,
    )
}

fn club(name: &str, player_ids: &[u32]) -> Club {
    let players: Vec<PlayerClubContract> = player_ids.iter().map(|id| contract(*id, 1000)).collect();
    let staffs = vec![StaffClubContract::new(Staff::new(900), 1000, StaffPosition::MainCoach)];
    let mut rng = Lcg::new(7);
    let mut c = Club::new(String::from(name), players, staffs, &mut rng);
    c.select_tactics(Tactics::new(Formation::FourFourTwo));
    c
}

#[test]
fn clock_advances_one_hour_and_rolls_over() {
    let mut data = SimulatorData::new(Vec::new(), SimDate::new(5, 23));
    data.next_date();
    assert_eq!(data.date.day, 6);
    assert_eq!(data.date.hour, 0);

    let mut data = SimulatorData::new(Vec::new(), SimDate::new(5, 10));
    data.next_date();
    assert_eq!(data.date.day, 5);
    assert_eq!(data.date.hour, 11);
}

#[test]
fn contract_expires_on_or_before_the_current_day() {
    let c = contract(1, 100);
    assert!(c.is_expired(SimDate::new(100, 5)));
    assert!(c.is_expired(SimDate::new(101, 0)));
    assert!(!c.is_expired(SimDate::new(99, 23)));

    let ctx = SimulationContext::new(SimDate::new(100, 5));
    let s = StaffClubContract::new(Staff::new(2), 100, StaffPosition::Coach);
    assert!(s.is_expired(&ctx));
    let s2 = StaffClubContract::new(Staff::new(2), 101, StaffPosition::Coach);
    assert!(!s2.is_expired(&ctx));
}

#[test]
fn squad_builder_excludes_expired_contracts() {
    let mut c = club("Rovers", &[]);
    c.players = vec![contract(1, 50), contract(2, 200)];
    let squad = c.get_match_squad(SimDate::new(100, 0)).unwrap();
    assert_eq!(squad.main_squad.len(), 1);
    assert_eq!(squad.main_squad[0].player.id, 2);
}

#[test]
fn squad_builder_requires_tactics() {
    let mut c = club("Rovers", &[1, 2]);
    c.tactics = None;
    assert!(c.get_match_squad(SimDate::new(100, 0)).is_none());
}

#[test]
fn squad_builder_is_idempotent() {
    let c = club("Rovers", &[1, 2, 3]);
    let date = SimDate::new(100, 0);
    let a = c.get_match_squad(date).unwrap();
    let b = c.get_match_squad(date).unwrap();
    assert_eq!(a.club_id, b.club_id);
    assert_eq!(a.tactics, b.tactics);
    assert_eq!(a.main_squad.len(), b.main_squad.len());
    for k in 0..a.main_squad.len() {
        assert_eq!(a.main_squad[k].position, b.main_squad[k].position);
        assert_eq!(a.main_squad[k].player.id, b.main_squad[k].player.id);
        assert_eq!(a.main_squad[k].player.skill, b.main_squad[k].player.skill);
        assert_eq!(a.main_squad[k].player.positions, b.main_squad[k].player.positions);
    }
}

#[test]
fn world_step_advances_every_contract_once_and_each_tournament_once() {
    let countries = vec![
        Country::new(1, String::from("Northland"), vec![club("North A", &[1, 2]), club("North B", &[3])]),
        Country::new(2, String::from("Southland"), vec![club("South A", &[4]), club("South B", &[5, 6])]),
    ];
    let tournaments = vec![Tournament::new(String::from("Continental Cup"), TournamentFormat::League)];
    let continent = Continent::new(String::from("Borealia"), countries, tournaments);
    let mut data = SimulatorData::new(vec![continent], SimDate::new(10, 4));

    let mut simulator = FootballSimulator::new();
    simulator.simulate(&mut data);

    assert_eq!(data.date.day, 10);
    assert_eq!(data.date.hour, 5);
    for country in &data.continents[0].countries {
        for c in &country.clubs {
            for p in &c.players {
                assert_eq!(p.steps_simulated, 1);
            }
            for s in &c.staffs {
                assert_eq!(s.steps_simulated, 1);
            }
        }
    }
    assert_eq!(data.continents[0].tournaments[0].steps_simulated, 1);

    simulator.simulate(&mut data);
    assert_eq!(data.continents[0].tournaments[0].steps_simulated, 2);
    assert_eq!(data.continents[0].countries[0].clubs[0].players[0].steps_simulated, 2);
}

#[test]
fn items_counts_sum_over_the_tree() {
    let countries = vec![
        Country::new(1, String::from("Northland"), vec![club("North A", &[1, 2]), club("North B", &[3])]),
        Country::new(2, String::from("Southland"), vec![club("South A", &[4])]),
    ];
    assert_eq!(countries[0].items_count(), 3);
    assert_eq!(countries[1].items_count(), 1);
    let continent = Continent::new(String::from("Borealia"), countries, Vec::new());
    assert_eq!(continent.items_count(), 4);
    assert_eq!(continent.countries[0].clubs[0].items_count(), 2);
}

#[test]
fn main_coach_lookup_finds_the_first_or_answers_the_stub() {
    let staffs = vec![
        StaffClubContract::new(Staff::new(31), 1000, StaffPosition::Physio),
        StaffClubContract::new(Staff::new(32), 1000, StaffPosition::MainCoach),
        StaffClubContract::new(Staff::new(33), 1000, StaffPosition::MainCoach),
    ];
    let collection = StaffCollection::new(staffs);
    assert_eq!(collection.get_main_coach().id, 32);

    let empty = StaffCollection::new(vec![
        StaffClubContract::new(Staff::new(31), 1000, StaffPosition::Coach),
    ]);
    assert_eq!(empty.get_main_coach().id, 0);
}

#[test]
fn staff_collection_simulates_every_contract() {
    let mut collection = StaffCollection::new(vec![
        StaffClubContract::new(Staff::new(31), 1000, StaffPosition::Coach),
        StaffClubContract::new(Staff::new(32), 1000, StaffPosition::Physio),
    ]);
    assert_eq!(collection.len(), 2);
    let ctx = SimulationContext::new(SimDate::new(1, 0));
    let events = collection.simulate(&ctx);
    assert!(events.is_empty());
    assert_eq!(collection.staffs[0].steps_simulated, 1);
    assert_eq!(collection.staffs[1].steps_simulated, 1);
}

#[test]
fn board_simulation_leaves_the_board_unchanged() {
    let mut board = ClubBoard::new();
    board.director = Some(StaffClubContract::new(Staff::new(41), 5, StaffPosition::SportDirector));
    let before = board.clone();
    // The first hour of a day is the step that checks contract expiration.
    let ctx = SimulationContext::new(SimDate::new(100, 0));
    board.simulate(&ctx);
    assert_eq!(board.director, before.director);
    assert_eq!(board.sport_director, before.sport_director);
}

#[test]
fn new_clubs_draw_a_bounded_identity() {
    let mut rng = Lcg::new(99);
    let c = Club::new(String::from("Rovers"), Vec::new(), Vec::new(), &mut rng);
    assert!(c.id < 1_000_000);
    assert!(c.tactics.is_none());
    assert!(c.board.director.is_none());
    assert!(c.board.sport_director.is_none());
}

#[test]
fn random_sources_respect_their_bounds() {
    let mut lcg = Lcg::new(1);
    for _ in 0..100 {
        let r = lcg.next_in(10, 20);
        assert!((10..=20).contains(&r));
    }
    let mut max = MaxSource {};
    assert_eq!(max.next_in(3, 9), 9);
    let mut min = MinSource {};
    assert_eq!(min.next_in(3, 9), 3);
}

#[test]
fn team_behaviour_evaluation_holds_no_findings() {
    let players = PlayerCollection::new(Vec::new());
    let staff = StaffCollection::new(Vec::new());
    let result = TeamBehaviour::simulate(&players, &staff);
    assert_eq!(result, TeamBehaviourResult::new());
}
