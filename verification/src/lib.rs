//! A verified core for a football (soccer) world simulation: a world clock
//! that advances hour by hour, a cascade that propagates the simulated date
//! from continents down to clubs and their contracts, a squad builder that
//! selects the eligible lineup of a club for a given date, and a match engine
//! that resolves a fixture between two squads as a fixed-length sequence of
//! randomized field battles.

pub mod behaviour;
pub mod club;
pub mod continent;
pub mod context;
pub mod country;
pub mod engine;
pub mod player;
pub mod random;
pub mod simulator;
pub mod squad;
pub mod staff;
pub mod tournament;
