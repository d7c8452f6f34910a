//! Tournaments: the competition-format abstraction a continent drives once
//! per time step.

use vstd::prelude::*;
use crate::context::GlobalContext;
use crate::context::TournamentContext;

verus! {

/// The known competition formats.
#[derive(Clone, Copy, Debug, PartialEq, Eq, Structural)]
pub enum TournamentFormat {
    League,
    Knockout,
}

/// A competition a continent owns. Its schedule and table bookkeeping live
/// with the format outside this core; the core drives it once per step and
/// accounts for the steps it has consumed.
#[derive(Clone, Debug)]
pub struct Tournament {
    pub name: String,
    pub format: TournamentFormat,
    /// How many simulation steps have driven this tournament.
    pub steps_simulated: u64,
}

/// How one simulation step relates a tournament's new state to its old one.
pub open spec fn tournament_stepped(a: Tournament, b: Tournament) -> bool {
    &&& b.name == a.name
    &&& b.format == a.format
    &&& b.steps_simulated == if a.steps_simulated == u64::MAX { 0u64 } else { (a.steps_simulated + 1) as u64 }
}

impl Tournament {
    pub fn new(name: String, format: TournamentFormat) -> (r: Tournament)
        ensures
            r.name == name,
            r.format == format,
            r.steps_simulated == 0,
    {
        Tournament { name, format, steps_simulated: 0 }
    }

    /// Drive the tournament for one time step. Which fixtures are due and
    /// how results fold into a table is the format's own bookkeeping; the
    /// step it consumes is accounted here.
    pub fn simulate(&mut self, tournament_ctx: &mut TournamentContext, ctx: &GlobalContext)
        ensures
            tournament_stepped(*old(self), *final(self)),
    {
        match self.format {
            TournamentFormat::League => {
                self.steps_simulated = self.steps_simulated.wrapping_add(1);
            },
            TournamentFormat::Knockout => {
                self.steps_simulated = self.steps_simulated.wrapping_add(1);
            },
        }
    }
}

} // verus!
