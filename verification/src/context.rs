//! The world clock and the per-level simulation contexts that the cascade
//! threads from the world root down to clubs and tournaments.

use vstd::prelude::*;

verus! {

/// A point of simulated time: a day number and an hour of that day.
///
/// The clock only ever moves forward, one hour at a time; contract-expiry
/// comparisons use the day component alone.
#[derive(Clone, Copy, Debug, PartialEq, Eq, Structural)]
pub struct SimDate {
    /// Days elapsed since the calendar origin of the simulated world.
    pub day: u64,
    /// Hour of the day, always below 24.
    pub hour: u8,
}

impl SimDate {
    /// A date is well formed when its hour names an hour of a day.
    pub open spec fn wf(self) -> bool {
        self.hour < 24
    }

    /// Total hours elapsed since the calendar origin: the measure under
    /// which the clock is strictly increasing.
    pub open spec fn total_hours(self) -> int {
        self.day * 24 + self.hour
    }

    pub fn new(day: u64, hour: u8) -> (r: SimDate)
        requires
            hour < 24,
        ensures
            r == (SimDate { day, hour }),
            r.wf(),
    {
        SimDate { day, hour }
    }

    /// The date one hour later; rolls over to the next day after hour 23.
    pub fn next_hour(self) -> (r: SimDate)
        requires
            self.wf(),
            self.day < u64::MAX,
        ensures
            r.wf(),
            r.total_hours() == self.total_hours() + 1,
            r.day >= self.day,
    {
        if self.hour == 23 {
            SimDate { day: self.day + 1, hour: 0 }
        } else {
            SimDate { day: self.day, hour: self.hour + 1 }
        }
    }
}

/// The simulation-wide state every level of the cascade reads: the current
/// simulated date.
#[derive(Clone, Copy, Debug, PartialEq, Eq, Structural)]
pub struct SimulationContext {
    pub date: SimDate,
}

impl SimulationContext {
    pub fn new(date: SimDate) -> (r: SimulationContext)
        ensures
            r.date == date,
    {
        SimulationContext { date }
    }

    /// Whether this step evaluates contract expiration: once per simulated
    /// day, on its first hour.
    pub fn check_contract_expiration(&self) -> (r: bool)
        ensures
            r == (self.date.hour == 0),
    {
        self.date.hour == 0
    }
}

/// Continent-scoped sub-context, created fresh for each step.
#[derive(Clone, Copy, Debug, PartialEq, Eq, Structural)]
pub struct ContinentContext {}

impl ContinentContext {
    pub fn new() -> (r: ContinentContext)
        ensures
            r == (ContinentContext {}),
    {
        ContinentContext {}
    }
}

/// Country-scoped sub-context, created fresh for each step.
#[derive(Clone, Copy, Debug, PartialEq, Eq, Structural)]
pub struct CountryContext {}

impl CountryContext {
    pub fn new() -> (r: CountryContext)
        ensures
            r == (CountryContext {}),
    {
        CountryContext {}
    }
}

/// Tournament-scoped scratch context, created fresh for each continent step.
#[derive(Clone, Copy, Debug, PartialEq, Eq, Structural)]
pub struct TournamentContext {}

impl TournamentContext {
    pub fn new() -> (r: TournamentContext)
        ensures
            r == (TournamentContext {}),
    {
        TournamentContext {}
    }
}

/// The bundle handed down the cascade: the simulation-wide state plus the
/// optional level-scoped sub-contexts derived so far. Each level derives a
/// narrower child value and never retains it across steps.
#[derive(Clone, Copy, Debug, PartialEq, Eq, Structural)]
pub struct GlobalContext {
    pub simulation: SimulationContext,
    pub continent: Option<ContinentContext>,
    pub country: Option<CountryContext>,
}

impl GlobalContext {
    pub fn new(simulation: SimulationContext) -> (r: GlobalContext)
        ensures
            r.simulation == simulation,
            r.continent is None,
            r.country is None,
    {
        GlobalContext { simulation, continent: None, country: None }
    }

    /// Derive a continent-scoped context for the fan-out to continents.
    pub fn with_continent(&self, continent: ContinentContext) -> (r: GlobalContext)
        ensures
            r.simulation == self.simulation,
            r.continent == Some(continent),
            r.country == self.country,
    {
        GlobalContext { simulation: self.simulation, continent: Some(continent), country: self.country }
    }

    /// Derive a country-scoped context for the fan-out to countries.
    pub fn with_country(&self, country: CountryContext) -> (r: GlobalContext)
        ensures
            r.simulation == self.simulation,
            r.continent == self.continent,
            r.country == Some(country),
    {
        GlobalContext { simulation: self.simulation, continent: self.continent, country: Some(country) }
    }
}

} // verus!
