//! The world driver: the simulated world's data and the per-step fan-out
//! from the world root to the continents, followed by the clock advance.

use vstd::prelude::*;
use crate::context::ContinentContext;
use crate::context::GlobalContext;
use crate::context::SimDate;
use crate::context::SimulationContext;
use crate::continent::Continent;
use crate::continent::continent_stepped;

verus! {

/// The simulated world: the continents and the world clock.
#[derive(Clone, Debug)]
pub struct SimulatorData {
    pub continents: Vec<Continent>,
    pub date: SimDate,
}

impl SimulatorData {
    pub fn new(continents: Vec<Continent>, date: SimDate) -> (r: SimulatorData)
        ensures
            r.continents@ == continents@,
            r.date == date,
    {
        SimulatorData { continents, date }
    }

    /// Advance the world clock by exactly one hour. The clock never moves
    /// backward.
    pub fn next_date(&mut self)
        requires
            old(self).date.wf(),
            old(self).date.day < u64::MAX,
        ensures
            final(self).date.wf(),
            final(self).date.total_hours() == old(self).date.total_hours() + 1,
            final(self).date.day >= old(self).date.day,
            final(self).continents@ == old(self).continents@,
    {
        self.date = self.date.next_hour();
    }
}

/// The world driver.
pub struct FootballSimulator;

impl FootballSimulator {
    pub fn new() -> (r: FootballSimulator)
    {
        FootballSimulator {}
    }

    /// One world step: build a root context from the current date, simulate
    /// every continent with a continent-scoped context, and then advance the
    /// clock by one hour.
    pub fn simulate(&mut self, data: &mut SimulatorData)
        requires
            old(data).date.wf(),
            old(data).date.day < u64::MAX,
        ensures
            final(data).date.wf(),
            final(data).date.total_hours() == old(data).date.total_hours() + 1,
            final(data).continents@.len() == old(data).continents@.len(),
            forall|i: int| 0 <= i < old(data).continents@.len()
                ==> continent_stepped(#[trigger] old(data).continents@[i], final(data).continents@[i]),
    {
        let global_ctx = GlobalContext::new(SimulationContext::new(data.date));

        let continent_ctx = global_ctx.with_continent(ContinentContext::new());

        let n = data.continents.len();
        for i in 0..n
            invariant
                n == data.continents@.len(),
                data.date == old(data).date,
                forall|j: int| 0 <= j < i
                    ==> continent_stepped(#[trigger] old(data).continents@[j], data.continents@[j]),
                forall|j: int| i <= j < n ==> data.continents@[j] == old(data).continents@[j],
        {
            data.continents[i].simulate(&continent_ctx);
        }

        data.next_date();
    }
}

} // verus!
