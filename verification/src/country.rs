//! Countries: structural aggregators that fan a per-step simulation call out
//! to their clubs.

use vstd::prelude::*;
use crate::club::Club;
use crate::context::GlobalContext;
use crate::player::PlayerClubContract;
use crate::player::player_contract_step;
use crate::staff::StaffClubContract;
use crate::staff::staff_contract_step;

verus! {

/// A country: identity, name, and the clubs it owns.
#[derive(Clone, Debug)]
pub struct Country {
    pub id: u32,
    pub name: String,
    pub clubs: Vec<Club>,
}

/// How one simulation step relates a club's new state to its old one: the
/// contracts advance, everything else is kept.
pub open spec fn club_stepped(a: Club, b: Club) -> bool {
    &&& b.id == a.id
    &&& b.name == a.name
    &&& b.board == a.board
    &&& b.tactics == a.tactics
    &&& b.players@ == a.players@.map_values(|c: PlayerClubContract| player_contract_step(c))
    &&& b.staffs@ == a.staffs@.map_values(|c: StaffClubContract| staff_contract_step(c))
}

/// How one simulation step relates a country's new state to its old one:
/// every owned club is stepped, nothing else changes.
pub open spec fn country_stepped(a: Country, b: Country) -> bool {
    &&& b.id == a.id
    &&& b.name == a.name
    &&& b.clubs@.len() == a.clubs@.len()
    &&& forall|i: int| 0 <= i < a.clubs@.len() ==> club_stepped(#[trigger] a.clubs@[i], b.clubs@[i])
}

/// The number of items a country's subtree holds: the sum of its clubs'
/// player contracts.
pub open spec fn country_items(clubs: Seq<Club>) -> int
    decreases clubs.len(),
{
    if clubs.len() == 0 {
        0
    } else {
        country_items(clubs.drop_last()) + clubs.last().players@.len()
    }
}

/// Item counts are sums of non-negative terms, so every prefix count is
/// bounded by the whole.
pub proof fn lemma_country_items_bounds(clubs: Seq<Club>, i: int)
    requires
        0 <= i <= clubs.len(),
    ensures
        0 <= country_items(clubs.take(i)) <= country_items(clubs),
    decreases clubs.len(),
{
    if clubs.len() == 0 {
        assert(clubs.take(i) =~= clubs);
    } else if i == clubs.len() {
        assert(clubs.take(i) =~= clubs);
        lemma_country_items_bounds(clubs.drop_last(), clubs.len() - 1);
        assert(clubs.drop_last().take(clubs.len() - 1) =~= clubs.drop_last());
    } else {
        assert(clubs.take(i) =~= clubs.drop_last().take(i));
        lemma_country_items_bounds(clubs.drop_last(), i);
    }
}

impl Country {
    pub fn new(id: u32, name: String, clubs: Vec<Club>) -> (r: Country)
        ensures
            r.id == id,
            r.name == name,
            r.clubs@ == clubs@,
    {
        Country { id, name, clubs }
    }

    /// The number of items the country's subtree holds.
    pub fn items_count(&self) -> (r: usize)
        requires
            country_items(self.clubs@) <= usize::MAX,
        ensures
            r == country_items(self.clubs@),
    {
        let mut total: usize = 0;
        let n = self.clubs.len();
        for i in 0..n
            invariant
                n == self.clubs@.len(),
                total == country_items(self.clubs@.take(i as int)),
                country_items(self.clubs@) <= usize::MAX,
        {
            proof {
                lemma_country_items_bounds(self.clubs@, i + 1);
                assert(self.clubs@.take(i + 1).drop_last() =~= self.clubs@.take(i as int));
                assert(self.clubs@.take(i + 1).last() == self.clubs@[i as int]);
            }
            total = total + self.clubs[i].items_count();
        }
        proof {
            assert(self.clubs@.take(n as int) =~= self.clubs@);
        }
        total
    }

    /// Advance every owned club for one time step.
    pub fn simulate(&mut self, ctx: &GlobalContext)
        ensures
            country_stepped(*old(self), *final(self)),
    {
        let n = self.clubs.len();
        for i in 0..n
            invariant
                n == self.clubs@.len(),
                self.clubs@.len() == old(self).clubs@.len(),
                self.id == old(self).id,
                self.name == old(self).name,
                forall|j: int| 0 <= j < i ==> club_stepped(#[trigger] old(self).clubs@[j], self.clubs@[j]),
                forall|j: int| i <= j < n ==> self.clubs@[j] == old(self).clubs@[j],
        {
            self.clubs[i].simulate(&ctx.simulation);
        }
    }
}

} // verus!
