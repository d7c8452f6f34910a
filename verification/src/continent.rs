//! Continents: the top structural aggregators. A continent's step simulates
//! every owned country and only then drives every owned tournament.

use vstd::prelude::*;
use crate::context::CountryContext;
use crate::context::GlobalContext;
use crate::context::TournamentContext;
use crate::country::Country;
use crate::country::country_items;
use crate::country::country_stepped;
use crate::tournament::Tournament;
use crate::tournament::tournament_stepped;

verus! {

/// A continent: name, owned countries, owned tournaments.
#[derive(Clone, Debug)]
pub struct Continent {
    pub name: String,
    pub countries: Vec<Country>,
    pub tournaments: Vec<Tournament>,
}

/// How one simulation step relates a continent's new state to its old one:
/// every owned country is stepped, then every owned tournament.
pub open spec fn continent_stepped(a: Continent, b: Continent) -> bool {
    &&& b.name == a.name
    &&& b.countries@.len() == a.countries@.len()
    &&& forall|i: int| 0 <= i < a.countries@.len()
        ==> country_stepped(#[trigger] a.countries@[i], b.countries@[i])
    &&& b.tournaments@.len() == a.tournaments@.len()
    &&& forall|i: int| 0 <= i < a.tournaments@.len()
        ==> tournament_stepped(#[trigger] a.tournaments@[i], b.tournaments@[i])
}

/// The number of items a continent's subtree holds: the sum over its
/// countries.
pub open spec fn continent_items(countries: Seq<Country>) -> int
    decreases countries.len(),
{
    if countries.len() == 0 {
        0
    } else {
        continent_items(countries.drop_last()) + country_items(countries.last().clubs@)
    }
}

/// Continent item counts are sums of non-negative terms, so every prefix
/// count is bounded by the whole.
pub proof fn lemma_continent_items_bounds(countries: Seq<Country>, i: int)
    requires
        0 <= i <= countries.len(),
    ensures
        0 <= continent_items(countries.take(i)) <= continent_items(countries),
    decreases countries.len(),
{
    if countries.len() == 0 {
        assert(countries.take(i) =~= countries);
    } else if i == countries.len() {
        assert(countries.take(i) =~= countries);
        lemma_continent_items_bounds(countries.drop_last(), countries.len() - 1);
        assert(countries.drop_last().take(countries.len() - 1) =~= countries.drop_last());
        crate::country::lemma_country_items_bounds(countries.last().clubs@, 0);
        assert(countries.last().clubs@.take(0) =~= Seq::<crate::club::Club>::empty());
    } else {
        assert(countries.take(i) =~= countries.drop_last().take(i));
        lemma_continent_items_bounds(countries.drop_last(), i);
        crate::country::lemma_country_items_bounds(countries.last().clubs@, countries.last().clubs@.len() as int);
        assert(countries.last().clubs@.take(countries.last().clubs@.len() as int) =~= countries.last().clubs@);
    }
}

impl Continent {
    pub fn new(name: String, countries: Vec<Country>, tournaments: Vec<Tournament>) -> (r: Continent)
        ensures
            r.name == name,
            r.countries@ == countries@,
            r.tournaments@ == tournaments@,
    {
        Continent { name, countries, tournaments }
    }

    /// The number of items the continent's subtree holds.
    pub fn items_count(&self) -> (r: usize)
        requires
            continent_items(self.countries@) <= usize::MAX,
        ensures
            r == continent_items(self.countries@),
    {
        let mut total: usize = 0;
        let n = self.countries.len();
        for i in 0..n
            invariant
                n == self.countries@.len(),
                total == continent_items(self.countries@.take(i as int)),
                continent_items(self.countries@) <= usize::MAX,
        {
            proof {
                lemma_continent_items_bounds(self.countries@, i + 1);
                lemma_continent_items_bounds(self.countries@, i as int);
                assert(self.countries@.take(i + 1).drop_last() =~= self.countries@.take(i as int));
                assert(self.countries@.take(i + 1).last() == self.countries@[i as int]);
                crate::country::lemma_country_items_bounds(
                    self.countries@[i as int].clubs@,
                    self.countries@[i as int].clubs@.len() as int,
                );
                assert(self.countries@[i as int].clubs@.take(self.countries@[i as int].clubs@.len() as int)
                    =~= self.countries@[i as int].clubs@);
            }
            total = total + self.countries[i].items_count();
        }
        proof {
            assert(self.countries@.take(n as int) =~= self.countries@);
        }
        total
    }

    /// One continent step: derive a country-scoped context and simulate
    /// every owned country; after all countries have finished, derive a
    /// fresh tournament context and drive every owned tournament, in
    /// declaration order.
    pub fn simulate(&mut self, ctx: &GlobalContext)
        ensures
            continent_stepped(*old(self), *final(self)),
    {
        let global_ctx = ctx.with_country(CountryContext::new());

        let n = self.countries.len();
        for i in 0..n
            invariant
                n == self.countries@.len(),
                self.name == old(self).name,
                self.tournaments@ == old(self).tournaments@,
                forall|j: int| 0 <= j < i
                    ==> country_stepped(#[trigger] old(self).countries@[j], self.countries@[j]),
                forall|j: int| i <= j < n ==> self.countries@[j] == old(self).countries@[j],
        {
            self.countries[i].simulate(&global_ctx);
        }

        let mut tournament_ctx = TournamentContext::new();

        let ghost countries_after = self.countries@;
        let m = self.tournaments.len();
        for i in 0..m
            invariant
                m == self.tournaments@.len(),
                self.name == old(self).name,
                self.countries@ == countries_after,
                countries_after.len() == old(self).countries@.len(),
                forall|j: int| 0 <= j < old(self).countries@.len()
                    ==> country_stepped(#[trigger] old(self).countries@[j], countries_after[j]),
                forall|j: int| 0 <= j < i
                    ==> tournament_stepped(#[trigger] old(self).tournaments@[j], self.tournaments@[j]),
                forall|j: int| i <= j < m ==> self.tournaments@[j] == old(self).tournaments@[j],
        {
            self.tournaments[i].simulate(&mut tournament_ctx, ctx);
        }
    }
}

} // verus!
