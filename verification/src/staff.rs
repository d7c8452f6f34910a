//! Staff members, their club contracts, and the per-club staff collection
//! with its derived role lookups.

use vstd::prelude::*;
use crate::context::SimulationContext;

verus! {

/// An event surfaced by staff simulation. No simulation step emits one yet;
/// the type is the extension surface the collection's result is expressed
/// in.
#[derive(Clone, Copy, Debug, PartialEq, Eq, Structural)]
pub enum StaffEvent {
    ContractExpired(u32),
}

/// The role a staff contract binds its staff member to.
#[derive(Clone, Copy, Debug, PartialEq, Eq, Structural)]
pub enum StaffPosition {
    SportDirector,
    MainCoach,
    Coach,
    Physio,
}

/// A staff member.
#[derive(Clone, Copy, Debug, PartialEq, Eq, Structural)]
pub struct Staff {
    pub id: u32,
}

impl Staff {
    pub fn new(id: u32) -> (r: Staff)
        ensures
            r.id == id,
    {
        Staff { id }
    }

    /// The placeholder staff member returned where a role lookup finds
    /// nobody.
    pub fn stub() -> (r: Staff)
        ensures
            r == stub_staff(),
    {
        Staff { id: 0 }
    }

    /// Advance this staff member's state for one time step; surfaces any
    /// events the step raised (none yet).
    pub fn simulate(&mut self, context: &SimulationContext) -> (r: Vec<StaffEvent>)
        ensures
            *final(self) == *old(self),
            r@.len() == 0,
    {
        Vec::new()
    }
}

/// The placeholder staff member.
pub open spec fn stub_staff() -> Staff {
    Staff { id: 0 }
}

/// A time-bounded binding of a staff member to a club, with the role the
/// member fills.
#[derive(Clone, Copy, Debug, PartialEq, Eq, Structural)]
pub struct StaffClubContract {
    pub staff: Staff,
    /// The day number on which the contract expires.
    pub expired: u64,
    pub position: StaffPosition,
    /// How many simulation steps have advanced this contract's state.
    pub steps_simulated: u64,
}

/// The contract after one simulation step: its per-step bookkeeping
/// advances, everything else is kept.
pub open spec fn staff_contract_step(c: StaffClubContract) -> StaffClubContract {
    StaffClubContract {
        steps_simulated: if c.steps_simulated == u64::MAX { 0 } else { (c.steps_simulated + 1) as u64 },
        ..c
    }
}

impl StaffClubContract {
    pub fn new(staff: Staff, expired: u64, position: StaffPosition) -> (r: StaffClubContract)
        ensures
            r.staff == staff,
            r.expired == expired,
            r.position == position,
            r.steps_simulated == 0,
    {
        StaffClubContract { staff, expired, position, steps_simulated: 0 }
    }

    /// Whether the contract has expired in the given context: its expiry day
    /// is on or before the context date's day.
    pub fn is_expired(&self, context: &SimulationContext) -> (r: bool)
        ensures
            r == (self.expired <= context.date.day),
    {
        self.expired <= context.date.day
    }

    /// Advance this contract's state for one time step; surfaces any events
    /// the step raised.
    pub fn simulate(&mut self, context: &SimulationContext) -> (r: Vec<StaffEvent>)
        ensures
            *final(self) == staff_contract_step(*old(self)),
            r@.len() == 0,
    {
        self.steps_simulated = self.steps_simulated.wrapping_add(1);
        self.staff.simulate(context)
    }
}

/// Cached role lookups over a staff collection: derived views, not
/// independent ownership.
#[derive(Clone, Debug)]
pub struct StaffRoles {
    pub main_coach: Option<StaffClubContract>,
    pub contract_resolver: Option<StaffClubContract>,
}

/// A club's owned staff contracts plus the cached role lookups.
#[derive(Clone, Debug)]
pub struct StaffCollection {
    pub staffs: Vec<StaffClubContract>,
    pub roles: StaffRoles,
}

/// The index of the first contract that fills the main-coach role, if any.
pub open spec fn main_coach_index(staffs: Seq<StaffClubContract>) -> Option<int>
    decreases staffs.len(),
{
    if staffs.len() == 0 {
        None
    } else if staffs[0].position == StaffPosition::MainCoach {
        Some(0int)
    } else {
        match main_coach_index(staffs.skip(1)) {
            Some(i) => Some(i + 1),
            None => None,
        }
    }
}

/// The main coach a collection answers with: the staff member of the first
/// main-coach contract, or the placeholder where there is none.
pub open spec fn main_coach_of(staffs: Seq<StaffClubContract>) -> Staff {
    match main_coach_index(staffs) {
        Some(i) => staffs[i].staff,
        None => stub_staff(),
    }
}

impl StaffCollection {
    pub fn new(staffs: Vec<StaffClubContract>) -> (r: StaffCollection)
        ensures
            r.staffs@ == staffs@,
            r.roles.main_coach is None,
            r.roles.contract_resolver is None,
    {
        StaffCollection {
            staffs,
            roles: StaffRoles { main_coach: None, contract_resolver: None },
        }
    }

    pub fn len(&self) -> (r: usize)
        ensures
            r == self.staffs@.len(),
    {
        self.staffs.len()
    }

    /// Advance every owned staff contract for one time step, gathering the
    /// events the steps raised in order.
    pub fn simulate(&mut self, context: &SimulationContext) -> (r: Vec<StaffEvent>)
        ensures
            final(self).staffs@ == old(self).staffs@.map_values(|c: StaffClubContract| staff_contract_step(c)),
            final(self).roles == old(self).roles,
            r@.len() == 0,
    {
        let ghost orig = self.staffs@;
        let mut events: Vec<StaffEvent> = Vec::new();
        let n = self.staffs.len();
        for i in 0..n
            invariant
                n == self.staffs@.len(),
                n == orig.len(),
                self.roles == old(self).roles,
                events@.len() == 0,
                forall|j: int| 0 <= j < i ==> self.staffs@[j] == staff_contract_step(orig[j]),
                forall|j: int| i <= j < n ==> self.staffs@[j] == orig[j],
        {
            let mut staff_events = self.staffs[i].simulate(context);
            events.append(&mut staff_events);
        }
        proof {
            assert(self.staffs@ =~= orig.map_values(|c: StaffClubContract| staff_contract_step(c)));
        }
        events
    }

    /// The staff member filling the main-coach role, or the placeholder
    /// where no contract fills it.
    pub fn get_main_coach(&self) -> (r: Staff)
        ensures
            r == main_coach_of(self.staffs@),
    {
        let n = self.staffs.len();
        for i in 0..n
            invariant
                n == self.staffs@.len(),
                forall|j: int| 0 <= j < i ==> self.staffs@[j].position != StaffPosition::MainCoach,
        {
            if self.staffs[i].position == StaffPosition::MainCoach {
                proof {
                    lemma_main_coach_index_first(self.staffs@, i as int);
                }
                return self.staffs[i].staff;
            }
        }
        proof {
            lemma_main_coach_index_none(self.staffs@);
        }
        Staff::stub()
    }
}

/// Where every contract before `i` misses the main-coach role and the one at
/// `i` fills it, `i` is the index the lookup answers with.
proof fn lemma_main_coach_index_first(staffs: Seq<StaffClubContract>, i: int)
    requires
        0 <= i < staffs.len(),
        staffs[i].position == StaffPosition::MainCoach,
        forall|j: int| 0 <= j < i ==> staffs[j].position != StaffPosition::MainCoach,
    ensures
        main_coach_index(staffs) == Some(i),
    decreases i,
{
    if i == 0 {
    } else {
        assert(staffs.skip(1)[i - 1] == staffs[i]);
        assert(forall|j: int| 0 <= j < i - 1 ==> staffs.skip(1)[j] == staffs[j + 1]);
        lemma_main_coach_index_first(staffs.skip(1), i - 1);
    }
}

/// Where no contract fills the main-coach role, the lookup answers with
/// nobody.
proof fn lemma_main_coach_index_none(staffs: Seq<StaffClubContract>)
    requires
        forall|j: int| 0 <= j < staffs.len() ==> staffs[j].position != StaffPosition::MainCoach,
    ensures
        main_coach_index(staffs) is None,
    decreases staffs.len(),
{
    if staffs.len() == 0 {
    } else {
        assert(forall|j: int| 0 <= j < staffs.skip(1).len() ==> staffs.skip(1)[j] == staffs[j + 1]);
        lemma_main_coach_index_none(staffs.skip(1));
    }
}

} // verus!
