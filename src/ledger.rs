use vstd::prelude::*;

use crate::event::{Event, EventView};
use crate::LedgerError;

verus! {

/// What a ledger is, mathematically: its owner and its events in id order.
pub struct LedgerView {
    pub owner: Seq<char>,
    pub events: Seq<EventView>,
}

/// The views of a sequence of events.
pub open spec fn events_view(s: Seq<Event>) -> Seq<EventView> {
    s.map_values(|e: Event| e@)
}

impl LedgerView {
    /// Every event sits at the position given by its id, and every tally
    /// agrees with its list of voters.
    pub open spec fn wf(self) -> bool {
        forall|i: int|
            0 <= i < self.events.len() ==> {
                &&& (#[trigger] self.events[i]).wf()
                &&& self.events[i].id == i
            }
    }

    /// An empty ledger owned by `owner`.
    pub open spec fn empty(owner: Seq<char>) -> LedgerView {
        LedgerView { owner, events: Seq::empty() }
    }

    /// The ledger after `creator` adds an event at time `now`: it gets the
    /// next id and no votes.
    pub open spec fn with_event(
        self,
        title: Seq<char>,
        estimated_budget: nat,
        description: Seq<char>,
        creator: Seq<char>,
        now: nat,
    ) -> LedgerView {
        LedgerView {
            events: self.events.push(
                EventView {
                    id: self.events.len() as int,
                    creator,
                    created_at: now,
                    title,
                    estimated_budget,
                    total_votes: 0,
                    description,
                    votes: Seq::empty(),
                },
            ),
            ..self
        }
    }

    /// The ledger after `voter` votes for the event with id `id`.
    pub open spec fn with_vote(self, id: int, voter: Seq<char>) -> LedgerView {
        LedgerView { events: self.events.update(id, self.events[id].voted(voter)), ..self }
    }
}

/// A ledger of events and of the votes cast for them.
pub struct Contract {
    owner: String,
    events: Vec<Event>,
}

impl View for Contract {
    type V = LedgerView;

    closed spec fn view(&self) -> LedgerView {
        LedgerView { owner: self.owner@, events: events_view(self.events@) }
    }
}

impl Contract {
    /// The ledger is well formed.
    pub open spec fn wf(&self) -> bool {
        self@.wf()
    }

    /// An empty ledger owned by `owner`.
    pub fn new(owner: String) -> (r: Contract)
        ensures
            r@ == LedgerView::empty(owner@),
            r.wf(),
    {
        let r = Contract { owner, events: Vec::new() };
        assert(events_view(r.events@) =~= Seq::empty());
        r
    }

    /// A ledger as it was stored. Gives `None` when an event does not sit
    /// at the position given by its id, or its tally is not the number of
    /// its voters.
    pub fn restore(owner: String, events: Vec<Event>) -> (r: Option<Contract>)
        ensures
            r is Some <==> (LedgerView { owner: owner@, events: events_view(events@) }).wf(),
            r matches Some(c) ==> c@ == (LedgerView { owner: owner@, events: events_view(events@) })
                && c.wf(),
    {
        let ghost l = LedgerView { owner: owner@, events: events_view(events@) };
        let mut i: usize = 0;
        while i < events.len()
            invariant
                i <= events@.len(),
                l == (LedgerView { owner: owner@, events: events_view(events@) }),
                forall|j: int|
                    0 <= j < i ==> {
                        &&& (#[trigger] l.events[j]).wf()
                        &&& l.events[j].id == j
                    },
            decreases events@.len() - i,
        {
            let e = &events[i];
            let voters = e.votes();
            if e.total_votes() as i128 != voters.len() as i128 || e.id() as i128 != i as i128 {
                assert(l.events[i as int] == e@);
                assert(voters@.len() == e@.votes.len());
                assert(!l.events[i as int].wf() || l.events[i as int].id != i);
                return None;
            }
            i = i + 1;
        }
        Some(Contract { owner, events })
    }

    /// Who owns the ledger.
    pub fn owner(&self) -> (r: &String)
        ensures
            r@ == self@.owner,
    {
        &self.owner
    }

    /// Adds an event created by `caller` at time `now` and returns its id,
    /// which is the number of events before the call.
    pub fn add_event(
        &mut self,
        title: String,
        estimated_budget: u128,
        description: String,
        caller: String,
        now: u64,
    ) -> (id: usize)
        requires
            old(self).wf(),
            old(self)@.events.len() < i32::MAX,
        ensures
            final(self).wf(),
            id == old(self)@.events.len(),
            final(self)@ == old(self)@.with_event(
                title@,
                estimated_budget as nat,
                description@,
                caller@,
                now as nat,
            ),
    {
        let id = self.events.len();
        let event = Event::new(id as i32, title, estimated_budget, description, caller, now);
        self.events.push(event);
        assert(events_view(self.events@) =~= events_view(old(self).events@).push(event@));
        id
    }

    /// Copies of all events, in id order.
    pub fn list_events(&self) -> (r: Vec<Event>)
        ensures
            r@.len() == self@.events.len(),
            events_view(r@) == self@.events,
    {
        let mut r: Vec<Event> = Vec::new();
        let mut i: usize = 0;
        while i < self.events.len()
            invariant
                i <= self.events@.len(),
                r@.len() == i,
                forall|j: int| 0 <= j < i ==> #[trigger] r@[j]@ == self.events@[j]@,
            decreases self.events@.len() - i,
        {
            r.push(self.events[i].snapshot());
            i = i + 1;
        }
        assert(events_view(r@) =~= events_view(self.events@));
        r
    }

    /// The number of events.
    pub fn event_count(&self) -> (r: usize)
        ensures
            r == self@.events.len(),
    {
        self.events.len()
    }

    /// Records a vote by `caller` for the event with id `id`. Fails with
    /// `InvalidReference`, changing nothing, when there is no such event.
    /// A caller may vote for the same event more than once.
    pub fn add_vote(&mut self, id: usize, caller: String) -> (r: Result<(), LedgerError>)
        requires
            old(self).wf(),
            id < old(self)@.events.len() ==> old(self)@.events[id as int].votes.len() < i64::MAX,
        ensures
            final(self).wf(),
            id < old(self)@.events.len() ==> r == Ok::<(), LedgerError>(()) && final(self)@
                == old(self)@.with_vote(id as int, caller@),
            id >= old(self)@.events.len() ==> r == Err::<(), LedgerError>(
                LedgerError::InvalidReference,
            ) && final(self)@ == old(self)@,
    {
        if id >= self.events.len() {
            return Err(LedgerError::InvalidReference);
        }
        let ghost voter = caller@;
        self.events[id].record_vote(caller);
        assert(events_view(self.events@) =~= events_view(old(self).events@).update(
            id as int,
            old(self)@.events[id as int].voted(voter),
        ));
        Ok(())
    }

    /// The number of votes for the event with id `id`, which is the length
    /// of its list of voters. Fails with `InvalidReference` when there is no
    /// such event.
    pub fn get_total_votes(&self, id: usize) -> (r: Result<u64, LedgerError>)
        requires
            self.wf(),
        ensures
            id < self@.events.len() ==> r == Ok::<u64, LedgerError>(
                self@.events[id as int].total_votes as u64,
            ) && r == Ok::<u64, LedgerError>(self@.events[id as int].votes.len() as u64),
            id >= self@.events.len() ==> r == Err::<u64, LedgerError>(
                LedgerError::InvalidReference,
            ),
    {
        if id >= self.events.len() {
            return Err(LedgerError::InvalidReference);
        }
        let total = self.events[id].total_votes();
        Ok(total as u64)
    }
}

} // verus!
