use vstd::prelude::*;

verus! {

/// What an event is, mathematically: its record fields, its tally and the
/// identities that voted for it, in the order the votes came in.
pub struct EventView {
    pub id: int,
    pub creator: Seq<char>,
    pub created_at: nat,
    pub title: Seq<char>,
    pub estimated_budget: nat,
    pub total_votes: int,
    pub description: Seq<char>,
    pub votes: Seq<Seq<char>>,
}

impl EventView {
    /// The tally agrees with the list of voters.
    pub open spec fn wf(self) -> bool {
        self.total_votes == self.votes.len()
    }

    /// The two agree on every field that is fixed when the event is created.
    pub open spec fn same_record(self, other: EventView) -> bool {
        &&& self.id == other.id
        &&& self.creator == other.creator
        &&& self.created_at == other.created_at
        &&& self.title == other.title
        &&& self.estimated_budget == other.estimated_budget
        &&& self.description == other.description
    }

    /// The event after one more vote, cast by `voter`.
    pub open spec fn voted(self, voter: Seq<char>) -> EventView {
        EventView { total_votes: self.total_votes + 1, votes: self.votes.push(voter), ..self }
    }
}

/// The views of a sequence of strings.
pub open spec fn strings_view(s: Seq<String>) -> Seq<Seq<char>> {
    s.map_values(|x: String| x@)
}

/// A proposal that callers can vote for.
pub struct Event {
    id: i32,
    creator: String,
    created_at: u64,
    title: String,
    estimated_budget: u128,
    total_votes: i64,
    description: String,
    votes: Vec<String>,
}

impl View for Event {
    type V = EventView;

    closed spec fn view(&self) -> EventView {
        EventView {
            id: self.id as int,
            creator: self.creator@,
            created_at: self.created_at as nat,
            title: self.title@,
            estimated_budget: self.estimated_budget as nat,
            total_votes: self.total_votes as int,
            description: self.description@,
            votes: strings_view(self.votes@),
        }
    }
}

impl Event {
    /// A new event with no votes, created by `creator` at time `created_at`.
    pub fn new(
        id: i32,
        title: String,
        estimated_budget: u128,
        description: String,
        creator: String,
        created_at: u64,
    ) -> (r: Event)
        ensures
            r@ == (EventView {
                id: id as int,
                creator: creator@,
                created_at: created_at as nat,
                title: title@,
                estimated_budget: estimated_budget as nat,
                total_votes: 0,
                description: description@,
                votes: Seq::empty(),
            }),
    {
        let r = Event {
            id,
            creator,
            created_at,
            title,
            estimated_budget,
            total_votes: 0,
            description,
            votes: Vec::new(),
        };
        assert(strings_view(r.votes@) =~= Seq::empty());
        r
    }

    /// An event as it was stored: its tally is the number of `votes`.
    pub fn restore(
        id: i32,
        creator: String,
        created_at: u64,
        title: String,
        estimated_budget: u128,
        description: String,
        votes: Vec<String>,
    ) -> (r: Event)
        requires
            votes@.len() <= i64::MAX,
        ensures
            r@ == (EventView {
                id: id as int,
                creator: creator@,
                created_at: created_at as nat,
                title: title@,
                estimated_budget: estimated_budget as nat,
                total_votes: votes@.len() as int,
                description: description@,
                votes: strings_view(votes@),
            }),
            r@.wf(),
    {
        let total_votes = votes.len() as i64;
        Event {
            id,
            creator,
            created_at,
            title,
            estimated_budget,
            total_votes,
            description,
            votes,
        }
    }

    /// Counts one more vote, cast by `voter`.
    pub(crate) fn record_vote(&mut self, voter: String)
        requires
            old(self)@.wf(),
            old(self)@.votes.len() < i64::MAX,
        ensures
            final(self)@ == old(self)@.voted(voter@),
    {
        self.total_votes = self.total_votes + 1;
        self.votes.push(voter);
        assert(strings_view(self.votes@) =~= old(self)@.votes.push(voter@));
    }

    /// The event's id.
    pub fn id(&self) -> (r: i32)
        ensures
            r as int == self@.id,
    {
        self.id
    }

    /// Who created the event.
    pub fn creator(&self) -> (r: &String)
        ensures
            r@ == self@.creator,
    {
        &self.creator
    }

    /// When the event was created.
    pub fn created_at(&self) -> (r: u64)
        ensures
            r as nat == self@.created_at,
    {
        self.created_at
    }

    /// The event's title.
    pub fn title(&self) -> (r: &String)
        ensures
            r@ == self@.title,
    {
        &self.title
    }

    /// The estimated budget.
    pub fn estimated_budget(&self) -> (r: u128)
        ensures
            r as nat == self@.estimated_budget,
    {
        self.estimated_budget
    }

    /// The event's description.
    pub fn description(&self) -> (r: &String)
        ensures
            r@ == self@.description,
    {
        &self.description
    }

    /// Who voted for the event, once per vote, in the order of the votes.
    pub fn votes(&self) -> (r: &Vec<String>)
        ensures
            strings_view(r@) == self@.votes,
    {
        &self.votes
    }

    /// The number of votes cast for the event.
    pub fn total_votes(&self) -> (r: i64)
        ensures
            r == self@.total_votes,
    {
        self.total_votes
    }

    /// A copy of the event that later changes to this one do not reach.
    pub fn snapshot(&self) -> (r: Event)
        ensures
            r@ == self@,
    {
        let mut votes: Vec<String> = Vec::new();
        let mut i: usize = 0;
        while i < self.votes.len()
            invariant
                i <= self.votes@.len(),
                votes@.len() == i,
                forall|j: int| 0 <= j < i ==> #[trigger] votes@[j]@ == self.votes@[j]@,
            decreases self.votes@.len() - i,
        {
            votes.push(self.votes[i].clone());
            i = i + 1;
        }
        assert(strings_view(votes@) =~= strings_view(self.votes@));
        Event {
            id: self.id,
            creator: self.creator.clone(),
            created_at: self.created_at,
            title: self.title.clone(),
            estimated_budget: self.estimated_budget,
            total_votes: self.total_votes,
            description: self.description.clone(),
            votes,
        }
    }
}

} // verus!
