use vstd::prelude::*;

use crate::ledger::LedgerView;

verus! {

/// What one call of `add_event` is given.
pub struct NewEvent {
    pub title: Seq<char>,
    pub estimated_budget: nat,
    pub description: Seq<char>,
    pub creator: Seq<char>,
    pub now: nat,
}

/// One call of `add_vote`: the event id it names and the caller.
pub struct Ballot {
    pub id: int,
    pub voter: Seq<char>,
}

/// The ledger after the additions `adds`, made in order.
pub open spec fn after_additions(l: LedgerView, adds: Seq<NewEvent>) -> LedgerView
    decreases adds.len(),
{
    if adds.len() == 0 {
        l
    } else {
        let a = adds.last();
        after_additions(l, adds.drop_last()).with_event(
            a.title,
            a.estimated_budget,
            a.description,
            a.creator,
            a.now,
        )
    }
}

/// The ledger after the votes `ballots`, cast in order; a ballot that names
/// no event changes nothing.
pub open spec fn after_votes(l: LedgerView, ballots: Seq<Ballot>) -> LedgerView
    decreases ballots.len(),
{
    if ballots.len() == 0 {
        l
    } else {
        let prev = after_votes(l, ballots.drop_last());
        let b = ballots.last();
        if 0 <= b.id < prev.events.len() {
            prev.with_vote(b.id, b.voter)
        } else {
            prev
        }
    }
}

/// Additions keep a well-formed ledger well formed, keep the events it had,
/// and number the new ones on from there in the order they were added.
pub proof fn lemma_additions_extend(l: LedgerView, adds: Seq<NewEvent>)
    requires
        l.wf(),
    ensures
        after_additions(l, adds).wf(),
        after_additions(l, adds).owner == l.owner,
        after_additions(l, adds).events.len() == l.events.len() + adds.len(),
        forall|i: int|
            0 <= i < l.events.len() ==> #[trigger] after_additions(l, adds).events[i]
                == l.events[i],
        forall|k: int|
            0 <= k < adds.len() ==> #[trigger] after_additions(l, adds).events[l.events.len()
                + k].id == l.events.len() + k,
    decreases adds.len(),
{
    if adds.len() > 0 {
        let prefix = adds.drop_last();
        lemma_additions_extend(l, prefix);
        let prev = after_additions(l, prefix);
        let cur = after_additions(l, adds);
        assert forall|k: int| 0 <= k < adds.len() implies #[trigger] cur.events[l.events.len()
            + k].id == l.events.len() + k by {
            if k < prefix.len() {
                assert(prev.events[l.events.len() + k].id == l.events.len() + k);
            }
        }
        assert forall|i: int| 0 <= i < cur.events.len() implies (#[trigger] cur.events[i]).wf()
            && cur.events[i].id == i by {
            if i < prev.events.len() {
                assert(prev.events[i].wf());
            }
        }
    }
}

/// Ids are dense: starting from an empty ledger, the call of `add_event`
/// at position `k` returns `k` (the number of events before it), and after
/// N additions the events carry the ids 0 to N - 1 in the order they were
/// added.
pub proof fn lemma_ids_dense(owner: Seq<char>, adds: Seq<NewEvent>)
    ensures
        after_additions(LedgerView::empty(owner), adds).events.len() == adds.len(),
        forall|k: int|
            0 <= k < adds.len() ==> #[trigger] after_additions(
                LedgerView::empty(owner),
                adds.take(k),
            ).events.len() == k,
        forall|k: int|
            0 <= k < adds.len() ==> #[trigger] after_additions(
                LedgerView::empty(owner),
                adds,
            ).events[k].id == k,
{
    let l = LedgerView::empty(owner);
    lemma_additions_extend(l, adds);
    assert forall|k: int| 0 <= k < adds.len() implies #[trigger] after_additions(
        l,
        adds.take(k),
    ).events.len() == k by {
        lemma_additions_extend(l, adds.take(k));
    }
    assert forall|k: int| 0 <= k < adds.len() implies #[trigger] after_additions(
        l,
        adds,
    ).events[k].id == k by {
        assert(after_additions(l, adds).events[l.events.len() + k].id == l.events.len() + k);
    }
}

/// Votes change no event's id, creator, creation time, title, budget or
/// description, add or remove no event, and keep every tally equal to the
/// number of recorded voters.
pub proof fn lemma_votes_keep_records(l: LedgerView, ballots: Seq<Ballot>)
    requires
        l.wf(),
    ensures
        after_votes(l, ballots).wf(),
        after_votes(l, ballots).owner == l.owner,
        after_votes(l, ballots).events.len() == l.events.len(),
        forall|i: int|
            0 <= i < l.events.len() ==> (#[trigger] after_votes(l, ballots).events[i]).same_record(
                l.events[i],
            ),
    decreases ballots.len(),
{
    if ballots.len() > 0 {
        let prefix = ballots.drop_last();
        lemma_votes_keep_records(l, prefix);
        let prev = after_votes(l, prefix);
        let cur = after_votes(l, ballots);
        assert forall|i: int| 0 <= i < l.events.len() implies (
        #[trigger] cur.events[i]).same_record(l.events[i]) by {
            assert(prev.events[i].same_record(l.events[i]));
        }
        assert forall|i: int| 0 <= i < cur.events.len() implies (#[trigger] cur.events[i]).wf()
            && cur.events[i].id == i by {
            assert(prev.events[i].wf());
        }
    }
}

} // verus!
