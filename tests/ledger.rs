use event_ledger::{Contract, Event, LedgerError};

fn s(x: &str) -> String {
    x.to_string()
}

fn art_show(contract: &mut Contract, caller: &str) -> usize {
    contract.add_event(s("Art Show"), 200, s("desc"), s(caller), 7)
}

#[test]
fn add_project() {
    let alice = s("alice.testnet");
    let mut contract = Contract::new(alice.clone());

    contract.add_event(
        "New Contemporary Art Show".to_string(),
        200,
        "Amazing selection of
            international artists from all over the world"
            .to_string(),
        alice,
        0,
    );

    let result = contract.event_count();

    assert_eq!(result, 1);
}

#[test]
fn add_voter() {
    let alice = s("alice.testnet");
    let mut contract = Contract::new(alice.clone());

    contract.add_event(
        "New Contemporary Art Show".to_string(),
        200,
        "Amazing selection of
        international artists from all over the world"
            .to_string(),
        alice.clone(),
        0,
    );

    contract.add_vote(0, alice).unwrap();

    let result = contract.get_total_votes(0).unwrap();

    assert_eq!(result, 1);
}

#[test]
fn create_and_list_one_event() {
    let mut contract = Contract::new(s("alice"));
    let id = art_show(&mut contract, "alice");
    assert_eq!(id, 0);
    assert_eq!(contract.event_count(), 1);
    let events = contract.list_events();
    assert_eq!(events[0].title(), "Art Show");
    assert_eq!(events[0].estimated_budget(), 200);
    assert_eq!(events[0].description(), "desc");
    assert_eq!(events[0].creator(), "alice");
    assert_eq!(events[0].created_at(), 7);
    assert_eq!(events[0].id(), 0);
    assert_eq!(events[0].total_votes(), 0);
    assert!(events[0].votes().is_empty());
    assert_eq!(contract.owner(), "alice");
}

#[test]
fn first_vote_is_recorded() {
    let mut contract = Contract::new(s("alice"));
    art_show(&mut contract, "alice");
    assert_eq!(contract.add_vote(0, s("bob")), Ok(()));
    assert_eq!(contract.get_total_votes(0), Ok(1));
    assert_eq!(contract.list_events()[0].votes(), &vec![s("bob")]);
}

#[test]
fn repeated_vote_is_counted_twice() {
    let mut contract = Contract::new(s("alice"));
    art_show(&mut contract, "alice");
    contract.add_vote(0, s("bob")).unwrap();
    contract.add_vote(0, s("bob")).unwrap();
    assert_eq!(contract.get_total_votes(0), Ok(2));
    assert_eq!(contract.list_events()[0].votes(), &vec![s("bob"), s("bob")]);
}

#[test]
fn vote_for_missing_event_is_refused() {
    let mut contract = Contract::new(s("alice"));
    art_show(&mut contract, "alice");
    contract.add_vote(0, s("bob")).unwrap();
    assert_eq!(contract.add_vote(5, s("carol")), Err(LedgerError::InvalidReference));
    assert_eq!(contract.get_total_votes(0), Ok(1));
    assert_eq!(contract.event_count(), 1);
    assert_eq!(contract.list_events()[0].votes(), &vec![s("bob")]);
}

#[test]
fn total_votes_for_missing_event_is_refused() {
    let mut contract = Contract::new(s("alice"));
    assert_eq!(contract.get_total_votes(0), Err(LedgerError::InvalidReference));
    art_show(&mut contract, "alice");
    assert_eq!(contract.get_total_votes(1), Err(LedgerError::InvalidReference));
    assert_eq!(contract.add_vote(1, s("bob")), Err(LedgerError::InvalidReference));
    assert_eq!(contract.get_total_votes(usize::MAX), Err(LedgerError::InvalidReference));
}

#[test]
fn listing_is_a_snapshot() {
    let mut contract = Contract::new(s("alice"));
    contract.add_event(s("one"), 1, s("first"), s("alice"), 1);
    contract.add_event(s("two"), 2, s("second"), s("bob"), 2);
    let listed = contract.list_events();
    contract.add_event(s("three"), 3, s("third"), s("carol"), 3);
    contract.add_vote(0, s("dave")).unwrap();
    assert_eq!(listed.len(), 2);
    assert_eq!(listed[0].total_votes(), 0);
    assert!(listed[0].votes().is_empty());
    assert_eq!(contract.list_events().len(), 3);
}

#[test]
fn ids_follow_call_order() {
    let mut contract = Contract::new(s("alice"));
    for k in 0..5usize {
        let id = contract.add_event(format!("event {}", k), k as u128, s(""), s("alice"), k as u64);
        assert_eq!(id, k);
    }
    let events = contract.list_events();
    for (k, e) in events.iter().enumerate() {
        assert_eq!(e.id() as usize, k);
        assert_eq!(e.title(), &format!("event {}", k));
    }
}

#[test]
fn count_matches_listing() {
    let mut contract = Contract::new(s("alice"));
    assert_eq!(contract.event_count(), contract.list_events().len());
    for k in 0..4u64 {
        contract.add_event(s("e"), 0, s(""), s("x"), k);
        contract.add_vote(0, s("v")).unwrap();
        let _ = contract.add_vote(9, s("v"));
        assert_eq!(contract.event_count(), contract.list_events().len());
    }
}

#[test]
fn tally_matches_voter_list() {
    let mut contract = Contract::new(s("alice"));
    art_show(&mut contract, "alice");
    art_show(&mut contract, "bob");
    let ballots = [0usize, 1, 1, 0, 1, 3];
    for b in ballots {
        let _ = contract.add_vote(b, format!("voter {}", b));
        for (id, e) in contract.list_events().iter().enumerate() {
            assert_eq!(contract.get_total_votes(id), Ok(e.votes().len() as u64));
            assert_eq!(e.total_votes() as usize, e.votes().len());
        }
    }
    assert_eq!(contract.get_total_votes(0), Ok(2));
    assert_eq!(contract.get_total_votes(1), Ok(3));
}

#[test]
fn votes_leave_record_fields_alone() {
    let mut contract = Contract::new(s("alice"));
    contract.add_event(s("one"), 10, s("first"), s("alice"), 100);
    contract.add_event(s("two"), 20, s("second"), s("bob"), 200);
    let before = contract.list_events();
    contract.add_vote(0, s("x")).unwrap();
    contract.add_vote(1, s("y")).unwrap();
    contract.add_vote(0, s("z")).unwrap();
    let after = contract.list_events();
    for (a, b) in before.iter().zip(after.iter()) {
        assert_eq!(a.id(), b.id());
        assert_eq!(a.title(), b.title());
        assert_eq!(a.description(), b.description());
        assert_eq!(a.estimated_budget(), b.estimated_budget());
        assert_eq!(a.creator(), b.creator());
        assert_eq!(a.created_at(), b.created_at());
    }
    assert_eq!(after[0].votes(), &vec![s("x"), s("z")]);
}

#[test]
fn empty_fields_and_zero_budget_are_accepted() {
    let mut contract = Contract::new(s(""));
    let id = contract.add_event(s(""), 0, s(""), s(""), 0);
    assert_eq!(id, 0);
    let e = &contract.list_events()[0];
    assert_eq!(e.title(), "");
    assert_eq!(e.estimated_budget(), 0);
}

#[test]
fn largest_budget_is_kept() {
    let mut contract = Contract::new(s("alice"));
    contract.add_event(s("big"), u128::MAX, s(""), s("alice"), u64::MAX);
    let e = &contract.list_events()[0];
    assert_eq!(e.estimated_budget(), u128::MAX);
    assert_eq!(e.created_at(), u64::MAX);
}

#[test]
fn restore_round_trip() {
    let mut contract = Contract::new(s("alice"));
    art_show(&mut contract, "alice");
    contract.add_vote(0, s("bob")).unwrap();
    let restored = Contract::restore(contract.owner().clone(), contract.list_events()).unwrap();
    assert_eq!(restored.owner(), "alice");
    assert_eq!(restored.event_count(), 1);
    assert_eq!(restored.get_total_votes(0), Ok(1));
}

#[test]
fn restore_refuses_misplaced_id() {
    let e = Event::restore(3, s("a"), 0, s("t"), 1, s("d"), vec![]);
    assert!(Contract::restore(s("alice"), vec![e]).is_none());
}

#[test]
fn restored_event_counts_its_voters() {
    let e = Event::restore(0, s("a"), 5, s("t"), 1, s("d"), vec![s("x"), s("y")]);
    assert_eq!(e.total_votes(), 2);
    let c = Contract::restore(s("alice"), vec![e]).unwrap();
    assert_eq!(c.get_total_votes(0), Ok(2));
}

#[test]
fn new_event_has_no_votes() {
    let e = Event::new(4, s("t"), 9, s("d"), s("carol"), 11);
    assert_eq!(e.id(), 4);
    assert_eq!(e.creator(), "carol");
    assert_eq!(e.total_votes(), 0);
    let copy = e.snapshot();
    assert_eq!(copy.title(), "t");
    assert_eq!(copy.created_at(), 11);
}
