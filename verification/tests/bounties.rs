use sputnikdao2::bounties::ClaimHandle;
use sputnikdao2::BountyClaim;
use sputnikdao2::types::{ONE_DAY, ONE_TOKEN};
use sputnikdao2::{
    Action, Bounty, BountyBoard, Config, Contract, DaoError, Env, ProposalInput, ProposalKind,
    ProposalStatus, VersionedPolicy,
};

fn bounty(times: u32, duration: u64) -> Bounty {
    Bounty {
        id: 77,
        description: "work".to_string(),
        token: "".to_string(),
        amount: 10,
        times,
        max_deadline_duration: duration,
    }
}

fn env(actor: &str, now: u64) -> Env {
    Env { actor: actor.to_string(), actor_weight: 0, total_supply: 0, now, attached_deposit: ONE_TOKEN }
}

/// An organization with `bob` as its council and one bounty, opened by an
/// approved proposal.
fn with_bounty(times: u32, duration: u64, max_claims: u32) -> Contract {
    let mut config = Config::test_config();
    config.max_claims_per_actor = max_claims;
    let mut contract = Contract::new(config, VersionedPolicy::Default(vec!["bob".to_string()]), 0);
    let id = contract
        .add_proposal(
            &env("bob", 0),
            ProposalInput {
                description: "open".to_string(),
                kind: ProposalKind::AddBounty { bounty: bounty(times, duration) },
            },
        )
        .unwrap();
    contract.act_proposal(&env("bob", 0), id, Action::VoteApprove).unwrap();
    contract
}

#[test]
fn an_approved_bounty_is_opened_under_the_next_id() {
    let contract = with_bounty(2, 100, 1);
    assert_eq!(contract.get_last_bounty_id(), 1);
    let b = contract.get_bounty(0).unwrap();
    assert_eq!(b.id, 0);
    assert_eq!(b.description, "work");
    assert_eq!(b.amount, 10);
    assert_eq!(b.times, 2);
    assert_eq!(b.max_deadline_duration, 100);
    assert!(contract.get_bounty(1).is_none());
    assert_eq!(contract.get_bounty_slots_left(0, 0), Some(2));
    assert_eq!(contract.get_bounty_slots_left(1, 0), None);
}

#[test]
fn one_slot_is_claimed_once_until_the_deadline() {
    let mut contract = with_bounty(1, 100, 1);
    let a = contract.claim_bounty(&env("alice", 10), 0).unwrap();
    assert_eq!(a, ClaimHandle { bounty_id: 0, start_time: 10, deadline: 110 });
    assert_eq!(contract.claim_bounty(&env("bob", 20), 0), Err(DaoError::NoSlotsAvailable));
    assert_eq!(contract.claim_bounty(&env("bob", 109), 0), Err(DaoError::NoSlotsAvailable));
    // at the deadline the claim still holds the slot
    assert_eq!(contract.claim_bounty(&env("bob", 110), 0), Err(DaoError::NoSlotsAvailable));
    assert_eq!(contract.get_bounty_number_of_claims(0, 110), 1);
    assert_eq!(contract.data().board.claims.len(), 1);
    // past the deadline the claim is void
    let b = contract.claim_bounty(&env("bob", 111), 0).unwrap();
    assert_eq!(b, ClaimHandle { bounty_id: 0, start_time: 111, deadline: 211 });
    assert_eq!(contract.get_bounty_number_of_claims(0, 111), 1);
    // the stale claim is still on the board
    assert_eq!(contract.data().board.claims.len(), 2);
}

#[test]
fn a_stale_claim_seen_by_a_query_does_not_hold_a_slot() {
    let mut contract = with_bounty(2, 100, 1);
    contract.claim_bounty(&env("alice", 0), 0).unwrap();
    contract.claim_bounty(&env("bob", 50), 0).unwrap();
    assert_eq!(contract.get_bounty_number_of_claims(0, 60), 2);
    assert_eq!(contract.get_bounty_slots_left(0, 60), Some(0));
    assert_eq!(contract.get_bounty_number_of_claims(0, 100), 2);
    assert_eq!(contract.get_bounty_slots_left(0, 100), Some(0));
    assert_eq!(contract.get_bounty_number_of_claims(0, 101), 1);
    assert_eq!(contract.get_bounty_slots_left(0, 101), Some(1));
    assert_eq!(contract.get_bounty_number_of_claims(0, 150), 1);
    assert_eq!(contract.get_bounty_number_of_claims(0, 151), 0);
    assert_eq!(contract.get_bounty_slots_left(0, 151), Some(2));
    assert_eq!(contract.get_bounty_number_of_claims(5, 0), 0);
    // the queries changed nothing
    assert_eq!(contract.data().board.claims.len(), 2);
    assert_eq!(contract.get_bounty_claims(&"alice".to_string()).len(), 1);
    // and a claim after them counts the live ones only
    contract.claim_bounty(&env("charlie", 120), 0).unwrap();
    assert_eq!(contract.get_bounty_number_of_claims(0, 120), 2);
    assert_eq!(contract.claim_bounty(&env("danny", 120), 0), Err(DaoError::NoSlotsAvailable));
}

#[test]
fn live_claims_never_exceed_the_slots() {
    let mut contract = with_bounty(2, 10, 5);
    let actors = ["alice", "bob", "charlie", "danny"];
    let mut now: u64 = 0;
    for round in 0..40u64 {
        let actor = actors[(round % 4) as usize];
        match round % 5 {
            0 | 1 | 3 => {
                let _ = contract.claim_bounty(&env(actor, now), 0);
            },
            2 => {
                let _ = contract.unclaim_bounty(&env(actor, now), 0);
            },
            _ => {
                let _ = contract.complete_bounty(&env(actor, now), 0, "done".to_string());
            },
        }
        assert!(contract.get_bounty_number_of_claims(0, now) <= 2);
        now += 3;
        assert!(contract.get_bounty_number_of_claims(0, now) <= 2);
    }
}

#[test]
fn an_actor_holds_no_more_claims_than_allowed() {
    let mut contract = with_bounty(5, 100, 2);
    contract.claim_bounty(&env("alice", 0), 0).unwrap();
    contract.claim_bounty(&env("alice", 1), 0).unwrap();
    assert_eq!(contract.claim_bounty(&env("alice", 2), 0), Err(DaoError::AlreadyMaxClaims));
    assert_eq!(contract.data().board.claims.len(), 2);
    // the limit comes before the slots, and counts live claims only
    assert_eq!(contract.claim_bounty(&env("alice", 100), 0), Err(DaoError::AlreadyMaxClaims));
    let h = contract.claim_bounty(&env("alice", 101), 0).unwrap();
    assert_eq!(h.deadline, 201);
    let zero = with_bounty(1, 1, 0).claim_bounty(&env("alice", 0), 0);
    assert_eq!(zero, Err(DaoError::AlreadyMaxClaims));
}

#[test]
fn claims_on_missing_bounties_and_beyond_time_are_refused() {
    let mut contract = with_bounty(1, 100, 1);
    assert_eq!(contract.claim_bounty(&env("alice", 0), 1), Err(DaoError::BountyNotFound));
    assert_eq!(
        contract.claim_bounty(&env("alice", u64::MAX - 99), 0),
        Err(DaoError::AccountingCorruption)
    );
    let h = contract.claim_bounty(&env("alice", u64::MAX - 100), 0).unwrap();
    assert_eq!(h.deadline, u64::MAX);
    let mut none = with_bounty(0, 100, 1);
    assert_eq!(none.claim_bounty(&env("alice", 0), 0), Err(DaoError::NoSlotsAvailable));
}

#[test]
fn unclaim_frees_the_slot_at_once() {
    let mut contract = with_bounty(1, 100, 1);
    contract.claim_bounty(&env("alice", 10), 0).unwrap();
    assert_eq!(contract.unclaim_bounty(&env("bob", 20), 0), Err(DaoError::ClaimNotFound));
    assert_eq!(contract.unclaim_bounty(&env("alice", 20), 1), Err(DaoError::ClaimNotFound));
    assert_eq!(contract.data().board.claims.len(), 1);
    assert_eq!(contract.claim_bounty(&env("bob", 20), 0), Err(DaoError::NoSlotsAvailable));
    let h = contract.unclaim_bounty(&env("alice", 20), 0).unwrap();
    assert_eq!(h, ClaimHandle { bounty_id: 0, start_time: 10, deadline: 110 });
    assert_eq!(contract.data().board.claims.len(), 0);
    assert_eq!(contract.get_bounty_number_of_claims(0, 20), 0);
    contract.claim_bounty(&env("bob", 20), 0).unwrap();
    // at the deadline the claim can still be given up, past it there is none to give up
    assert_eq!(contract.unclaim_bounty(&env("bob", 121), 0), Err(DaoError::ClaimNotFound));
    assert_eq!(contract.data().board.claims.len(), 1);
    let h = contract.unclaim_bounty(&env("bob", 120), 0).unwrap();
    assert_eq!(h.start_time, 20);
    assert_eq!(contract.unclaim_bounty(&env("bob", 120), 0), Err(DaoError::ClaimNotFound));
}

#[test]
fn unclaim_releases_the_live_claim_beside_a_stale_one() {
    // one slot, ten units of time for each claim
    let mut contract = with_bounty(1, 10, 2);
    contract.claim_bounty(&env("alice", 0), 0).unwrap();
    let second = contract.claim_bounty(&env("alice", 20), 0).unwrap();
    assert_eq!(second, ClaimHandle { bounty_id: 0, start_time: 20, deadline: 30 });
    assert_eq!(contract.get_bounty_number_of_claims(0, 20), 1);
    assert_eq!(contract.claim_bounty(&env("bob", 20), 0), Err(DaoError::NoSlotsAvailable));
    // giving up releases the live claim, not the stale one before it
    let h = contract.unclaim_bounty(&env("alice", 20), 0).unwrap();
    assert_eq!(h, second);
    assert_eq!(contract.get_bounty_number_of_claims(0, 20), 0);
    assert_eq!(
        contract.get_bounty_claims(&"alice".to_string()),
        vec![ClaimHandle { bounty_id: 0, start_time: 0, deadline: 10 }]
    );
    // the slot is free for another at once
    let b = contract.claim_bounty(&env("bob", 20), 0).unwrap();
    assert_eq!(b, ClaimHandle { bounty_id: 0, start_time: 20, deadline: 30 });
    // alice has only the stale claim left: nothing to give up
    assert_eq!(contract.unclaim_bounty(&env("alice", 20), 0), Err(DaoError::ClaimNotFound));
}

#[test]
fn a_claim_given_up_at_once_leaves_the_board_as_it_was() {
    let mut contract = with_bounty(3, 100, 3);
    contract.claim_bounty(&env("alice", 0), 0).unwrap();
    contract.claim_bounty(&env("bob", 5), 0).unwrap();
    let before: Vec<(String, u64, u64)> = contract
        .data()
        .board
        .claims
        .iter()
        .map(|c| (c.claimer.clone(), c.start_time, c.deadline))
        .collect();
    // alice, who holds a live claim already, claims once more and gives up
    let made = contract.claim_bounty(&env("alice", 50), 0).unwrap();
    assert_eq!(contract.get_bounty_number_of_claims(0, 50), 3);
    assert_eq!(contract.claim_bounty(&env("charlie", 50), 0), Err(DaoError::NoSlotsAvailable));
    let gone = contract.unclaim_bounty(&env("alice", 50), 0).unwrap();
    assert_eq!(gone, made);
    let after: Vec<(String, u64, u64)> = contract
        .data()
        .board
        .claims
        .iter()
        .map(|c| (c.claimer.clone(), c.start_time, c.deadline))
        .collect();
    assert_eq!(after, before);
    assert_eq!(contract.get_bounty_number_of_claims(0, 50), 2);
    assert!(contract.claim_bounty(&env("charlie", 50), 0).is_ok());
}

#[test]
fn completing_takes_the_claim_and_submits_the_payout() {
    let mut contract = with_bounty(1, 100, 1);
    contract.claim_bounty(&env("alice", 10), 0).unwrap();
    let locked = contract.get_locked_amount();
    let id = contract.complete_bounty(&env("alice", 50), 0, "done".to_string()).unwrap();
    assert_eq!(id, 1);
    assert_eq!(contract.data().board.claims.len(), 0);
    assert_eq!(contract.get_locked_amount(), locked + ONE_TOKEN);
    let p = contract.get_proposal(id).unwrap();
    assert_eq!(p.proposer, "alice");
    assert_eq!(p.description, "done");
    assert_eq!(p.submission_time, 50);
    assert_eq!(p.status, ProposalStatus::InProgress);
    assert!(matches!(
        &p.kind,
        ProposalKind::BountyDone { bounty_id: 0, receiver_id } if receiver_id == "alice"
    ));
    // the council approves the payout, which the host carries out
    let out = contract.act_proposal(&env("bob", 60), id, Action::VoteApprove).unwrap();
    assert_eq!(out.status, ProposalStatus::Approved);
    assert_eq!(out.effect, sputnikdao2::proposals::Effect::Dispatch);
}

#[test]
fn completing_needs_a_live_claim_and_the_bond() {
    let mut contract = with_bounty(1, 100, 1);
    assert_eq!(
        contract.complete_bounty(&env("alice", 0), 0, "done".to_string()),
        Err(DaoError::ClaimNotFound)
    );
    contract.claim_bounty(&env("alice", 10), 0).unwrap();
    assert_eq!(
        contract.complete_bounty(&env("bob", 20), 0, "done".to_string()),
        Err(DaoError::ClaimNotFound)
    );
    assert_eq!(
        contract.complete_bounty(&env("alice", 111), 0, "late".to_string()),
        Err(DaoError::ClaimNotFound)
    );
    let mut poor = env("alice", 20);
    poor.attached_deposit = ONE_TOKEN - 1;
    assert_eq!(
        contract.complete_bounty(&poor, 0, "done".to_string()),
        Err(DaoError::InsufficientBond)
    );
    // nothing changed: the claim is still there, no proposal was added
    assert_eq!(contract.data().board.claims.len(), 1);
    assert_eq!(contract.get_last_proposal_id(), 1);
    assert!(contract.complete_bounty(&env("alice", 110), 0, "done".to_string()).is_ok());
}

#[test]
fn claims_are_listed_by_claimer_in_order() {
    let mut contract = with_bounty(3, 100, 3);
    contract.claim_bounty(&env("alice", 1), 0).unwrap();
    contract.claim_bounty(&env("bob", 2), 0).unwrap();
    contract.claim_bounty(&env("alice", 3), 0).unwrap();
    assert_eq!(
        contract.get_bounty_claims(&"alice".to_string()),
        vec![
            ClaimHandle { bounty_id: 0, start_time: 1, deadline: 101 },
            ClaimHandle { bounty_id: 0, start_time: 3, deadline: 103 },
        ]
    );
    assert_eq!(contract.get_bounty_claims(&"zed".to_string()), vec![]);
    // giving up takes the claimer's live claim that was made last
    let h = contract.unclaim_bounty(&env("alice", 4), 0).unwrap();
    assert_eq!(h, ClaimHandle { bounty_id: 0, start_time: 3, deadline: 103 });
    assert_eq!(
        contract.get_bounty_claims(&"alice".to_string()),
        vec![ClaimHandle { bounty_id: 0, start_time: 1, deadline: 101 }]
    );
    assert_eq!(contract.get_bounty_number_of_claims(0, 4), 2);
}

#[test]
fn the_board_on_its_own() {
    let mut board = BountyBoard::new();
    assert_eq!(board.add_bounty(bounty(1, 5)), Ok(0));
    assert_eq!(board.add_bounty(bounty(2, 7)), Ok(1));
    assert_eq!(board.bounties[1].id, 1);
    assert_eq!(board.claim("a".to_string(), 1, 0, 9), Ok(ClaimHandle { bounty_id: 1, start_time: 0, deadline: 7 }));
    assert_eq!(board.claim("a".to_string(), 0, 1, 9), Ok(ClaimHandle { bounty_id: 0, start_time: 1, deadline: 6 }));
    assert_eq!(board.live_claims(1, 7), 1);
    assert_eq!(board.live_claims(0, 6), 1);
    assert_eq!(board.live_claims(0, 7), 0);
    assert_eq!(board.live_claims_of(&"a".to_string(), 6), 2);
    assert_eq!(board.live_claims_of(&"a".to_string(), 7), 1);
    assert_eq!(board.live_claims_of(&"a".to_string(), 8), 0);
    assert_eq!(board.find_live_claim(&"a".to_string(), 0, 6), 1);
    assert_eq!(board.find_live_claim(&"a".to_string(), 0, 7), 2);
    assert_eq!(board.find_last_live_claim(&"a".to_string(), 0, 6), Some(1));
    assert_eq!(board.find_last_live_claim(&"a".to_string(), 0, 7), None);
    assert_eq!(board.find_last_live_claim(&"b".to_string(), 0, 6), None);
    assert_eq!(board.slots_left(1, 0), Some(1));
    assert_eq!(board.take_live_claim(&"a".to_string(), 0, 7), Err(DaoError::ClaimNotFound));
    assert_eq!(
        board.take_live_claim(&"a".to_string(), 0, 6),
        Ok(ClaimHandle { bounty_id: 0, start_time: 1, deadline: 6 })
    );
    assert_eq!(board.unclaim(&"a".to_string(), 1, 8), Err(DaoError::ClaimNotFound));
    assert_eq!(
        board.unclaim(&"a".to_string(), 1, 7),
        Ok(ClaimHandle { bounty_id: 1, start_time: 0, deadline: 7 })
    );
    assert_eq!(board.claims.len(), 0);
    assert!(board.check());
    assert_eq!(board.holders(1, 3), 0);
    let copy = board.bounties[1].duplicate();
    assert_eq!(copy.id, 1);
    assert_eq!(copy.times, 2);
    assert_eq!(copy.description, "work");
}

#[test]
fn forgiveness_is_a_day_in_the_test_config() {
    assert_eq!(Config::test_config().bounty_forgiveness_period, ONE_DAY);
    assert_eq!(Config::test_config().bounty_bond, ONE_TOKEN);
}

fn claim(bounty_id: u64, claimer: &str, start_time: u64, deadline: u64) -> BountyClaim {
    BountyClaim { bounty_id, claimer: claimer.to_string(), start_time, deadline }
}

#[test]
fn a_board_is_in_order_while_the_slots_suffice_at_every_time() {
    let mut board = BountyBoard::new();
    assert!(board.check());
    board.add_bounty(bounty(2, 10)).unwrap();
    board.add_bounty(bounty(1, 10)).unwrap();
    board.claims = vec![claim(0, "a", 0, 10), claim(0, "b", 5, 15), claim(0, "c", 11, 21)];
    assert_eq!(board.holders(0, 4), 1);
    assert_eq!(board.holders(0, 5), 2);
    assert_eq!(board.holders(0, 10), 2);
    assert_eq!(board.holders(0, 11), 2);
    assert_eq!(board.holders(0, 15), 2);
    assert_eq!(board.holders(0, 16), 1);
    assert_eq!(board.holders(0, 21), 1);
    assert_eq!(board.holders(0, 22), 0);
    assert_eq!(board.holders(1, 5), 0);
    assert!(board.check());
    // a claim that starts at the deadline of another, on a board with the slots in use
    board.claims.push(claim(0, "d", 15, 25));
    assert_eq!(board.holders(0, 15), 3);
    assert!(!board.check());
    board.claims.pop();
    // a third claim that overlaps both others
    board.claims.push(claim(0, "d", 9, 19));
    assert_eq!(board.holders(0, 9), 3);
    assert!(!board.check());
    board.claims.pop();
    // a claim on a bounty that is not there
    board.claims.push(claim(2, "d", 0, 1));
    assert!(!board.check());
    board.claims.pop();
    // two claims on a bounty of one slot, one after the other
    board.claims.push(claim(1, "d", 0, 10));
    board.claims.push(claim(1, "e", 11, 21));
    assert!(board.check());
    board.claims.push(claim(1, "f", 21, 31));
    assert!(!board.check());
    board.claims.pop();
    // a bounty that does not stand at the position of its id
    board.bounties[1].id = 0;
    assert!(!board.check());
}
