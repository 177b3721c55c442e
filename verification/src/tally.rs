//! The vote tally: from a vote rule, the ballots cast and the weights of
//! the electorate to an outcome.

use vstd::prelude::*;
use crate::policy::Threshold;
use crate::policy::VoteRule;
use crate::types::DaoError;

verus! {

/// Two to the sixty-fourth.
pub const TWO_64: u128 = 0x1_0000_0000_0000_0000;

/// The side a voter takes.
#[derive(Clone, Copy, Debug, PartialEq, Eq, Structural)]
pub enum Vote {
    Approve,
    Reject,
    Remove,
}

/// What a tally finds.
#[derive(Clone, Copy, Debug, PartialEq, Eq, Structural)]
pub enum Outcome {
    Pending,
    Approved,
    Rejected,
}

/// The vote of one voter with the weight it carries.
pub struct Ballot {
    pub voter: String,
    pub vote: Vote,
    pub weight: u128,
}

/// The sums a decision is taken from.
#[derive(Clone, Copy, Debug, PartialEq, Eq, Structural)]
pub struct Sums {
    /// Weight of the ballots that approve.
    pub approve_weight: u128,
    /// Weight of the ballots that reject.
    pub reject_weight: u128,
    /// Weight of all ballots.
    pub cast_weight: u128,
    /// Number of ballots that approve.
    pub approve_count: u128,
    /// Number of ballots that reject.
    pub reject_count: u128,
    /// Weight of the whole electorate.
    pub total_weight: u128,
}

/// Sum of a sequence of weights.
pub open spec fn sum_weights(ws: Seq<u128>) -> nat
    decreases ws.len(),
{
    if ws.len() == 0 {
        0
    } else {
        sum_weights(ws.drop_last()) + ws.last() as nat
    }
}

/// What one ballot adds to the weight of `side`.
pub open spec fn ballot_weight_for(b: Ballot, side: Vote) -> nat {
    if b.vote == side {
        b.weight as nat
    } else {
        0
    }
}

/// What one ballot adds to the number of votes for `side`.
pub open spec fn ballot_count_for(b: Ballot, side: Vote) -> nat {
    if b.vote == side {
        1
    } else {
        0
    }
}

/// Weight of the ballots for `side`.
pub open spec fn side_weight(votes: Seq<Ballot>, side: Vote) -> nat
    decreases votes.len(),
{
    if votes.len() == 0 {
        0
    } else {
        side_weight(votes.drop_last(), side) + ballot_weight_for(votes.last(), side)
    }
}

/// Number of the ballots for `side`.
pub open spec fn side_count(votes: Seq<Ballot>, side: Vote) -> nat
    decreases votes.len(),
{
    if votes.len() == 0 {
        0
    } else {
        side_count(votes.drop_last(), side) + ballot_count_for(votes.last(), side)
    }
}

/// Weight of all ballots, whatever their side.
pub open spec fn cast_weight(votes: Seq<Ballot>) -> nat
    decreases votes.len(),
{
    if votes.len() == 0 {
        0
    } else {
        cast_weight(votes.drop_last()) + votes.last().weight as nat
    }
}

/// Whether a side with this weight and this many votes meets the
/// threshold in an electorate of weight `total`.
pub open spec fn threshold_met(t: Threshold, weight: nat, count: nat, total: nat) -> bool {
    match t {
        Threshold::Ratio(n, d) => weight * (d as nat) >= (n as nat) * total,
        Threshold::FixedCount(c) => count >= c as nat,
    }
}

/// Whether the weight cast reaches the quorum, if there is one.
pub open spec fn quorum_met(quorum: Option<u128>, cast: nat) -> bool {
    match quorum {
        Some(q) => cast >= q as nat,
        None => true,
    }
}

/// The outcome for given sums: pending below the quorum; otherwise
/// rejected if the rejecting side meets the threshold, approved if only
/// the approving side does, and pending if neither does.
pub open spec fn outcome_for(
    rule: VoteRule,
    approve_weight: nat,
    reject_weight: nat,
    approve_count: nat,
    reject_count: nat,
    cast: nat,
    total: nat,
) -> Outcome {
    if !quorum_met(rule.quorum, cast) {
        Outcome::Pending
    } else if threshold_met(rule.threshold, reject_weight, reject_count, total) {
        Outcome::Rejected
    } else if threshold_met(rule.threshold, approve_weight, approve_count, total) {
        Outcome::Approved
    } else {
        Outcome::Pending
    }
}

/// The outcome of a tally of `votes` in an electorate with the weights
/// `electorate`.
pub open spec fn tally_outcome(rule: VoteRule, votes: Seq<Ballot>, electorate: Seq<u128>) -> Outcome {
    outcome_for(
        rule,
        side_weight(votes, Vote::Approve),
        side_weight(votes, Vote::Reject),
        side_count(votes, Vote::Approve),
        side_count(votes, Vote::Reject),
        cast_weight(votes),
        sum_weights(electorate),
    )
}

/// Under a threshold `Ratio(n, d)` a tally finds an approval only where
/// the weight cast reaches the quorum, if there is one, and the approving
/// weight times `d` reaches `n` times the weight of the whole electorate.
pub proof fn lemma_approval_needs_quorum_and_ratio(
    rule: VoteRule,
    votes: Seq<Ballot>,
    electorate: Seq<u128>,
    n: u64,
    d: u64,
)
    requires
        rule.threshold == Threshold::Ratio(n, d),
        tally_outcome(rule, votes, electorate) == Outcome::Approved,
    ensures
        rule.quorum matches Some(q) ==> cast_weight(votes) >= q,
        side_weight(votes, Vote::Approve) * d >= n * sum_weights(electorate),
{
}

/// The product of `a` and `b` as `hi * 2^64 + lo`.
pub fn wide_mul(a: u128, b: u64) -> (r: (u128, u64))
    ensures
        r.0 * TWO_64 + r.1 == a * b,
{
    let a_hi: u128 = a / TWO_64;
    let a_lo: u128 = a % TWO_64;
    let wide_b: u128 = b as u128;
    assert(a_hi * wide_b <= (TWO_64 - 1) * (TWO_64 - 1)) by (nonlinear_arith)
        requires
            a_hi <= TWO_64 - 1,
            wide_b <= TWO_64 - 1,
    ;
    assert(a_lo * wide_b <= (TWO_64 - 1) * (TWO_64 - 1)) by (nonlinear_arith)
        requires
            a_lo <= TWO_64 - 1,
            wide_b <= TWO_64 - 1,
    ;
    let upper: u128 = a_hi * wide_b;
    let lower: u128 = a_lo * wide_b;
    let carry: u128 = lower / TWO_64;
    let lo: u128 = lower % TWO_64;
    let hi: u128 = upper + carry;
    assert(hi * TWO_64 + lo == a * b) by (nonlinear_arith)
        requires
            a == a_hi * TWO_64 + a_lo,
            upper == a_hi * wide_b,
            lower == a_lo * wide_b,
            lower == carry * TWO_64 + lo,
            hi == upper + carry,
            wide_b == b,
    ;
    (hi, lo as u64)
}

/// Whether `weight * d >= n * total`, computed without overflow.
pub fn ratio_met(weight: u128, n: u64, d: u64, total: u128) -> (met: bool)
    ensures
        met == (weight * d >= n * total),
{
    let left: (u128, u64) = wide_mul(weight, d);
    let right: (u128, u64) = wide_mul(total, n);
    assert(n * total == total * n) by (nonlinear_arith);
    left.0 > right.0 || (left.0 == right.0 && left.1 >= right.1)
}

/// Whether a side meets the threshold.
pub fn meets_threshold(t: &Threshold, weight: u128, count: u128, total: u128) -> (met: bool)
    ensures
        met == threshold_met(*t, weight as nat, count as nat, total as nat),
{
    match t {
        Threshold::Ratio(n, d) => ratio_met(weight, *n, *d, total),
        Threshold::FixedCount(c) => count >= *c,
    }
}

/// Decides from the sums. An approval is only ever found with the quorum
/// met and the approving side at the threshold.
pub fn decide(rule: &VoteRule, sums: &Sums) -> (outcome: Outcome)
    ensures
        outcome == outcome_for(
            *rule,
            sums.approve_weight as nat,
            sums.reject_weight as nat,
            sums.approve_count as nat,
            sums.reject_count as nat,
            sums.cast_weight as nat,
            sums.total_weight as nat,
        ),
        outcome == Outcome::Approved ==> quorum_met(rule.quorum, sums.cast_weight as nat)
            && threshold_met(
            rule.threshold,
            sums.approve_weight as nat,
            sums.approve_count as nat,
            sums.total_weight as nat,
        ),
{
    let enough: bool = match rule.quorum {
        Some(q) => sums.cast_weight >= q,
        None => true,
    };
    if !enough {
        Outcome::Pending
    } else if meets_threshold(&rule.threshold, sums.reject_weight, sums.reject_count, sums.total_weight) {
        Outcome::Rejected
    } else if meets_threshold(&rule.threshold, sums.approve_weight, sums.approve_count, sums.total_weight) {
        Outcome::Approved
    } else {
        Outcome::Pending
    }
}

/// The weight of a part of the electorate is at most that of the whole.
pub proof fn lemma_sum_weights_prefix(ws: Seq<u128>, i: int)
    requires
        0 <= i <= ws.len(),
    ensures
        sum_weights(ws.take(i)) <= sum_weights(ws),
    decreases ws.len(),
{
    if i == ws.len() {
        assert(ws.take(i) == ws);
    } else {
        assert(ws.take(i) == ws.drop_last().take(i));
        lemma_sum_weights_prefix(ws.drop_last(), i);
    }
}

/// The weight cast by the first ballots is at most the weight cast by all.
pub proof fn lemma_cast_weight_prefix(votes: Seq<Ballot>, i: int)
    requires
        0 <= i <= votes.len(),
    ensures
        cast_weight(votes.take(i)) <= cast_weight(votes),
    decreases votes.len(),
{
    if i == votes.len() {
        assert(votes.take(i) == votes);
    } else {
        assert(votes.take(i) == votes.drop_last().take(i));
        lemma_cast_weight_prefix(votes.drop_last(), i);
    }
}

/// No side weighs more than all ballots together, and no side has more
/// votes than there are ballots.
pub proof fn lemma_side_within_cast(votes: Seq<Ballot>, side: Vote)
    ensures
        side_weight(votes, side) <= cast_weight(votes),
        side_count(votes, side) <= votes.len(),
    decreases votes.len(),
{
    if votes.len() > 0 {
        lemma_side_within_cast(votes.drop_last(), side);
    }
}

/// A ballot that takes the place of another changes the sums by the
/// difference between the two: the weight of the one replaced is not
/// counted any more.
pub proof fn lemma_replace_ballot(votes: Seq<Ballot>, i: int, b: Ballot, side: Vote)
    requires
        0 <= i < votes.len(),
    ensures
        side_weight(votes.update(i, b), side) + ballot_weight_for(votes[i], side) == side_weight(
            votes,
            side,
        ) + ballot_weight_for(b, side),
        side_count(votes.update(i, b), side) + ballot_count_for(votes[i], side) == side_count(
            votes,
            side,
        ) + ballot_count_for(b, side),
        cast_weight(votes.update(i, b)) + votes[i].weight == cast_weight(votes) + b.weight,
    decreases votes.len(),
{
    if i == votes.len() - 1 {
        assert(votes.update(i, b).drop_last() == votes.drop_last());
    } else {
        assert(votes.update(i, b).drop_last() == votes.drop_last().update(i, b));
        lemma_replace_ballot(votes.drop_last(), i, b, side);
    }
}

/// The weight of the whole electorate, or `None` where it does not fit.
pub fn total_weight(electorate: &Vec<u128>) -> (total: Option<u128>)
    ensures
        match total {
            Some(t) => t == sum_weights(electorate@),
            None => sum_weights(electorate@) > u128::MAX,
        },
{
    let mut acc: u128 = 0;
    let mut i: usize = 0;
    while i < electorate.len()
        invariant
            i <= electorate.len(),
            acc == sum_weights(electorate@.take(i as int)),
        decreases electorate.len() - i,
    {
        let next: Option<u128> = acc.checked_add(electorate[i]);
        proof {
            assert(electorate@.take(i + 1).drop_last() == electorate@.take(i as int));
            lemma_sum_weights_prefix(electorate@, i + 1);
        }
        match next {
            Some(n) => {
                acc = n;
            },
            None => {
                return None;
            },
        }
        i = i + 1;
    }
    assert(electorate@.take(electorate.len() as int) == electorate@);
    Some(acc)
}

/// The sums over the ballots, with `total` as the electorate's weight,
/// or `None` where the weight cast does not fit.
pub fn sum_ballots(votes: &Vec<Ballot>, total: u128) -> (sums: Option<Sums>)
    ensures
        match sums {
            Some(s) => {
                &&& s.approve_weight == side_weight(votes@, Vote::Approve)
                &&& s.reject_weight == side_weight(votes@, Vote::Reject)
                &&& s.approve_count == side_count(votes@, Vote::Approve)
                &&& s.reject_count == side_count(votes@, Vote::Reject)
                &&& s.cast_weight == cast_weight(votes@)
                &&& s.total_weight == total
            },
            None => cast_weight(votes@) > u128::MAX,
        },
{
    let mut approve_weight: u128 = 0;
    let mut reject_weight: u128 = 0;
    let mut cast: u128 = 0;
    let mut approve_count: u128 = 0;
    let mut reject_count: u128 = 0;
    let mut i: usize = 0;
    while i < votes.len()
        invariant
            i <= votes.len(),
            approve_weight == side_weight(votes@.take(i as int), Vote::Approve),
            reject_weight == side_weight(votes@.take(i as int), Vote::Reject),
            approve_count == side_count(votes@.take(i as int), Vote::Approve),
            reject_count == side_count(votes@.take(i as int), Vote::Reject),
            cast == cast_weight(votes@.take(i as int)),
        decreases votes.len() - i,
    {
        let weight: u128 = votes[i].weight;
        let next: Option<u128> = cast.checked_add(weight);
        proof {
            assert(votes@.take(i + 1).drop_last() == votes@.take(i as int));
            lemma_cast_weight_prefix(votes@, i + 1);
            lemma_side_within_cast(votes@.take(i as int), Vote::Approve);
            lemma_side_within_cast(votes@.take(i as int), Vote::Reject);
        }
        match next {
            Some(n) => {
                cast = n;
            },
            None => {
                return None;
            },
        }
        match votes[i].vote {
            Vote::Approve => {
                approve_weight = approve_weight + weight;
                approve_count = approve_count + 1;
            },
            Vote::Reject => {
                reject_weight = reject_weight + weight;
                reject_count = reject_count + 1;
            },
            Vote::Remove => {},
        }
        i = i + 1;
    }
    assert(votes@.take(votes.len() as int) == votes@);
    Some(
        Sums {
            approve_weight,
            reject_weight,
            cast_weight: cast,
            approve_count,
            reject_count,
            total_weight: total,
        },
    )
}

/// Tallies the ballots under the rule in an electorate with the given
/// weights. Fails only where a sum of weights leaves the range of the
/// integers; an approval is only ever found with the quorum met and the
/// approving side at the threshold.
pub fn tally(rule: &VoteRule, votes: &Vec<Ballot>, electorate: &Vec<u128>) -> (r: Result<
    Outcome,
    DaoError,
>)
    ensures
        match r {
            Ok(outcome) => {
                &&& cast_weight(votes@) <= u128::MAX
                &&& sum_weights(electorate@) <= u128::MAX
                &&& outcome == tally_outcome(*rule, votes@, electorate@)
            },
            Err(e) => {
                &&& e == DaoError::AccountingCorruption
                &&& (cast_weight(votes@) > u128::MAX || sum_weights(electorate@) > u128::MAX)
            },
        },
        r == Ok::<Outcome, DaoError>(Outcome::Approved) ==> {
            &&& quorum_met(rule.quorum, cast_weight(votes@))
            &&& threshold_met(
                rule.threshold,
                side_weight(votes@, Vote::Approve),
                side_count(votes@, Vote::Approve),
                sum_weights(electorate@),
            )
        },
{
    let total: u128 = match total_weight(electorate) {
        Some(t) => t,
        None => {
            return Err(DaoError::AccountingCorruption);
        },
    };
    match sum_ballots(votes, total) {
        Some(sums) => Ok(decide(rule, &sums)),
        None => Err(DaoError::AccountingCorruption),
    }
}

} // verus!
