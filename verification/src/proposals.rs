//! Proposals and their life cycle: submission, votes tallied against the
//! policy, finalization after the proposal period, and removal. A
//! proposal leaves `InProgress` once and never comes back.

use vstd::prelude::*;
use crate::blobs::distinct_hashes;
use crate::bounties::with_id;
use crate::bounties::Bounty;
use crate::policy::allowed;
use crate::policy::electorate_of;
use crate::policy::governing_rule;
use crate::policy::voter_weight;
use crate::policy::with_member;
use crate::policy::without_member;
use crate::policy::Policy;
use crate::policy::VoteRule;
use crate::tally::ballot_count_for;
use crate::tally::ballot_weight_for;
use crate::tally::cast_weight;
use crate::tally::lemma_replace_ballot;
use crate::tally::side_count;
use crate::tally::side_weight;
use crate::tally::sum_weights;
use crate::tally::tally;
use crate::tally::tally_outcome;
use crate::tally::Ballot;
use crate::tally::Outcome;
use crate::tally::Vote;
use crate::types::Action;
use crate::types::Config;
use crate::types::DaoError;
use crate::types::Env;
use crate::types::KindLabel;
use crate::Contract;
use crate::ContractData;
use crate::VersionedContractData;

verus! {

/// Where a proposal stands. Every status but `InProgress` is final.
#[derive(Clone, Copy, Debug, PartialEq, Eq, Structural)]
pub enum ProposalStatus {
    InProgress,
    Approved,
    Rejected,
    Removed,
    Expired,
    Moved,
    Failed,
}

/// What a proposal asks for, with what it takes to carry it out.
pub enum ProposalKind {
    ChangeConfig { config: Config },
    ChangePolicy { policy: Policy },
    AddMemberToRole { member_id: String, role: String },
    RemoveMemberFromRole { member_id: String, role: String },
    FunctionCall { receiver_id: String, method_name: String, args: Vec<u8>, deposit: u128, gas: u64 },
    UpgradeSelf { hash: Vec<u8> },
    UpgradeRemote { receiver_id: String, method_name: String, hash: Vec<u8> },
    Transfer { token_id: String, receiver_id: String, amount: u128 },
    SetStakingContract { staking_id: String },
    AddBounty { bounty: Bounty },
    BountyDone { bounty_id: u64, receiver_id: String },
    Vote,
}

/// What a proposer hands in.
pub struct ProposalInput {
    pub description: String,
    pub kind: ProposalKind,
}

/// A proposal on record.
pub struct Proposal {
    pub id: u64,
    pub proposer: String,
    pub description: String,
    pub kind: ProposalKind,
    /// Time of the submission, in nanoseconds.
    pub submission_time: u64,
    pub status: ProposalStatus,
    /// One ballot for each actor who voted, with the actor's last vote.
    pub votes: Vec<Ballot>,
    /// Bond locked with the proposal at submission.
    pub bond: u128,
}

/// What becomes of a proposal's bond.
#[derive(Clone, Copy, Debug, PartialEq, Eq, Structural)]
pub enum BondAction {
    /// The bond stays locked.
    Keep,
    /// The host gives this amount back to the proposer.
    Return(u128),
    /// The organization keeps this amount.
    Forfeit(u128),
}

/// What an approval asks of the host.
#[derive(Clone, Copy, Debug, PartialEq, Eq, Structural)]
pub enum Effect {
    /// Nothing is to be done.
    Nothing,
    /// The engine has changed its own state as the proposal asked.
    Applied,
    /// The host is to carry out what the proposal's kind describes.
    Dispatch,
}

/// What an action on a proposal led to.
#[derive(Clone, Copy, Debug, PartialEq, Eq, Structural)]
pub struct ActOutcome {
    /// Status of the proposal after the action.
    pub status: ProposalStatus,
    pub bond: BondAction,
    pub effect: Effect,
}

/// The label of a kind.
pub open spec fn label_of(kind: ProposalKind) -> KindLabel {
    match kind {
        ProposalKind::ChangeConfig { .. } => KindLabel::ChangeConfig,
        ProposalKind::ChangePolicy { .. } => KindLabel::ChangePolicy,
        ProposalKind::AddMemberToRole { .. } => KindLabel::AddMemberToRole,
        ProposalKind::RemoveMemberFromRole { .. } => KindLabel::RemoveMemberFromRole,
        ProposalKind::FunctionCall { .. } => KindLabel::FunctionCall,
        ProposalKind::UpgradeSelf { .. } => KindLabel::UpgradeSelf,
        ProposalKind::UpgradeRemote { .. } => KindLabel::UpgradeRemote,
        ProposalKind::Transfer { .. } => KindLabel::Transfer,
        ProposalKind::SetStakingContract { .. } => KindLabel::SetStakingContract,
        ProposalKind::AddBounty { .. } => KindLabel::AddBounty,
        ProposalKind::BountyDone { .. } => KindLabel::BountyDone,
        ProposalKind::Vote => KindLabel::Vote,
    }
}

/// The side that a vote action takes; `None` for the other actions.
pub open spec fn vote_of(action: Action) -> Option<Vote> {
    match action {
        Action::VoteApprove => Some(Vote::Approve),
        Action::VoteReject => Some(Vote::Reject),
        Action::VoteRemove => Some(Vote::Remove),
        _ => None,
    }
}

/// Whether no two ballots are of one voter.
pub open spec fn voters_distinct(votes: Seq<Ballot>) -> bool {
    forall|i: int, j: int| 0 <= i < j < votes.len() ==> votes[i].voter@ != votes[j].voter@
}

/// Position of the voter's ballot from `from` on, or the number of
/// ballots where the voter has none.
pub open spec fn ballot_position(votes: Seq<Ballot>, voter: Seq<char>, from: int) -> int
    decreases votes.len() - from,
{
    if from < 0 || from >= votes.len() {
        votes.len() as int
    } else if votes[from].voter@ == voter {
        from
    } else {
        ballot_position(votes, voter, from + 1)
    }
}

/// The ballots after one more was cast: it takes the place of the
/// voter's earlier ballot, or comes last where the voter had none.
pub open spec fn votes_after(votes: Seq<Ballot>, ballot: Ballot) -> Seq<Ballot> {
    let at = ballot_position(votes, ballot.voter@, 0);
    if at < votes.len() {
        votes.update(at, ballot)
    } else {
        votes.push(ballot)
    }
}

/// Whether the status is final.
pub open spec fn is_terminal(status: ProposalStatus) -> bool {
    status != ProposalStatus::InProgress
}

impl ProposalKind {
    /// The label of the kind.
    pub fn label(&self) -> (l: KindLabel)
        ensures
            l == label_of(*self),
    {
        match self {
            ProposalKind::ChangeConfig { .. } => KindLabel::ChangeConfig,
            ProposalKind::ChangePolicy { .. } => KindLabel::ChangePolicy,
            ProposalKind::AddMemberToRole { .. } => KindLabel::AddMemberToRole,
            ProposalKind::RemoveMemberFromRole { .. } => KindLabel::RemoveMemberFromRole,
            ProposalKind::FunctionCall { .. } => KindLabel::FunctionCall,
            ProposalKind::UpgradeSelf { .. } => KindLabel::UpgradeSelf,
            ProposalKind::UpgradeRemote { .. } => KindLabel::UpgradeRemote,
            ProposalKind::Transfer { .. } => KindLabel::Transfer,
            ProposalKind::SetStakingContract { .. } => KindLabel::SetStakingContract,
            ProposalKind::AddBounty { .. } => KindLabel::AddBounty,
            ProposalKind::BountyDone { .. } => KindLabel::BountyDone,
            ProposalKind::Vote => KindLabel::Vote,
        }
    }
}

impl ProposalStatus {
    /// Whether the status is final.
    pub fn terminal(&self) -> (yes: bool)
        ensures
            yes == is_terminal(*self),
    {
        match self {
            ProposalStatus::InProgress => false,
            _ => true,
        }
    }
}

/// The position of `ballot_position` is that of a ballot of the voter,
/// and the first such.
pub proof fn lemma_ballot_position(votes: Seq<Ballot>, voter: Seq<char>, from: int)
    requires
        0 <= from <= votes.len(),
    ensures
        from <= ballot_position(votes, voter, from) <= votes.len(),
        ballot_position(votes, voter, from) < votes.len() ==> votes[ballot_position(
            votes,
            voter,
            from,
        )].voter@ == voter,
        forall|k: int| from <= k < ballot_position(votes, voter, from) ==> votes[k].voter@ != voter,
    decreases votes.len() - from,
{
    if from < votes.len() && votes[from].voter@ != voter {
        lemma_ballot_position(votes, voter, from + 1);
    }
}

/// A voter's second vote takes the place of the first: there are as many
/// ballots as before, still one for each voter, and each sum changes by
/// the difference between the two ballots.
pub proof fn lemma_second_vote_overwrites(votes: Seq<Ballot>, ballot: Ballot, side: Vote)
    requires
        voters_distinct(votes),
        ballot_position(votes, ballot.voter@, 0) < votes.len(),
    ensures
        votes_after(votes, ballot).len() == votes.len(),
        voters_distinct(votes_after(votes, ballot)),
        side_weight(votes_after(votes, ballot), side) + ballot_weight_for(
            votes[ballot_position(votes, ballot.voter@, 0)],
            side,
        ) == side_weight(votes, side) + ballot_weight_for(ballot, side),
        side_count(votes_after(votes, ballot), side) + ballot_count_for(
            votes[ballot_position(votes, ballot.voter@, 0)],
            side,
        ) == side_count(votes, side) + ballot_count_for(ballot, side),
        cast_weight(votes_after(votes, ballot)) + votes[ballot_position(votes, ballot.voter@, 0)].weight
            == cast_weight(votes) + ballot.weight,
{
    lemma_ballot_position(votes, ballot.voter@, 0);
    let at = ballot_position(votes, ballot.voter@, 0);
    lemma_replace_ballot(votes, at, ballot, side);
}

/// Casting a ballot keeps the ballots at one for each voter.
pub proof fn lemma_votes_after_distinct(votes: Seq<Ballot>, ballot: Ballot)
    requires
        voters_distinct(votes),
    ensures
        voters_distinct(votes_after(votes, ballot)),
{
    lemma_ballot_position(votes, ballot.voter@, 0);
}

/// The ballots after `ballot` was cast, as a list of its own.
pub fn votes_with(votes: &Vec<Ballot>, ballot: Ballot) -> (out: Vec<Ballot>)
    ensures
        out@ == votes_after(votes@, ballot),
{
    let mut out: Vec<Ballot> = Vec::new();
    let mut at: usize = votes.len();
    let mut i: usize = 0;
    while i < votes.len()
        invariant
            i <= votes.len(),
            out.len() == i,
            at <= votes.len(),
            forall|k: int| 0 <= k < i ==> out@[k] == votes@[k],
            at == votes.len() ==> ballot_position(votes@, ballot.voter@, 0) == ballot_position(
                votes@,
                ballot.voter@,
                i as int,
            ),
            at < votes.len() ==> at == ballot_position(votes@, ballot.voter@, 0) && at < i,
        decreases votes.len() - i,
    {
        if at == votes.len() && votes[i].voter == ballot.voter {
            at = i;
        }
        out.push(Ballot { voter: votes[i].voter.clone(), vote: votes[i].vote, weight: votes[i].weight });
        i = i + 1;
    }
    if at < votes.len() {
        out[at] = ballot;
        assert(out@ =~= votes@.update(at as int, ballot));
    } else {
        out.push(ballot);
        assert(out@ =~= votes@.push(ballot));
    }
    out
}

/// What becomes of the bond of a proposal that takes the status: given
/// back on approval and on removal; on rejection and on expiry given back
/// or forfeited as the configuration says; kept while in progress.
pub open spec fn bond_action(refund_failed: bool, bond: u128, status: ProposalStatus) -> BondAction {
    match status {
        ProposalStatus::InProgress => BondAction::Keep,
        ProposalStatus::Approved | ProposalStatus::Removed => BondAction::Return(bond),
        _ => if refund_failed {
            BondAction::Return(bond)
        } else {
            BondAction::Forfeit(bond)
        },
    }
}

/// What the approval of a proposal of the kind asks of the host: nothing
/// after a mere vote; nothing more where the engine changes its own
/// state; otherwise to carry the proposal out.
pub open spec fn effect_of(kind: ProposalKind) -> Effect {
    match kind {
        ProposalKind::Vote => Effect::Nothing,
        ProposalKind::ChangeConfig { .. }
        | ProposalKind::ChangePolicy { .. }
        | ProposalKind::AddMemberToRole { .. }
        | ProposalKind::RemoveMemberFromRole { .. }
        | ProposalKind::AddBounty { .. } => Effect::Applied,
        _ => Effect::Dispatch,
    }
}

/// What a proposal that takes the status asks of the host.
pub open spec fn effect_at(kind: ProposalKind, status: ProposalStatus) -> Effect {
    if status == ProposalStatus::Approved {
        effect_of(kind)
    } else {
        Effect::Nothing
    }
}

/// Whether `after` is `before` with the approved proposal of the kind
/// carried out, as far as the engine's own state goes: a new
/// configuration, a new policy, a member more or less in a role, or one
/// more bounty; for the other kinds nothing changes.
pub open spec fn applied(before: ContractData, kind: ProposalKind, after: ContractData) -> bool {
    match kind {
        ProposalKind::ChangeConfig { config } => {
            &&& after.config@ == config@
            &&& after.policy == before.policy
            &&& after.board == before.board
        },
        ProposalKind::ChangePolicy { policy } => {
            &&& after.config == before.config
            &&& after.policy@ == policy@
            &&& after.board == before.board
        },
        ProposalKind::AddMemberToRole { member_id, role } => {
            &&& after.config == before.config
            &&& after.policy@ == with_member(before.policy@, role@, member_id@)
            &&& after.board == before.board
        },
        ProposalKind::RemoveMemberFromRole { member_id, role } => {
            &&& after.config == before.config
            &&& after.policy@ == without_member(before.policy@, role@, member_id@)
            &&& after.board == before.board
        },
        ProposalKind::AddBounty { bounty } => {
            &&& after.config == before.config
            &&& after.policy == before.policy
            &&& after.board.claims == before.board.claims
            &&& after.board.bounties@.len() == before.board.bounties@.len() + 1
            &&& after.board.bounties@.drop_last() == before.board.bounties@
            &&& after.board.bounties@.last()@ == with_id(bounty@, before.board.bounties@.len() as u64)
        },
        _ => {
            &&& after.config == before.config
            &&& after.policy == before.policy
            &&& after.board == before.board
        },
    }
}

/// Whether `after` is `before` with the proposal at `i` moved to the
/// status with the ballots `votes`: nothing else of the proposal and no
/// other proposal changes; a final status unlocks the bond; an approval
/// is carried out.
pub open spec fn moved(
    before: ContractData,
    i: int,
    status: ProposalStatus,
    votes: Seq<Ballot>,
    after: ContractData,
) -> bool {
    let p = before.proposals@[i];
    let q = after.proposals@[i];
    &&& after.proposals@.len() == before.proposals@.len()
    &&& forall|j: int|
        0 <= j < before.proposals@.len() && j != i ==> #[trigger] after.proposals@[j]
            == before.proposals@[j]
    &&& q.id == p.id
    &&& q.proposer == p.proposer
    &&& q.description == p.description
    &&& q.kind == p.kind
    &&& q.submission_time == p.submission_time
    &&& q.bond == p.bond
    &&& q.status == status
    &&& q.votes@ == votes
    &&& after.blobs == before.blobs
    &&& after.locked_amount == if is_terminal(status) {
        before.locked_amount - p.bond
    } else {
        before.locked_amount as int
    }
    &&& if status == ProposalStatus::Approved {
        applied(before, p.kind, after)
    } else {
        &&& after.config == before.config
        &&& after.policy == before.policy
        &&& after.board == before.board
    }
}

/// Why moving the proposal at `i` to the status is refused, if it is:
/// less is locked than the bond to unlock, or the ids for the bounty to
/// open have run out.
pub open spec fn settle_refusal(state: ContractData, i: int, status: ProposalStatus) -> Option<DaoError> {
    let p = state.proposals@[i];
    if is_terminal(status) && state.locked_amount < p.bond {
        Some(DaoError::AccountingCorruption)
    } else if status == ProposalStatus::Approved && p.kind is AddBounty && state.board.bounties.len()
        >= u64::MAX {
        Some(DaoError::AccountingCorruption)
    } else {
        None
    }
}

/// The status that an outcome of the tally gives a proposal.
pub open spec fn status_for(outcome: Outcome) -> ProposalStatus {
    match outcome {
        Outcome::Pending => ProposalStatus::InProgress,
        Outcome::Approved => ProposalStatus::Approved,
        Outcome::Rejected => ProposalStatus::Rejected,
    }
}

impl ContractData {
    /// The rule under which the caller's vote on the proposal at `i` is
    /// tallied.
    pub open spec fn rule_at(&self, env: Env, i: int, action: Action) -> VoteRule {
        governing_rule(
            self.policy@,
            env.actor@,
            env.actor_weight,
            label_of(self.proposals@[i].kind),
            action,
        )
    }

    /// The ballot that the caller's vote on the proposal at `i` casts.
    pub open spec fn ballot_at(&self, env: Env, i: int, action: Action) -> Ballot {
        Ballot {
            voter: env.actor,
            vote: vote_of(action).unwrap(),
            weight: voter_weight(
                self.policy@,
                env.actor@,
                env.actor_weight,
                label_of(self.proposals@[i].kind),
                action,
                self.rule_at(env, i, action),
            ) as u128,
        }
    }

    /// The ballots on the proposal at `i` after the caller's vote.
    pub open spec fn votes_at(&self, env: Env, i: int, action: Action) -> Seq<Ballot> {
        votes_after(self.proposals@[i].votes@, self.ballot_at(env, i, action))
    }

    /// The weights of the electorate for the caller's vote on the
    /// proposal at `i`.
    pub open spec fn electorate_at(&self, env: Env, i: int, action: Action) -> Seq<u128> {
        electorate_of(
            self.policy@,
            label_of(self.proposals@[i].kind),
            action,
            self.rule_at(env, i, action),
            env.total_supply,
        )
    }

    /// The status of the proposal at `i` after the action, where the
    /// action is not refused.
    pub open spec fn status_after(&self, env: Env, i: int, action: Action) -> ProposalStatus {
        match action {
            Action::Finalize => ProposalStatus::Expired,
            Action::RemoveProposal => ProposalStatus::Removed,
            _ => status_for(
                tally_outcome(
                    self.rule_at(env, i, action),
                    self.votes_at(env, i, action),
                    self.electorate_at(env, i, action),
                ),
            ),
        }
    }

    /// The ballots on the proposal at `i` after the action.
    pub open spec fn ballots_after(&self, env: Env, i: int, action: Action) -> Seq<Ballot> {
        if vote_of(action).is_some() {
            self.votes_at(env, i, action)
        } else {
            self.proposals@[i].votes@
        }
    }

    /// Whether the proposal period of the proposal at `i` has run out at
    /// `now`.
    pub open spec fn expired_at(&self, i: int, now: u64) -> bool {
        now >= self.proposals@[i].submission_time + self.config.proposal_period
    }

    /// Why the action on the proposal is refused, if it is. In order: no
    /// proposal has the id; the action is `AddProposal`; the proposal is
    /// no longer in progress (`AlreadyFinalized` for `Finalize`,
    /// `ProposalNotActive` for the others); `Finalize` comes before the
    /// period has run out; the caller is neither allowed by the policy
    /// nor, for a removal, the proposer; a sum of weights does not fit;
    /// the move to the new status is refused.
    pub open spec fn act_refusal(&self, env: Env, id: u64, action: Action) -> Option<DaoError> {
        let i = id as int;
        let p = self.proposals@[i];
        if id >= self.proposals.len() {
            Some(DaoError::ProposalNotFound)
        } else if action == Action::AddProposal {
            Some(DaoError::WrongAction)
        } else if is_terminal(p.status) {
            if action == Action::Finalize {
                Some(DaoError::AlreadyFinalized)
            } else {
                Some(DaoError::ProposalNotActive)
            }
        } else if action == Action::Finalize {
            if !self.expired_at(i, env.now) {
                Some(DaoError::NotYetExpired)
            } else {
                settle_refusal(*self, i, ProposalStatus::Expired)
            }
        } else if action == Action::RemoveProposal {
            if env.actor@ != p.proposer@ && !allowed(
                self.policy@,
                env.actor@,
                env.actor_weight,
                label_of(p.kind),
                action,
            ) {
                Some(DaoError::PermissionDenied)
            } else {
                settle_refusal(*self, i, ProposalStatus::Removed)
            }
        } else if !allowed(self.policy@, env.actor@, env.actor_weight, label_of(p.kind), action) {
            Some(DaoError::PermissionDenied)
        } else if cast_weight(self.votes_at(env, i, action)) > u128::MAX || sum_weights(
            self.electorate_at(env, i, action),
        ) > u128::MAX {
            Some(DaoError::AccountingCorruption)
        } else {
            settle_refusal(*self, i, self.status_after(env, i, action))
        }
    }

    /// Why the submission of a proposal of the kind is refused, if it is:
    /// the deposit attached is less than the bond; the policy does not
    /// let the caller add such a proposal; the ids have run out or the
    /// locked amount with the bond does not fit.
    pub open spec fn submit_refusal(&self, env: Env, label: KindLabel) -> Option<DaoError> {
        if env.attached_deposit < self.config.proposal_bond {
            Some(DaoError::InsufficientBond)
        } else if !allowed(self.policy@, env.actor@, env.actor_weight, label, Action::AddProposal) {
            Some(DaoError::PermissionDenied)
        } else if self.proposals.len() >= u64::MAX || self.locked_amount + self.config.proposal_bond
            > u128::MAX {
            Some(DaoError::AccountingCorruption)
        } else {
            None
        }
    }
}

/// Once a proposal has left `InProgress`, every action on it is refused:
/// `Finalize` with `AlreadyFinalized`, a vote or a removal with
/// `ProposalNotActive`.
pub proof fn lemma_terminal_is_final(state: ContractData, env: Env, id: u64, action: Action)
    requires
        id < state.proposals.len(),
        is_terminal(state.proposals@[id as int].status),
    ensures
        state.act_refusal(env, id, action).is_some(),
        action == Action::Finalize ==> state.act_refusal(env, id, action) == Some(
            DaoError::AlreadyFinalized,
        ),
        vote_of(action).is_some() || action == Action::RemoveProposal ==> state.act_refusal(
            env,
            id,
            action,
        ) == Some(DaoError::ProposalNotActive),
{
}

/// Whether `after` has, besides the proposals of `before`, the proposal
/// of `input` submitted by the caller: it comes last, under the next id,
/// in progress, without ballots, with the bond that the configuration
/// asks, which is locked.
pub open spec fn proposal_added(before: ContractData, env: Env, input: ProposalInput, after: ContractData) -> bool {
    let p = after.proposals@.last();
    &&& after.proposals@.len() == before.proposals@.len() + 1
    &&& after.proposals@.drop_last() == before.proposals@
    &&& p.id == before.proposals@.len()
    &&& p.proposer == env.actor
    &&& p.description == input.description
    &&& p.kind == input.kind
    &&& p.submission_time == env.now
    &&& p.status == ProposalStatus::InProgress
    &&& p.votes@.len() == 0
    &&& p.bond == before.config.proposal_bond
    &&& after.locked_amount == before.locked_amount + before.config.proposal_bond
    &&& after.config == before.config
    &&& after.policy == before.policy
    &&& after.blobs == before.blobs
}

/// Whether `after` is `before` with the proposal of `input` submitted by
/// the caller, and nothing else changed.
pub open spec fn submitted(before: ContractData, env: Env, input: ProposalInput, after: ContractData) -> bool {
    &&& proposal_added(before, env, input, after)
    &&& after.board == before.board
}

impl Action {
    /// The side that a vote action takes; `None` for the other actions.
    pub fn vote(&self) -> (v: Option<Vote>)
        ensures
            v == vote_of(*self),
    {
        match self {
            Action::VoteApprove => Some(Vote::Approve),
            Action::VoteReject => Some(Vote::Reject),
            Action::VoteRemove => Some(Vote::Remove),
            _ => None,
        }
    }
}

impl ProposalKind {
    /// What the approval of a proposal of the kind asks of the host.
    pub fn effect(&self) -> (e: Effect)
        ensures
            e == effect_of(*self),
    {
        match self {
            ProposalKind::Vote => Effect::Nothing,
            ProposalKind::ChangeConfig { .. } => Effect::Applied,
            ProposalKind::ChangePolicy { .. } => Effect::Applied,
            ProposalKind::AddMemberToRole { .. } => Effect::Applied,
            ProposalKind::RemoveMemberFromRole { .. } => Effect::Applied,
            ProposalKind::AddBounty { .. } => Effect::Applied,
            _ => Effect::Dispatch,
        }
    }
}

/// What becomes of the bond of a proposal that takes the status.
pub fn bond_for(refund_failed: bool, bond: u128, status: ProposalStatus) -> (b: BondAction)
    ensures
        b == bond_action(refund_failed, bond, status),
{
    match status {
        ProposalStatus::InProgress => BondAction::Keep,
        ProposalStatus::Approved => BondAction::Return(bond),
        ProposalStatus::Removed => BondAction::Return(bond),
        _ => if refund_failed {
            BondAction::Return(bond)
        } else {
            BondAction::Forfeit(bond)
        },
    }
}

impl ContractData {
    /// Carries out the proposal at `i` as far as the engine's own state
    /// goes.
    pub(crate) fn apply(&mut self, i: usize)
        requires
            old(self).wf(),
            i < old(self).proposals.len(),
            old(self).proposals@[i as int].kind is AddBounty ==> old(self).board.bounties.len()
                < u64::MAX,
        ensures
            final(self).wf(),
            applied(*old(self), old(self).proposals@[i as int].kind, *final(self)),
            final(self).proposals == old(self).proposals,
            final(self).blobs == old(self).blobs,
            final(self).locked_amount == old(self).locked_amount,
    {
        match &self.proposals[i].kind {
            ProposalKind::ChangeConfig { config } => {
                let fresh: Config = config.duplicate();
                self.config = fresh;
            },
            ProposalKind::ChangePolicy { policy } => {
                let fresh: Policy = policy.duplicate();
                self.policy = fresh;
            },
            ProposalKind::AddMemberToRole { member_id, role } => {
                let member: String = member_id.clone();
                let name: String = role.clone();
                self.policy.add_member_to_role(&name, member);
            },
            ProposalKind::RemoveMemberFromRole { member_id, role } => {
                let member: String = member_id.clone();
                let name: String = role.clone();
                self.policy.remove_member_from_role(&name, &member);
            },
            ProposalKind::AddBounty { bounty } => {
                let fresh: Bounty = bounty.duplicate();
                let opened: Result<u64, DaoError> = self.board.add_bounty(fresh);
                assert(opened.is_ok());
            },
            _ => {},
        }
    }

    /// Moves the proposal at `i` to the status, with new ballots where
    /// `votes` holds some: a final status unlocks the bond, an approval
    /// is carried out. Refused, with the state left as it is, exactly
    /// where `settle_refusal` says so.
    pub(crate) fn settle(&mut self, i: usize, status: ProposalStatus, votes: Option<Vec<Ballot>>) -> (r: Result<
        ActOutcome,
        DaoError,
    >)
        requires
            old(self).wf(),
            i < old(self).proposals.len(),
            match votes {
                Some(v) => voters_distinct(v@),
                None => true,
            },
        ensures
            final(self).wf(),
            match r {
                Ok(out) => {
                    &&& settle_refusal(*old(self), i as int, status).is_none()
                    &&& out.status == status
                    &&& out.bond == bond_action(
                        old(self).config.refund_failed_bond,
                        old(self).proposals@[i as int].bond,
                        status,
                    )
                    &&& out.effect == effect_at(old(self).proposals@[i as int].kind, status)
                    &&& moved(
                        *old(self),
                        i as int,
                        status,
                        match votes {
                            Some(v) => v@,
                            None => old(self).proposals@[i as int].votes@,
                        },
                        *final(self),
                    )
                },
                Err(e) => {
                    &&& settle_refusal(*old(self), i as int, status) == Some(e)
                    &&& *final(self) == *old(self)
                },
            },
    {
        let terminal: bool = status.terminal();
        let approved: bool = status == ProposalStatus::Approved;
        let bond: u128 = self.proposals[i].bond;
        if terminal && self.locked_amount < bond {
            return Err(DaoError::AccountingCorruption);
        }
        let opens_bounty: bool = match &self.proposals[i].kind {
            ProposalKind::AddBounty { .. } => true,
            _ => false,
        };
        if approved && opens_bounty && self.board.bounties.len() as u64 >= u64::MAX {
            return Err(DaoError::AccountingCorruption);
        }
        let out: ActOutcome = ActOutcome {
            status,
            bond: bond_for(self.config.refund_failed_bond, bond, status),
            effect: if approved {
                self.proposals[i].kind.effect()
            } else {
                Effect::Nothing
            },
        };
        if terminal {
            self.locked_amount = self.locked_amount - bond;
        }
        match votes {
            Some(v) => {
                self.proposals[i].votes = v;
            },
            None => {},
        }
        self.proposals[i].status = status;
        if approved {
            self.apply(i);
        }
        Ok(out)
    }
}

impl ContractData {
    /// Checks a submission of a proposal of the kind by the caller.
    pub fn check_submission(&self, env: &Env, label: KindLabel) -> (r: Result<(), DaoError>)
        ensures
            match r {
                Ok(_) => self.submit_refusal(*env, label).is_none(),
                Err(e) => self.submit_refusal(*env, label) == Some(e),
            },
    {
        if env.attached_deposit < self.config.proposal_bond {
            return Err(DaoError::InsufficientBond);
        }
        match self.policy.resolve(&env.actor, env.actor_weight, label, Action::AddProposal) {
            Ok(_) => {},
            Err(e) => {
                return Err(e);
            },
        }
        if self.proposals.len() as u64 >= u64::MAX {
            return Err(DaoError::AccountingCorruption);
        }
        match self.locked_amount.checked_add(self.config.proposal_bond) {
            Some(_) => Ok(()),
            None => Err(DaoError::AccountingCorruption),
        }
    }

    /// Puts the proposal of `input` on record for the caller and locks
    /// its bond.
    pub(crate) fn push_proposal(&mut self, env: &Env, input: ProposalInput) -> (id: u64)
        requires
            old(self).wf(),
            old(self).proposals.len() < u64::MAX,
            old(self).locked_amount + old(self).config.proposal_bond <= u128::MAX,
        ensures
            final(self).wf(),
            id == old(self).proposals.len(),
            submitted(*old(self), *env, input, *final(self)),
    {
        let id: u64 = self.proposals.len() as u64;
        let bond: u128 = self.config.proposal_bond;
        let ProposalInput { description, kind } = input;
        let ghost before = self.proposals@;
        self.proposals.push(
            Proposal {
                id,
                proposer: env.actor.clone(),
                description,
                kind,
                submission_time: env.now,
                status: ProposalStatus::InProgress,
                votes: Vec::new(),
                bond,
            },
        );
        self.locked_amount = self.locked_amount + bond;
        assert(self.proposals@.drop_last() == before);
        id
    }
}

impl Contract {
    /// Submits a proposal for the caller: under the next id, in progress
    /// from the time of the call, with the bond locked. Refused, with the
    /// state left as it is, exactly where `submit_refusal` says so.
    pub fn add_proposal(&mut self, env: &Env, input: ProposalInput) -> (r: Result<u64, DaoError>)
        requires
            old(self).wf(),
        ensures
            final(self).wf(),
            match r {
                Ok(id) => {
                    &&& old(self).state().submit_refusal(*env, label_of(input.kind)).is_none()
                    &&& id == old(self).state().proposals.len()
                    &&& submitted(old(self).state(), *env, input, final(self).state())
                },
                Err(e) => {
                    &&& old(self).state().submit_refusal(*env, label_of(input.kind)) == Some(e)
                    &&& *final(self) == *old(self)
                },
            },
    {
        let data: &mut ContractData = self.data_mut();
        match data.check_submission(env, input.kind.label()) {
            Ok(_) => {},
            Err(e) => {
                return Err(e);
            },
        }
        Ok(data.push_proposal(env, input))
    }

    /// Acts on a proposal for the caller: a vote is recorded in place of
    /// the caller's earlier one and the ballots are tallied at once;
    /// `Finalize` lets a proposal expire whose period has run out;
    /// `RemoveProposal` withdraws it. A proposal that has left
    /// `InProgress` is never changed again. Refused, with the state left
    /// as it is, exactly where `act_refusal` says so.
    pub fn act_proposal(&mut self, env: &Env, id: u64, action: Action) -> (r: Result<ActOutcome, DaoError>)
        requires
            old(self).wf(),
        ensures
            final(self).wf(),
            match r {
                Ok(out) => {
                    let before = old(self).state();
                    let p = before.proposals@[id as int];
                    &&& before.act_refusal(*env, id, action).is_none()
                    &&& out.status == before.status_after(*env, id as int, action)
                    &&& out.bond == bond_action(before.config.refund_failed_bond, p.bond, out.status)
                    &&& out.effect == effect_at(p.kind, out.status)
                    &&& moved(
                        before,
                        id as int,
                        out.status,
                        before.ballots_after(*env, id as int, action),
                        final(self).state(),
                    )
                },
                Err(e) => {
                    &&& old(self).state().act_refusal(*env, id, action) == Some(e)
                    &&& *final(self) == *old(self)
                },
            },
            id < old(self).state().proposals.len() && is_terminal(
                old(self).state().proposals@[id as int].status,
            ) ==> r.is_err(),
    {
        let data: &mut ContractData = self.data_mut();
        if id >= data.proposals.len() as u64 {
            return Err(DaoError::ProposalNotFound);
        }
        let i: usize = id as usize;
        let side: Option<Vote> = action.vote();
        match action {
            Action::AddProposal => {
                return Err(DaoError::WrongAction);
            },
            Action::Finalize => {
                if data.proposals[i].status.terminal() {
                    return Err(DaoError::AlreadyFinalized);
                }
                let due: u128 = data.proposals[i].submission_time as u128
                    + data.config.proposal_period as u128;
                if (env.now as u128) < due {
                    return Err(DaoError::NotYetExpired);
                }
                return data.settle(i, ProposalStatus::Expired, None);
            },
            Action::RemoveProposal => {
                if data.proposals[i].status.terminal() {
                    return Err(DaoError::ProposalNotActive);
                }
                if data.proposals[i].proposer != env.actor {
                    match data.policy.resolve(
                        &env.actor,
                        env.actor_weight,
                        data.proposals[i].kind.label(),
                        action,
                    ) {
                        Ok(_) => {},
                        Err(e) => {
                            return Err(e);
                        },
                    }
                }
                return data.settle(i, ProposalStatus::Removed, None);
            },
            _ => {},
        }
        let vote: Vote = match side {
            Some(v) => v,
            None => {
                return Err(DaoError::WrongAction);
            },
        };
        if data.proposals[i].status.terminal() {
            return Err(DaoError::ProposalNotActive);
        }
        let label: KindLabel = data.proposals[i].kind.label();
        let rule: VoteRule = match data.policy.resolve(&env.actor, env.actor_weight, label, action) {
            Ok(res) => res.rule,
            Err(e) => {
                return Err(e);
            },
        };
        let weight: u128 = data.policy.ballot_weight(&env.actor, env.actor_weight, label, action, &rule);
        let ballot: Ballot = Ballot { voter: env.actor.clone(), vote, weight };
        let votes: Vec<Ballot> = votes_with(&data.proposals[i].votes, ballot);
        let electorate: Vec<u128> = data.policy.electorate_weights(label, action, &rule, env.total_supply);
        let outcome: Outcome = match tally(&rule, &votes, &electorate) {
            Ok(o) => o,
            Err(e) => {
                return Err(e);
            },
        };
        let status: ProposalStatus = match outcome {
            Outcome::Pending => ProposalStatus::InProgress,
            Outcome::Approved => ProposalStatus::Approved,
            Outcome::Rejected => ProposalStatus::Rejected,
        };
        proof {
            lemma_votes_after_distinct(data.proposals@[i as int].votes@, ballot);
        }
        data.settle(i, status, Some(votes))
    }
}

/// Whether no two ballots are of one voter.
pub fn distinct_voters(votes: &Vec<Ballot>) -> (ok: bool)
    ensures
        ok == voters_distinct(votes@),
{
    let mut j: usize = 0;
    while j < votes.len()
        invariant
            j <= votes.len(),
            forall|a: int, b: int| 0 <= a < b < j ==> votes@[a].voter@ != votes@[b].voter@,
        decreases votes.len() - j,
    {
        let mut i: usize = 0;
        while i < j
            invariant
                i <= j < votes.len(),
                forall|a: int| 0 <= a < i ==> votes@[a].voter@ != votes@[j as int].voter@,
            decreases j - i,
        {
            if votes[i].voter == votes[j].voter {
                return false;
            }
            i = i + 1;
        }
        j = j + 1;
    }
    true
}

impl ContractData {
    /// Whether the data is in order.
    pub fn check(&self) -> (ok: bool)
        ensures
            ok == self.wf(),
    {
        let mut i: usize = 0;
        while i < self.proposals.len()
            invariant
                i <= self.proposals.len(),
                forall|k: int| 0 <= k < i ==> (#[trigger] self.proposals@[k]).id == k,
                forall|k: int|
                    0 <= k < i ==> voters_distinct((#[trigger] self.proposals@[k]).votes@),
            decreases self.proposals.len() - i,
        {
            if self.proposals[i].id != i as u64 {
                return false;
            }
            if !distinct_voters(&self.proposals[i].votes) {
                return false;
            }
            i = i + 1;
        }
        self.board.check() && distinct_hashes(&self.blobs)
    }
}

impl Contract {
    /// Takes data that the host has kept as the organization's, if it is
    /// in order.
    pub fn restore(data: ContractData) -> (r: Option<Contract>)
        ensures
            match r {
                Some(c) => data.wf() && c.state() == data,
                None => !data.wf(),
            },
    {
        if data.check() {
            Some(Contract { data: VersionedContractData::Current(data) })
        } else {
            None
        }
    }
}

} // verus!
