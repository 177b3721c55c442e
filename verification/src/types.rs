//! Shared vocabulary of the engine: actions, kind labels, errors, the
//! organization's configuration and the values the host supplies per call.

use vstd::prelude::*;

verus! {

/// One day, in nanoseconds.
pub const ONE_DAY: u64 = 86_400_000_000_000;

/// Ten to the twenty-fourth: one whole unit of the base token.
pub const ONE_TOKEN: u128 = 1_000_000_000_000_000_000_000_000;

/// Name of the base token in transfer proposals.
pub const BASE_TOKEN: &'static str = "";

/// What an actor may ask to do with a proposal.
#[derive(Clone, Copy, Debug, PartialEq, Eq, Structural)]
pub enum Action {
    AddProposal,
    RemoveProposal,
    VoteApprove,
    VoteReject,
    VoteRemove,
    Finalize,
}

/// The kind of a proposal without its payload; permission grants and
/// vote-rule overrides are keyed by it.
#[derive(Clone, Copy, Debug, PartialEq, Eq, Structural)]
pub enum KindLabel {
    ChangeConfig,
    ChangePolicy,
    AddMemberToRole,
    RemoveMemberFromRole,
    FunctionCall,
    UpgradeSelf,
    UpgradeRemote,
    Transfer,
    SetStakingContract,
    AddBounty,
    BountyDone,
    Vote,
}

/// Why a call was refused. A refused call leaves the state as it was.
#[derive(Clone, Copy, Debug, PartialEq, Eq, Structural)]
pub enum DaoError {
    /// No role of the actor grants the action.
    PermissionDenied,
    /// A vote or a removal on a proposal that is no longer in progress.
    ProposalNotActive,
    /// `Finalize` on a proposal that is no longer in progress.
    AlreadyFinalized,
    /// `Finalize` before the proposal period has run out.
    NotYetExpired,
    /// The attached deposit does not cover the bond.
    InsufficientBond,
    /// Every slot of the bounty is held by a live claim.
    NoSlotsAvailable,
    /// The actor already holds as many live claims as one actor may.
    AlreadyMaxClaims,
    /// The actor has no claim of the asked kind on the bounty.
    ClaimNotFound,
    /// An amount or a time left the range of its integer type.
    AccountingCorruption,
    /// No proposal has the id.
    ProposalNotFound,
    /// No bounty has the id.
    BountyNotFound,
    /// `AddProposal` handed to the proposal state machine as an action.
    WrongAction,
    /// No blob is stored under the hash.
    BlobNotFound,
    /// A blob is already stored under the hash.
    BlobExists,
    /// The caller is not the organization itself.
    NotAllowed,
    /// The caller is not the one who stored the blob.
    InvalidCaller,
    /// The attached deposit does not cover the storage cost.
    InsufficientDeposit,
}

/// What the host supplies with each call: who calls, with what standing in
/// the ledger, when, and with how much attached.
pub struct Env {
    /// Authenticated identity of the caller.
    pub actor: String,
    /// The caller's balance in the ledger.
    pub actor_weight: u128,
    /// Sum of all balances in the ledger.
    pub total_supply: u128,
    /// Current time in nanoseconds.
    pub now: u64,
    /// Amount attached to the call.
    pub attached_deposit: u128,
}

/// Parameters of the organization that change only through an approved
/// `ChangeConfig` proposal.
pub struct Config {
    pub name: String,
    pub symbol: String,
    pub icon: Option<String>,
    pub reference: Option<String>,
    pub reference_hash: Option<Vec<u8>>,
    pub decimals: u8,
    /// Bond locked with each proposal.
    pub proposal_bond: u128,
    /// Time after submission from which a proposal can be finalized.
    pub proposal_period: u64,
    /// Bond asked with a bounty claim.
    pub bounty_bond: u128,
    /// Time after its start within which giving up a claim is forgiven.
    pub bounty_forgiveness_period: u64,
    /// Live claims one actor may hold at a time.
    pub max_claims_per_actor: u32,
    /// Whether the bond of a rejected or expired proposal goes back to the
    /// proposer instead of being forfeited.
    pub refund_failed_bond: bool,
}

/// Mathematical content of a [`Config`].
pub struct ConfigView {
    pub name: Seq<char>,
    pub symbol: Seq<char>,
    pub icon: Option<Seq<char>>,
    pub reference: Option<Seq<char>>,
    pub reference_hash: Option<Seq<u8>>,
    pub decimals: u8,
    pub proposal_bond: u128,
    pub proposal_period: u64,
    pub bounty_bond: u128,
    pub bounty_forgiveness_period: u64,
    pub max_claims_per_actor: u32,
    pub refund_failed_bond: bool,
}

/// Content of an optional text.
pub open spec fn text_view(t: Option<String>) -> Option<Seq<char>> {
    match t {
        Some(s) => Some(s@),
        None => None,
    }
}

/// Content of an optional byte string.
pub open spec fn bytes_view(b: Option<Vec<u8>>) -> Option<Seq<u8>> {
    match b {
        Some(v) => Some(v@),
        None => None,
    }
}

impl View for Config {
    type V = ConfigView;

    open spec fn view(&self) -> ConfigView {
        ConfigView {
            name: self.name@,
            symbol: self.symbol@,
            icon: text_view(self.icon),
            reference: text_view(self.reference),
            reference_hash: bytes_view(self.reference_hash),
            decimals: self.decimals,
            proposal_bond: self.proposal_bond,
            proposal_period: self.proposal_period,
            bounty_bond: self.bounty_bond,
            bounty_forgiveness_period: self.bounty_forgiveness_period,
            max_claims_per_actor: self.max_claims_per_actor,
            refund_failed_bond: self.refund_failed_bond,
        }
    }
}

/// A fresh vector with the same items.
pub fn copy_items<T: Copy>(items: &Vec<T>) -> (out: Vec<T>)
    ensures
        out@ == items@,
{
    let mut out: Vec<T> = Vec::new();
    let mut i: usize = 0;
    while i < items.len()
        invariant
            i <= items.len(),
            out@ == items@.take(i as int),
        decreases items.len() - i,
    {
        out.push(items[i]);
        i = i + 1;
        assert(items@.take(i as int) == items@.take(i - 1).push(items@[i - 1]));
    }
    assert(items@.take(items.len() as int) == items@);
    out
}

/// A fresh optional text with the content of `text`.
pub fn copy_text(text: &Option<String>) -> (out: Option<String>)
    ensures
        text_view(out) == text_view(*text),
{
    match text {
        Some(s) => Some(s.clone()),
        None => None,
    }
}

impl Config {
    /// A small configuration for trying the engine out: bonds of one
    /// token, a proposal period of seven days, one day of forgiveness.
    pub fn test_config() -> (c: Config)
        ensures
            c@.name == "Test"@,
            c@.symbol == "TEST"@,
            c@.icon.is_none(),
            c@.reference.is_none(),
            c@.reference_hash.is_none(),
            c@.decimals == 24,
            c@.proposal_bond == ONE_TOKEN,
            c@.proposal_period == 7 * ONE_DAY,
            c@.bounty_bond == ONE_TOKEN,
            c@.bounty_forgiveness_period == ONE_DAY,
            c@.max_claims_per_actor == 1,
            c@.refund_failed_bond,
    {
        Config {
            name: "Test".to_string(),
            symbol: "TEST".to_string(),
            icon: None,
            reference: None,
            reference_hash: None,
            decimals: 24,
            proposal_bond: ONE_TOKEN,
            proposal_period: 7 * ONE_DAY,
            bounty_bond: ONE_TOKEN,
            bounty_forgiveness_period: ONE_DAY,
            max_claims_per_actor: 1,
            refund_failed_bond: true,
        }
    }

    /// A configuration of its own with the same content.
    pub fn duplicate(&self) -> (c: Config)
        ensures
            c@ == self@,
    {
        let hash: Option<Vec<u8>> = match &self.reference_hash {
            Some(h) => Some(copy_items(h)),
            None => None,
        };
        Config {
            name: self.name.clone(),
            symbol: self.symbol.clone(),
            icon: copy_text(&self.icon),
            reference: copy_text(&self.reference),
            reference_hash: hash,
            decimals: self.decimals,
            proposal_bond: self.proposal_bond,
            proposal_period: self.proposal_period,
            bounty_bond: self.bounty_bond,
            bounty_forgiveness_period: self.bounty_forgiveness_period,
            max_claims_per_actor: self.max_claims_per_actor,
            refund_failed_bond: self.refund_failed_bond,
        }
    }
}

} // verus!
