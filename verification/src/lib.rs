//! Governance engine of a decentralized organization: a role-based policy,
//! weighted vote tallies, the life cycle of proposals and the claiming of
//! bounties. The engine decides; the host moves funds and keeps the clock.

use vstd::prelude::*;

pub mod blobs;
pub mod bounties;
pub mod host;
pub mod policy;
pub mod proposals;
pub mod tally;
pub mod types;
pub mod views;

pub use crate::blobs::Blob;
pub use crate::bounties::{Bounty, BountyBoard, BountyClaim};
pub use crate::policy::{Policy, RoleKind, VersionedPolicy};
pub use crate::proposals::{Proposal, ProposalInput, ProposalKind, ProposalStatus};
pub use crate::types::{Action, Config, DaoError, Env};

verus! {

/// All that the organization keeps.
pub struct ContractData {
    /// Parameters of the organization.
    pub config: Config,
    /// Voting and permissions policy.
    pub policy: Policy,
    /// The proposals, each at the position of its id.
    pub proposals: Vec<Proposal>,
    /// The bounties and the claims on them.
    pub board: BountyBoard,
    /// The owners of the stored blobs, by hash.
    pub blobs: Vec<Blob>,
    /// Amount locked for storage and bonds.
    pub locked_amount: u128,
}

/// The data in one of the forms it has had.
pub enum VersionedContractData {
    Current(ContractData),
}

/// The organization.
pub struct Contract {
    pub data: VersionedContractData,
}

/// Description of the organization's token.
pub struct TokenMetadata {
    pub spec: String,
    pub name: String,
    pub symbol: String,
    pub icon: Option<String>,
    pub reference: Option<String>,
    pub reference_hash: Option<Vec<u8>>,
    pub decimals: u8,
}

impl ContractData {
    /// The data is in order: each proposal stands at the position of its
    /// id and holds one ballot for each voter, the board is in order, and
    /// no two blobs have one hash.
    pub open spec fn wf(&self) -> bool {
        &&& self.proposals.len() <= u64::MAX
        &&& forall|i: int| 0 <= i < self.proposals.len() ==> (#[trigger] self.proposals@[i]).id == i
        &&& forall|i: int|
            0 <= i < self.proposals.len() ==> crate::proposals::voters_distinct(
                (#[trigger] self.proposals@[i]).votes@,
            )
        &&& self.board.wf()
        &&& crate::blobs::hashes_distinct(self.blobs@)
    }
}

impl Contract {
    /// The data in its current form.
    pub open spec fn state(&self) -> ContractData {
        match self.data {
            VersionedContractData::Current(data) => data,
        }
    }

    /// The organization's data is in order.
    pub open spec fn wf(&self) -> bool {
        self.state().wf()
    }

    /// Founds the organization with the given parameters and policy, no
    /// proposals, no bounties and no blobs. The amount locked at the start
    /// is the cost of the storage in use: `storage_usage` bytes at the
    /// host's price for a byte.
    pub fn new(config: Config, policy: VersionedPolicy, storage_usage: u64) -> (c: Contract)
        ensures
            c.wf(),
            c.state().config == config,
            c.state().policy@ == crate::policy::upgraded(policy),
            c.state().proposals@.len() == 0,
            c.state().board.bounties@.len() == 0,
            c.state().board.claims@.len() == 0,
            c.state().blobs@.len() == 0,
            c.state().locked_amount == crate::host::STORAGE_PRICE_PER_BYTE * storage_usage,
    {
        let byte_cost: u128 = crate::host::storage_byte_cost();
        let locked_amount: u128 = byte_cost * (storage_usage as u128);
        Contract {
            data: VersionedContractData::Current(
                ContractData {
                    config,
                    policy: policy.upgrade(),
                    proposals: Vec::new(),
                    board: BountyBoard::new(),
                    blobs: Vec::new(),
                    locked_amount,
                },
            ),
        }
    }

    /// Whether the caller may have the state taken over, to be asked
    /// before the host reads the state back: fails with `NotAllowed`
    /// exactly where the caller is not the organization's own account.
    pub fn check_migration(predecessor: &String, current: &String) -> (r: Result<(), DaoError>)
        ensures
            match r {
                Ok(_) => predecessor@ == current@,
                Err(e) => e == DaoError::NotAllowed && predecessor@ != current@,
            },
    {
        if *predecessor == *current {
            Ok(())
        } else {
            Err(DaoError::NotAllowed)
        }
    }

    /// Takes over the state that the host has read back, which only the
    /// organization itself may ask for: fails with `NotAllowed` exactly
    /// where the caller is not the organization's own account. The state
    /// is taken as it is.
    pub fn migrate(state: Contract, predecessor: &String, current: &String) -> (r: Result<
        Contract,
        DaoError,
    >)
        ensures
            match r {
                Ok(c) => predecessor@ == current@ && c == state,
                Err(e) => e == DaoError::NotAllowed && predecessor@ != current@,
            },
    {
        match Contract::check_migration(predecessor, current) {
            Ok(_) => Ok(state),
            Err(e) => Err(e),
        }
    }

    /// The data in its current form.
    pub fn data(&self) -> (d: &ContractData)
        ensures
            *d == self.state(),
    {
        match &self.data {
            VersionedContractData::Current(data) => data,
        }
    }

    /// The data in its current form, to be changed in place.
    pub fn data_mut(&mut self) -> (d: &mut ContractData)
        ensures
            *d == old(self).state(),
            final(self).state() == *final(d),
    {
        match &mut self.data {
            VersionedContractData::Current(data) => data,
        }
    }

    /// The description of the organization's token: the standard's version
    /// tag, and the rest as the configuration has it.
    pub fn ft_metadata(&self) -> (m: TokenMetadata)
        ensures
            m.spec@ == "ft-1.0.0"@,
            m.name@ == self.state().config@.name,
            m.symbol@ == self.state().config@.symbol,
            crate::types::text_view(m.icon) == self.state().config@.icon,
            crate::types::text_view(m.reference) == self.state().config@.reference,
            crate::types::bytes_view(m.reference_hash) == self.state().config@.reference_hash,
            m.decimals == self.state().config@.decimals,
    {
        let config: &Config = &self.data().config;
        let reference_hash: Option<Vec<u8>> = match &config.reference_hash {
            Some(h) => Some(crate::types::copy_items(h)),
            None => None,
        };
        TokenMetadata {
            spec: crate::host::metadata_spec_tag(),
            name: config.name.clone(),
            symbol: config.symbol.clone(),
            icon: crate::types::copy_text(&config.icon),
            reference: crate::types::copy_text(&config.reference),
            reference_hash,
            decimals: config.decimals,
        }
    }
}

} // verus!
