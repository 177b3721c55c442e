//! What the organization shows of its state without changing it.

use vstd::prelude::*;
use crate::bounties::count;
use crate::bounties::handle_of;
use crate::bounties::live_on;
use crate::bounties::Bounty;
use crate::bounties::BountyClaim;
use crate::bounties::ClaimHandle;
use crate::policy::Policy;
use crate::proposals::Proposal;
use crate::types::Config;
use crate::Contract;
use crate::ContractData;

verus! {

/// Where a listing of `limit` ids from `from` on ends among `len`
/// proposals.
pub open spec fn listing_end(len: int, from: u64, limit: u64) -> int {
    if from >= len {
        from as int
    } else if from + limit >= len {
        len
    } else {
        from + limit
    }
}

/// The handles of the claimer's claims among the first `n`, in their
/// order.
pub open spec fn handles_of(claims: Seq<BountyClaim>, claimer: Seq<char>, n: int) -> Seq<ClaimHandle>
    decreases n,
{
    if n <= 0 {
        Seq::empty()
    } else if claims[n - 1].claimer@ == claimer {
        handles_of(claims, claimer, n - 1).push(handle_of(claims[n - 1]))
    } else {
        handles_of(claims, claimer, n - 1)
    }
}

impl Contract {
    /// The parameters of the organization.
    pub fn get_config(&self) -> (c: &Config)
        ensures
            *c == self.state().config,
    {
        &self.data().config
    }

    /// The policy in force.
    pub fn get_policy(&self) -> (p: &Policy)
        ensures
            *p == self.state().policy,
    {
        &self.data().policy
    }

    /// The amount locked for storage and bonds.
    pub fn get_locked_amount(&self) -> (amount: u128)
        ensures
            amount == self.state().locked_amount,
    {
        self.data().locked_amount
    }

    /// The id that the next proposal gets: the number of proposals so
    /// far.
    pub fn get_last_proposal_id(&self) -> (id: u64)
        requires
            self.wf(),
        ensures
            id == self.state().proposals.len(),
    {
        self.data().proposals.len() as u64
    }

    /// The proposal with the id, whatever its status; `None` where no
    /// proposal has the id.
    pub fn get_proposal(&self, id: u64) -> (r: Option<&Proposal>)
        requires
            self.wf(),
        ensures
            match r {
                Some(p) => id < self.state().proposals.len() && *p == self.state().proposals@[id as int]
                    && p.id == id,
                None => id >= self.state().proposals.len(),
            },
    {
        let data: &ContractData = self.data();
        if id >= data.proposals.len() as u64 {
            None
        } else {
            Some(&data.proposals[id as usize])
        }
    }

    /// The proposals with the `limit` ids from `from_index` on, in the
    /// order of their ids, whatever their status.
    pub fn get_proposals(&self, from_index: u64, limit: u64) -> (list: Vec<&Proposal>)
        requires
            self.wf(),
        ensures
            list@.len() == listing_end(self.state().proposals.len() as int, from_index, limit)
                - from_index,
            forall|k: int|
                0 <= k < list@.len() ==> *(#[trigger] list@[k]) == self.state().proposals@[from_index
                    + k],
    {
        let data: &ContractData = self.data();
        let mut list: Vec<&Proposal> = Vec::new();
        let len: u64 = data.proposals.len() as u64;
        if from_index >= len {
            return list;
        }
        let end: u64 = if limit >= len - from_index {
            len
        } else {
            from_index + limit
        };
        let mut id: u64 = from_index;
        while id < end
            invariant
                from_index <= id <= end <= data.proposals.len(),
                list@.len() == id - from_index,
                forall|k: int|
                    0 <= k < list@.len() ==> *(#[trigger] list@[k]) == data.proposals@[from_index + k],
            decreases end - id,
        {
            list.push(&data.proposals[id as usize]);
            id = id + 1;
        }
        list
    }

    /// The number of bounties opened so far: the id that the next one
    /// gets.
    pub fn get_last_bounty_id(&self) -> (id: u64)
        requires
            self.wf(),
        ensures
            id == self.state().board.bounties.len(),
    {
        self.data().board.bounties.len() as u64
    }

    /// The bounty with the id; `None` where no bounty has the id.
    pub fn get_bounty(&self, id: u64) -> (r: Option<&Bounty>)
        requires
            self.wf(),
        ensures
            match r {
                Some(b) => id < self.state().board.bounties.len() && *b
                    == self.state().board.bounties@[id as int] && b.id == id,
                None => id >= self.state().board.bounties.len(),
            },
    {
        let data: &ContractData = self.data();
        if id >= data.board.bounties.len() as u64 {
            None
        } else {
            Some(&data.board.bounties[id as usize])
        }
    }

    /// The claims of the account, live or not, in the order in which
    /// they were made.
    pub fn get_bounty_claims(&self, account: &String) -> (list: Vec<ClaimHandle>)
        ensures
            list@ == handles_of(
                self.state().board.claims@,
                account@,
                self.state().board.claims.len() as int,
            ),
    {
        let data: &ContractData = self.data();
        let mut list: Vec<ClaimHandle> = Vec::new();
        let mut i: usize = 0;
        while i < data.board.claims.len()
            invariant
                i <= data.board.claims.len(),
                list@ == handles_of(data.board.claims@, account@, i as int),
            decreases data.board.claims.len() - i,
        {
            let c: &BountyClaim = &data.board.claims[i];
            if c.claimer == *account {
                list.push(
                    ClaimHandle { bounty_id: c.bounty_id, start_time: c.start_time, deadline: c.deadline },
                );
            }
            i = i + 1;
        }
        list
    }

    /// The number of claims on the bounty that are live at `now`: a claim
    /// counts up to and at its deadline, and no longer from the moment it
    /// is looked at past it.
    pub fn get_bounty_number_of_claims(&self, id: u64, now: u64) -> (n: usize)
        ensures
            n == count(self.state().board.claims@, live_on(id, now)),
    {
        self.data().board.live_claims(id, now)
    }

    /// The slots of the bounty that are free at `now`; `None` where no
    /// bounty has the id.
    pub fn get_bounty_slots_left(&self, id: u64, now: u64) -> (r: Option<u32>)
        requires
            self.wf(),
        ensures
            match r {
                Some(n) => id < self.state().board.bounties.len() && n
                    == self.state().board.free_slots(id, now),
                None => id >= self.state().board.bounties.len(),
            },
    {
        self.data().board.slots_left(id, now)
    }
}

} // verus!
