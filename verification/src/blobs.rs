//! Accounting for stored blobs: who stored which, what the storage costs,
//! and how much is locked for it. The bytes themselves stay with the host.

use vstd::prelude::*;
use crate::host::blob_hash_json;
use crate::host::encode_blob_hash;
use crate::host::storage_byte_cost;
use crate::host::STORAGE_PRICE_PER_BYTE;
use crate::types::DaoError;
use crate::Contract;
use crate::ContractData;

verus! {

/// Bytes that a stored blob costs on top of its own length.
pub const BLOB_OVERHEAD: u64 = 32;

/// The record of a stored blob.
pub struct Blob {
    /// Hash of the blob's bytes, under which the host keeps them.
    pub hash: Vec<u8>,
    /// Who stored the blob, and alone may remove it.
    pub owner: String,
}

/// Whether no two blobs have one hash.
pub open spec fn hashes_distinct(blobs: Seq<Blob>) -> bool {
    forall|i: int, j: int| 0 <= i < j < blobs.len() ==> blobs[i].hash@ != blobs[j].hash@
}

/// Position of the blob with the hash from `from` on, or the number of
/// blobs where there is none.
pub open spec fn blob_position(blobs: Seq<Blob>, hash: Seq<u8>, from: int) -> int
    decreases blobs.len() - from,
{
    if from < 0 || from >= blobs.len() {
        blobs.len() as int
    } else if blobs[from].hash@ == hash {
        from
    } else {
        blob_position(blobs, hash, from + 1)
    }
}

/// What it costs to store a blob of `blob_len` bytes at the host's price
/// for a byte.
pub open spec fn storage_cost(blob_len: u64) -> int {
    (blob_len + BLOB_OVERHEAD) * STORAGE_PRICE_PER_BYTE
}

/// The position of `blob_position` is that of a blob with the hash, the
/// first such; past the end, no blob has the hash.
pub proof fn lemma_blob_position(blobs: Seq<Blob>, hash: Seq<u8>, from: int)
    requires
        0 <= from <= blobs.len(),
    ensures
        from <= blob_position(blobs, hash, from) <= blobs.len(),
        blob_position(blobs, hash, from) < blobs.len() ==> blobs[blob_position(blobs, hash, from)].hash@
            == hash,
        forall|k: int| from <= k < blob_position(blobs, hash, from) ==> blobs[k].hash@ != hash,
    decreases blobs.len() - from,
{
    if from < blobs.len() && blobs[from].hash@ != hash {
        lemma_blob_position(blobs, hash, from + 1);
    }
}

/// Whether the two byte strings are the same.
pub fn same_bytes(a: &Vec<u8>, b: &Vec<u8>) -> (same: bool)
    ensures
        same == (a@ == b@),
{
    if a.len() != b.len() {
        return false;
    }
    let mut i: usize = 0;
    while i < a.len()
        invariant
            i <= a.len(),
            a.len() == b.len(),
            forall|k: int| 0 <= k < i ==> a@[k] == b@[k],
        decreases a.len() - i,
    {
        if a[i] != b[i] {
            return false;
        }
        i = i + 1;
    }
    assert(a@ =~= b@);
    true
}

/// The cost to store a blob of `blob_len` bytes at the host's price for
/// a byte.
pub fn stored_cost(blob_len: u64) -> (cost: u128)
    ensures
        cost == storage_cost(blob_len),
{
    let bytes: u128 = blob_len as u128 + BLOB_OVERHEAD as u128;
    bytes * storage_byte_cost()
}

/// Position of the blob with the hash, or the number of blobs where
/// there is none.
pub fn find_blob(blobs: &Vec<Blob>, hash: &Vec<u8>) -> (i: usize)
    ensures
        i == blob_position(blobs@, hash@, 0),
        i <= blobs.len(),
{
    let mut i: usize = 0;
    while i < blobs.len()
        invariant
            i <= blobs.len(),
            blob_position(blobs@, hash@, 0) == blob_position(blobs@, hash@, i as int),
        decreases blobs.len() - i,
    {
        if same_bytes(&blobs[i].hash, hash) {
            return i;
        }
        i = i + 1;
    }
    i
}

/// Why storing a blob is refused, if it is: a blob is already stored
/// under the hash; the deposit does not cover the cost; the locked
/// amount with the cost does not fit.
pub open spec fn store_refusal(state: ContractData, hash: Seq<u8>, blob_len: u64, deposit: u128) -> Option<
    DaoError,
> {
    if blob_position(state.blobs@, hash, 0) < state.blobs.len() {
        Some(DaoError::BlobExists)
    } else if deposit < storage_cost(blob_len) {
        Some(DaoError::InsufficientDeposit)
    } else if state.locked_amount + storage_cost(blob_len) > u128::MAX {
        Some(DaoError::AccountingCorruption)
    } else {
        None
    }
}

/// Why the caller may not take the blob under the hash off the record, if
/// that is so: no blob is stored under the hash, or another stored it.
pub open spec fn removal_denial(state: ContractData, caller: Seq<char>, hash: Seq<u8>) -> Option<DaoError> {
    let at = blob_position(state.blobs@, hash, 0);
    if at >= state.blobs.len() {
        Some(DaoError::BlobNotFound)
    } else if state.blobs@[at].owner@ != caller {
        Some(DaoError::InvalidCaller)
    } else {
        None
    }
}

/// Why removing a blob is refused, if it is: no blob is stored under the
/// hash; the caller did not store it; less is locked than the cost.
pub open spec fn remove_refusal(state: ContractData, caller: Seq<char>, hash: Seq<u8>, blob_len: u64) -> Option<
    DaoError,
> {
    if removal_denial(state, caller, hash).is_some() {
        removal_denial(state, caller, hash)
    } else if state.locked_amount < storage_cost(blob_len) {
        Some(DaoError::AccountingCorruption)
    } else {
        None
    }
}

/// Whether the two states differ in nothing but the blobs and the locked
/// amount.
pub open spec fn same_but_blobs(a: ContractData, b: ContractData) -> bool {
    &&& a.config == b.config
    &&& a.policy == b.policy
    &&& a.proposals == b.proposals
    &&& a.board == b.board
}

/// Records a blob that the host is about to store under `hash` for
/// `caller`, locks the cost of its storage, and hands `reply` back as the
/// text for the caller. Refused, with the state left as it is, exactly
/// where `store_refusal` says so.
pub fn store_blob_replying(
    contract: &mut Contract,
    caller: &String,
    hash: Vec<u8>,
    blob_len: u64,
    deposit: u128,
    reply: String,
) -> (r: Result<String, DaoError>)
    requires
        old(contract).wf(),
    ensures
        final(contract).wf(),
        match r {
            Ok(text) => {
                &&& store_refusal(old(contract).state(), hash@, blob_len, deposit).is_none()
                &&& text == reply
                &&& same_but_blobs(old(contract).state(), final(contract).state())
                &&& final(contract).state().blobs@ == old(contract).state().blobs@.push(
                    Blob { hash, owner: *caller },
                )
                &&& final(contract).state().locked_amount == old(contract).state().locked_amount
                    + storage_cost(blob_len)
            },
            Err(e) => {
                &&& store_refusal(old(contract).state(), hash@, blob_len, deposit) == Some(e)
                &&& *final(contract) == *old(contract)
            },
        },
{
    let data: &mut ContractData = contract.data_mut();
    proof {
        lemma_blob_position(data.blobs@, hash@, 0);
    }
    if find_blob(&data.blobs, &hash) < data.blobs.len() {
        return Err(DaoError::BlobExists);
    }
    let cost: u128 = stored_cost(blob_len);
    if deposit < cost {
        return Err(DaoError::InsufficientDeposit);
    }
    let locked: u128 = match data.locked_amount.checked_add(cost) {
        Some(l) => l,
        None => {
            return Err(DaoError::AccountingCorruption);
        },
    };
    data.locked_amount = locked;
    data.blobs.push(Blob { hash, owner: caller.clone() });
    Ok(reply)
}

/// Records a blob that the host is about to store under `hash` for
/// `caller`, locks the cost of its storage, and returns the text to hand
/// back to the caller: the hash as the host's encoder writes it. Refused,
/// with the state left as it is, exactly where `store_refusal` says so.
pub fn store_blob(
    contract: &mut Contract,
    caller: &String,
    hash: Vec<u8>,
    blob_len: u64,
    deposit: u128,
) -> (r: Result<String, DaoError>)
    requires
        old(contract).wf(),
    ensures
        final(contract).wf(),
        match r {
            Ok(text) => {
                &&& store_refusal(old(contract).state(), hash@, blob_len, deposit).is_none()
                &&& text@ == blob_hash_json(hash@)
                &&& same_but_blobs(old(contract).state(), final(contract).state())
                &&& final(contract).state().blobs@ == old(contract).state().blobs@.push(
                    Blob { hash, owner: *caller },
                )
                &&& final(contract).state().locked_amount == old(contract).state().locked_amount
                    + storage_cost(blob_len)
            },
            Err(e) => {
                &&& store_refusal(old(contract).state(), hash@, blob_len, deposit) == Some(e)
                &&& *final(contract) == *old(contract)
            },
        },
{
    let reply: String = match encode_blob_hash(&hash) {
        Some(text) => text,
        None => unreached(),
    };
    store_blob_replying(contract, caller, hash, blob_len, deposit, reply)
}

impl Contract {
    /// Whether the caller may take the blob under `hash` off the record,
    /// to be asked before the host removes the bytes: refused exactly
    /// where `removal_denial` says so.
    pub fn check_blob_removal(&self, caller: &String, hash: &Vec<u8>) -> (r: Result<(), DaoError>)
        ensures
            match r {
                Ok(_) => removal_denial(self.state(), caller@, hash@).is_none(),
                Err(e) => removal_denial(self.state(), caller@, hash@) == Some(e),
            },
    {
        let data: &ContractData = self.data();
        let at: usize = find_blob(&data.blobs, hash);
        if at >= data.blobs.len() {
            return Err(DaoError::BlobNotFound);
        }
        if data.blobs[at].owner != *caller {
            return Err(DaoError::InvalidCaller);
        }
        Ok(())
    }

    /// Takes the blob under `hash` off the record for the one who stored
    /// it, unlocks the cost of its storage and returns that cost, which
    /// the host pays back to the caller. `blob_len` is the length of the
    /// bytes that the host has removed. Refused, with the state left as
    /// it is, exactly where `remove_refusal` says so.
    pub fn remove_blob(&mut self, caller: &String, hash: &Vec<u8>, blob_len: u64) -> (r: Result<
        u128,
        DaoError,
    >)
        requires
            old(self).wf(),
        ensures
            final(self).wf(),
            match r {
                Ok(refund) => {
                    &&& remove_refusal(old(self).state(), caller@, hash@, blob_len).is_none()
                    &&& refund == storage_cost(blob_len)
                    &&& same_but_blobs(old(self).state(), final(self).state())
                    &&& final(self).state().blobs@ == old(self).state().blobs@.remove(
                        blob_position(old(self).state().blobs@, hash@, 0),
                    )
                    &&& final(self).state().locked_amount == old(self).state().locked_amount - refund
                },
                Err(e) => {
                    &&& remove_refusal(old(self).state(), caller@, hash@, blob_len) == Some(e)
                    &&& *final(self) == *old(self)
                },
            },
    {
        let data: &mut ContractData = self.data_mut();
        let at: usize = find_blob(&data.blobs, hash);
        if at >= data.blobs.len() {
            return Err(DaoError::BlobNotFound);
        }
        if data.blobs[at].owner != *caller {
            return Err(DaoError::InvalidCaller);
        }
        let cost: u128 = stored_cost(blob_len);
        if data.locked_amount < cost {
            return Err(DaoError::AccountingCorruption);
        }
        data.locked_amount = data.locked_amount - cost;
        data.blobs.remove(at);
        Ok(cost)
    }
}

/// Whether no two blobs have one hash.
pub fn distinct_hashes(blobs: &Vec<Blob>) -> (ok: bool)
    ensures
        ok == hashes_distinct(blobs@),
{
    let mut j: usize = 0;
    while j < blobs.len()
        invariant
            j <= blobs.len(),
            forall|a: int, b: int| 0 <= a < b < j ==> blobs@[a].hash@ != blobs@[b].hash@,
        decreases blobs.len() - j,
    {
        let mut i: usize = 0;
        while i < j
            invariant
                i <= j < blobs.len(),
                forall|a: int| 0 <= a < i ==> blobs@[a].hash@ != blobs@[j as int].hash@,
            decreases j - i,
        {
            if same_bytes(&blobs[i].hash, &blobs[j].hash) {
                return false;
            }
            i = i + 1;
        }
        j = j + 1;
    }
    true
}

} // verus!
