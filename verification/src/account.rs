//! The account slots that the host hands to a call.

use vstd::prelude::*;
use crate::state::Identity;

verus! {

/// One slot of the host: its key, the program that controls it, whether its
/// key signed the call, its funding, and the bytes it holds.
#[derive(Debug, Clone, PartialEq, Eq)]
pub struct Account {
    pub key: Identity,
    pub owner: Identity,
    pub is_signer: bool,
    pub lamports: u64,
    pub data: Vec<u8>,
}

/// A slot as a mathematical value.
pub struct AccountModel {
    pub key: Seq<u8>,
    pub owner: Seq<u8>,
    pub is_signer: bool,
    pub lamports: u64,
    pub data: Seq<u8>,
}

impl View for Account {
    type V = AccountModel;

    open spec fn view(&self) -> AccountModel {
        AccountModel {
            key: self.key@,
            owner: self.owner@,
            is_signer: self.is_signer,
            lamports: self.lamports,
            data: self.data@,
        }
    }
}

/// The slots of a call, each as a mathematical value.
pub open spec fn models(accounts: Seq<Account>) -> Seq<AccountModel> {
    Seq::new(accounts.len(), |i: int| accounts[i]@)
}

/// Whether every key among the slots has its 32 bytes.
pub open spec fn slots_valid(slots: Seq<AccountModel>) -> bool {
    forall|i: int|
        0 <= i < slots.len() ==> (#[trigger] slots[i]).key.len() == 32 && slots[i].owner.len()
            == 32
}

/// The bytes of a slot after `record` was written over its beginning.
pub open spec fn written(data: Seq<u8>, record: Seq<u8>) -> Seq<u8> {
    record + data.subrange(record.len() as int, data.len() as int)
}

/// The slots after `record` was written into the slot at `index`; nothing
/// else changes.
pub open spec fn put(slots: Seq<AccountModel>, index: int, record: Seq<u8>) -> Seq<AccountModel> {
    slots.update(
        index,
        AccountModel {
            key: slots[index].key,
            owner: slots[index].owner,
            is_signer: slots[index].is_signer,
            lamports: slots[index].lamports,
            data: written(slots[index].data, record),
        },
    )
}

/// A write keeps the size of the slot, and the record can be read back from
/// the slot's beginning. A record that fills the slot is all that it holds.
pub proof fn lemma_written(data: Seq<u8>, record: Seq<u8>)
    requires
        record.len() <= data.len(),
    ensures
        written(data, record).len() == data.len(),
        written(data, record).subrange(0, record.len() as int) == record,
        record.len() == data.len() ==> written(data, record) == record,
{
    assert(written(data, record).subrange(0, record.len() as int) =~= record);
    if record.len() == data.len() {
        assert(written(data, record) =~= record);
    }
}

/// Writes `record` over the beginning of the slot at `index`.
pub fn store(accounts: &mut Vec<Account>, index: usize, record: Vec<u8>)
    requires
        index < old(accounts)@.len(),
        record@.len() <= old(accounts)@[index as int].data@.len(),
    ensures
        models(final(accounts)@) == put(models(old(accounts)@), index as int, record@),
        final(accounts)@.len() == old(accounts)@.len(),
        forall|j: int|
            0 <= j < old(accounts)@.len() && j != index ==> final(accounts)@[j] == old(
                accounts,
            )@[j],
{
    let mut data = record;
    let mut i: usize = data.len();
    let total: usize = accounts[index].data.len();
    while i < total
        invariant
            index < accounts@.len(),
            accounts@ == old(accounts)@,
            total == accounts@[index as int].data@.len(),
            record@.len() <= i <= total,
            data@ == record@ + accounts@[index as int].data@.subrange(record@.len() as int, i as int),
        decreases total - i,
    {
        data.push(accounts[index].data[i]);
        i += 1;
        proof {
            assert(data@ =~= record@ + accounts@[index as int].data@.subrange(
                record@.len() as int,
                i as int,
            ));
        }
    }
    let slot = Account {
        key: accounts[index].key,
        owner: accounts[index].owner,
        is_signer: accounts[index].is_signer,
        lamports: accounts[index].lamports,
        data,
    };
    accounts.set(index, slot);
    proof {
        assert(models(accounts@) =~= put(models(old(accounts)@), index as int, record@));
    }
}

} // verus!
