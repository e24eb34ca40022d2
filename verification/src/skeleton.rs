//! The unsigned transaction record that the stages fill in: the sender,
//! the receiver, and the ordered actions; the key, nonce and block hash
//! are supplied by a signing strategy at the end.

use vstd::prelude::*;

use crate::account::AccountId;
use crate::types::{CryptoHash, PublicKey};

verus! {

/// One transfer of `deposit` smallest units.
#[derive(Clone, Copy, Debug, PartialEq, Eq, Structural)]
pub struct TransferActionRecord {
    pub deposit: u128,
}

/// The transaction being built, stage by stage.
#[derive(Debug)]
pub struct TransactionSkeleton {
    pub signer_id: Option<AccountId>,
    pub public_key: Option<PublicKey>,
    pub nonce: Option<u64>,
    pub receiver_id: Option<AccountId>,
    pub block_hash: Option<CryptoHash>,
    pub actions: Vec<TransferActionRecord>,
}

impl TransactionSkeleton {
    /// The record every run starts from: nothing resolved yet.
    pub fn new_empty() -> (r: TransactionSkeleton)
        ensures
            r.signer_id is None,
            r.public_key is None,
            r.nonce is None,
            r.receiver_id is None,
            r.block_hash is None,
            r.actions@ =~= Seq::<TransferActionRecord>::empty(),
    {
        TransactionSkeleton {
            signer_id: None,
            public_key: None,
            nonce: None,
            receiver_id: None,
            block_hash: None,
            actions: Vec::new(),
        }
    }

    /// The same record with the signer set.
    pub fn with_signer(self, id: AccountId) -> (r: TransactionSkeleton)
        ensures
            r.signer_id == Some(id),
            r.public_key == self.public_key,
            r.nonce == self.nonce,
            r.receiver_id == self.receiver_id,
            r.block_hash == self.block_hash,
            r.actions@ == self.actions@,
    {
        TransactionSkeleton { signer_id: Some(id), ..self }
    }

    /// The same record with the receiver set.
    pub fn with_receiver(self, id: AccountId) -> (r: TransactionSkeleton)
        ensures
            r.receiver_id == Some(id),
            r.signer_id == self.signer_id,
            r.public_key == self.public_key,
            r.nonce == self.nonce,
            r.block_hash == self.block_hash,
            r.actions@ == self.actions@,
    {
        TransactionSkeleton { receiver_id: Some(id), ..self }
    }

    /// The same record with one transfer action appended.
    pub fn with_transfer(self, deposit: u128) -> (r: TransactionSkeleton)
        ensures
            r.actions@ == self.actions@.push(TransferActionRecord { deposit }),
            r.signer_id == self.signer_id,
            r.public_key == self.public_key,
            r.nonce == self.nonce,
            r.receiver_id == self.receiver_id,
            r.block_hash == self.block_hash,
    {
        let mut actions = self.actions;
        actions.push(TransferActionRecord { deposit });
        TransactionSkeleton { actions, ..self }
    }

    /// What a signing strategy demands of the record it is handed:
    /// sender, receiver and at least one action resolved.
    pub open spec fn ready_for_signing(&self) -> bool {
        &&& self.signer_id is Some
        &&& self.receiver_id is Some
        &&& self.actions@.len() >= 1
    }
}

} // verus!
