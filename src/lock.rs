//! The lock record, its errors, and the ledger calls that settling one asks for.

use vstd::prelude::*;
use crate::digest::{CryptoHash, hex_lower};

verus! {

/// Why an operation of the contract was refused.
#[derive(Clone, Copy, Debug, PartialEq, Eq, Structural)]
pub enum HtlcError {
    /// A non-positive amount, an end time past the clock's range, or a
    /// malformed chain id, address or call data.
    InvalidInput,
    /// A lock with the derived id exists already.
    DuplicateLock,
    /// No lock has the given id.
    NotFound,
    /// The caller does not hold the role the operation asks for.
    Unauthorized,
    /// The lock was withdrawn or refunded before.
    AlreadySettled,
    /// The preimage does not hash to the lock's secret hash.
    SecretMismatch,
    /// The lock's end time has not come yet.
    TimelockNotExpired,
    /// The token ledger reported that a transfer failed.
    TransferFailed,
}

/// One swap's committed funds: who may redeem them with the secret, who may
/// reclaim them after `endtime`, and whether either has happened.
#[derive(Clone, Debug)]
pub struct LockContract {
    pub secret_hash: CryptoHash,
    pub recipient: String,
    pub sender: String,
    pub amount: u128,
    pub endtime: u64,
    pub withdrawn: bool,
    pub refunded: bool,
    pub preimage: String,
    pub target_chain: String,
    pub target_address: String,
}

/// What a lock record holds, as plain values.
pub struct LockSpec {
    pub secret_hash: Seq<u8>,
    pub recipient: Seq<char>,
    pub sender: Seq<char>,
    pub amount: u128,
    pub endtime: u64,
    pub withdrawn: bool,
    pub refunded: bool,
    pub preimage: Seq<char>,
    pub target_chain: Seq<char>,
    pub target_address: Seq<char>,
}

impl View for LockContract {
    type V = LockSpec;

    open spec fn view(&self) -> LockSpec {
        LockSpec {
            secret_hash: self.secret_hash@,
            recipient: self.recipient@,
            sender: self.sender@,
            amount: self.amount,
            endtime: self.endtime,
            withdrawn: self.withdrawn,
            refunded: self.refunded,
            preimage: self.preimage@,
            target_chain: self.target_chain@,
            target_address: self.target_address@,
        }
    }
}

impl LockContract {
    /// This lock with its status flags and preimage replaced.
    pub(crate) fn with_settlement(&self, withdrawn: bool, refunded: bool, preimage: String) -> (r: LockContract)
        ensures
            r@ == (LockSpec { withdrawn, refunded, preimage: preimage@, ..self@ }),
    {
        LockContract {
            secret_hash: self.secret_hash,
            recipient: self.recipient.clone(),
            sender: self.sender.clone(),
            amount: self.amount,
            endtime: self.endtime,
            withdrawn,
            refunded,
            preimage,
            target_chain: self.target_chain.clone(),
            target_address: self.target_address.clone(),
        }
    }
}

impl LockSpec {
    /// Withdrawn or refunded: no further transition is possible.
    pub open spec fn is_settled(self) -> bool {
        self.withdrawn || self.refunded
    }
}

/// A lock as shown to readers: the secret hash in lower-case hex.
#[derive(Clone, Debug, PartialEq, Eq)]
pub struct LockContractView {
    pub secret_hash: String,
    pub recipient: String,
    pub sender: String,
    pub amount: u128,
    pub endtime: u64,
    pub withdrawn: bool,
    pub refunded: bool,
    pub preimage: String,
    pub target_chain: String,
    pub target_address: String,
}

impl LockContractView {
    /// Whether this view shows the lock `l`.
    pub open spec fn shows(&self, l: LockSpec) -> bool {
        &&& self.secret_hash@ == hex_lower(l.secret_hash)
        &&& self.recipient@ == l.recipient
        &&& self.sender@ == l.sender
        &&& self.amount == l.amount
        &&& self.endtime == l.endtime
        &&& self.withdrawn == l.withdrawn
        &&& self.refunded == l.refunded
        &&& self.preimage@ == l.preimage
        &&& self.target_chain@ == l.target_chain
        &&& self.target_address@ == l.target_address
    }
}

/// An operation that the token ledger at `token` is to carry out.
#[derive(Clone, Debug, PartialEq, Eq)]
pub enum LedgerCall {
    /// Move `amount` from `sender` into this contract, then confirm the
    /// funding of lock `lock_id` (a transfer with notification).
    Fund { token: String, lock_id: CryptoHash, sender: String, recipient: String, amount: u128 },
    /// Move `amount` from this contract to `receiver_id`.
    Transfer { token: String, receiver_id: String, amount: u128 },
    /// Mint `amount` new tokens to `receiver_id`.
    Mint { token: String, receiver_id: String, amount: u128 },
}

/// A ledger call as plain values.
pub enum LedgerOrder {
    Fund { token: Seq<char>, lock_id: Seq<u8>, sender: Seq<char>, recipient: Seq<char>, amount: u128 },
    Transfer { token: Seq<char>, receiver_id: Seq<char>, amount: u128 },
    Mint { token: Seq<char>, receiver_id: Seq<char>, amount: u128 },
}

impl View for LedgerCall {
    type V = LedgerOrder;

    open spec fn view(&self) -> LedgerOrder {
        match self {
            LedgerCall::Fund { token, lock_id, sender, recipient, amount } => LedgerOrder::Fund {
                token: token@,
                lock_id: lock_id@,
                sender: sender@,
                recipient: recipient@,
                amount: *amount,
            },
            LedgerCall::Transfer { token, receiver_id, amount } => LedgerOrder::Transfer {
                token: token@,
                receiver_id: receiver_id@,
                amount: *amount,
            },
            LedgerCall::Mint { token, receiver_id, amount } => LedgerOrder::Mint {
                token: token@,
                receiver_id: receiver_id@,
                amount: *amount,
            },
        }
    }
}

} // verus!
