//! The swap state machine: a registry of locks keyed by id, an allow-list of
//! relayers, and the operations that open, settle and complete swaps.

use vstd::prelude::*;
use vstd::utf8::encode_utf8;
use crate::digest::{CryptoHash, sha256_of, le_bytes, sha256, hex_encode, push_bytes, push_le_bytes, same_hash};
use crate::evm::{decimal_u64, is_evm_address, parse_u64, check_evm_address};
use crate::lock::{HtlcError, LockContract, LockSpec, LockContractView, LedgerCall, LedgerOrder};

verus! {

/// Nanoseconds in an hour: the clock counts nanoseconds, timeouts count hours.
pub const HOUR_NANOS: u64 = 3600000000000;

/// The contract's state as plain values.
pub struct HtlcState {
    /// The account of the token ledger.
    pub token: Seq<char>,
    /// The account allowed to manage relayers.
    pub owner: Seq<char>,
    /// Every lock ever opened, by id.
    pub locks: Map<Seq<u8>, LockSpec>,
    /// The accounts trusted to attest foreign-chain completions.
    pub relayers: Set<Seq<char>>,
}

/// Whether `x` is the view of some element of `v`.
pub open spec fn listed(v: Seq<String>, x: Seq<char>) -> bool {
    exists|j: int| 0 <= j < v.len() && #[trigger] v[j]@ == x
}

/// `s` with lock `id` set to `l`.
pub open spec fn with_lock(s: HtlcState, id: Seq<u8>, l: LockSpec) -> HtlcState {
    HtlcState { locks: s.locks.insert(id, l), ..s }
}

/// `s` with its relayer set replaced.
pub open spec fn with_relayers(s: HtlcState, relayers: Set<Seq<char>>) -> HtlcState {
    HtlcState { relayers: relayers, ..s }
}

/// Where a new lock's deadline falls, before any range check.
pub open spec fn end_time(now: u64, timeout_hours: u64) -> int {
    now + timeout_hours * HOUR_NANOS
}

/// The bytes hashed to derive a lock id.
pub open spec fn lock_id_input(
    secret_hash: Seq<u8>,
    recipient: Seq<char>,
    sender: Seq<char>,
    amount: u128,
    endtime: u64,
    now: u64,
) -> Seq<u8> {
    secret_hash + encode_utf8(recipient) + encode_utf8(sender) + le_bytes(amount as nat, 16)
        + le_bytes(endtime as nat, 8) + le_bytes(now as nat, 8)
}

/// The lock that `initiate_swap` records.
pub open spec fn opened_lock(
    sender: Seq<char>,
    now: u64,
    secret_hash: Seq<u8>,
    recipient: Seq<char>,
    amount: u128,
    timeout_hours: u64,
    target_chain: Seq<char>,
    target_address: Seq<char>,
) -> LockSpec {
    LockSpec {
        secret_hash,
        recipient,
        sender,
        amount,
        endtime: end_time(now, timeout_hours) as u64,
        withdrawn: false,
        refunded: false,
        preimage: Seq::empty(),
        target_chain,
        target_address,
    }
}

/// The id of the lock that `initiate_swap` opens, or why it refuses.
pub open spec fn initiate_outcome(
    s: HtlcState,
    caller: Seq<char>,
    now: u64,
    secret_hash: Seq<u8>,
    recipient: Seq<char>,
    amount: u128,
    timeout_hours: u64,
) -> Result<Seq<u8>, HtlcError> {
    if amount == 0 {
        Err(HtlcError::InvalidInput)
    } else if end_time(now, timeout_hours) > u64::MAX {
        Err(HtlcError::InvalidInput)
    } else {
        let id = sha256_of(
            lock_id_input(secret_hash, recipient, caller, amount, end_time(now, timeout_hours) as u64, now),
        );
        if s.locks.contains_key(id) {
            Err(HtlcError::DuplicateLock)
        } else {
            Ok(id)
        }
    }
}

/// The ledger call of `withdraw`, or why it refuses.
pub open spec fn withdraw_outcome(
    s: HtlcState,
    caller: Seq<char>,
    id: Seq<u8>,
    preimage: Seq<char>,
) -> Result<LedgerOrder, HtlcError> {
    if !s.locks.contains_key(id) {
        Err(HtlcError::NotFound)
    } else if caller != s.locks[id].recipient {
        Err(HtlcError::Unauthorized)
    } else if s.locks[id].is_settled() {
        Err(HtlcError::AlreadySettled)
    } else if sha256_of(encode_utf8(preimage)) != s.locks[id].secret_hash {
        Err(HtlcError::SecretMismatch)
    } else {
        Ok(
            LedgerOrder::Transfer {
                token: s.token,
                receiver_id: s.locks[id].recipient,
                amount: s.locks[id].amount,
            },
        )
    }
}

/// A lock after a withdrawal that revealed `preimage`.
pub open spec fn withdrawn_lock(l: LockSpec, preimage: Seq<char>) -> LockSpec {
    LockSpec { withdrawn: true, preimage, ..l }
}

/// The ledger call of `refund`, or why it refuses.
pub open spec fn refund_outcome(s: HtlcState, caller: Seq<char>, now: u64, id: Seq<u8>) -> Result<
    LedgerOrder,
    HtlcError,
> {
    if !s.locks.contains_key(id) {
        Err(HtlcError::NotFound)
    } else if caller != s.locks[id].sender {
        Err(HtlcError::Unauthorized)
    } else if s.locks[id].is_settled() {
        Err(HtlcError::AlreadySettled)
    } else if now < s.locks[id].endtime {
        Err(HtlcError::TimelockNotExpired)
    } else {
        Ok(
            LedgerOrder::Transfer {
                token: s.token,
                receiver_id: s.locks[id].sender,
                amount: s.locks[id].amount,
            },
        )
    }
}

/// A lock after a refund.
pub open spec fn refunded_lock(l: LockSpec) -> LockSpec {
    LockSpec { refunded: true, ..l }
}

/// The bytes hashed to derive the id of a foreign-chain completion.
pub open spec fn completion_input(
    source_chain: Seq<char>,
    source_address: Seq<char>,
    destination: Seq<char>,
    amount: u128,
    preimage: Seq<char>,
) -> Seq<u8> {
    encode_utf8(source_chain) + encode_utf8(source_address) + encode_utf8(destination) + le_bytes(
        amount as nat,
        16,
    ) + encode_utf8(preimage)
}

/// The event id and the mint of `complete_swap`, or why it refuses.
pub open spec fn complete_outcome(
    s: HtlcState,
    caller: Seq<char>,
    source_chain: Seq<char>,
    source_address: Seq<char>,
    destination: Seq<char>,
    amount: u128,
    preimage: Seq<char>,
) -> Result<(Seq<u8>, LedgerOrder), HtlcError> {
    if !s.relayers.contains(caller) {
        Err(HtlcError::Unauthorized)
    } else {
        Ok(
            (
                sha256_of(completion_input(source_chain, source_address, destination, amount, preimage)),
                LedgerOrder::Mint { token: s.token, receiver_id: destination, amount },
            ),
        )
    }
}

/// The chain id of `execute_on_evm`, or why it refuses.
pub open spec fn evm_outcome(
    s: HtlcState,
    caller: Seq<char>,
    evm_chain_id: Seq<char>,
    contract_address: Seq<u8>,
    calldata: Seq<char>,
) -> Result<u64, HtlcError> {
    if !(s.relayers.contains(caller) || caller == s.owner) {
        Err(HtlcError::Unauthorized)
    } else if decimal_u64(evm_chain_id) is None {
        Err(HtlcError::InvalidInput)
    } else if !is_evm_address(contract_address) {
        Err(HtlcError::InvalidInput)
    } else if calldata.len() == 0 {
        Err(HtlcError::InvalidInput)
    } else {
        Ok(decimal_u64(evm_chain_id)->Some_0)
    }
}

/// A ledger call's result as plain values.
pub open spec fn call_result(r: Result<LedgerCall, HtlcError>) -> Result<LedgerOrder, HtlcError> {
    match r {
        Ok(c) => Ok(c@),
        Err(e) => Err(e),
    }
}

proof fn lemma_listed_push(v: Seq<String>, y: String, x: Seq<char>)
    ensures
        listed(v.push(y), x) == (listed(v, x) || y@ == x),
{
    if listed(v, x) {
        let j = choose|j: int| 0 <= j < v.len() && #[trigger] v[j]@ == x;
        assert(v.push(y)[j]@ == x);
    }
    if y@ == x {
        assert(v.push(y)[v.len() as int]@ == x);
    }
    if listed(v.push(y), x) {
        let j = choose|j: int| 0 <= j < v.push(y).len() && #[trigger] v.push(y)[j]@ == x;
        if j < v.len() {
            assert(v[j]@ == x);
        }
    }
}

/// A call that a relayer or the owner asked to have made on an EVM chain.
#[derive(Clone, Debug, PartialEq, Eq)]
pub struct EvmRequest {
    pub chain_id: u64,
    pub contract_address: String,
    pub calldata: String,
    pub gas_limit: u128,
}

/// Hash time-locked swaps of one fungible token.
pub struct UnrealHTLC {
    token: String,
    owner_id: String,
    lock_ids: Vec<CryptoHash>,
    lock_contracts: Vec<LockContract>,
    relayers: Vec<String>,
    lock_model: Ghost<Map<Seq<u8>, LockSpec>>,
}

impl View for UnrealHTLC {
    type V = HtlcState;

    closed spec fn view(&self) -> HtlcState {
        HtlcState {
            token: self.token@,
            owner: self.owner_id@,
            locks: self.lock_model@,
            relayers: Set::new(|x: Seq<char>| listed(self.relayers@, x)),
        }
    }
}

impl UnrealHTLC {
    /// The registry's lists agree with its model: one entry per id, and no
    /// lock is both withdrawn and refunded.
    pub closed spec fn wf(&self) -> bool {
        &&& self.lock_ids@.len() == self.lock_contracts@.len()
        &&& forall|i: int, j: int|
            0 <= i < j < self.lock_ids@.len() ==> #[trigger] self.lock_ids@[i]@ != #[trigger] self.lock_ids@[j]@
        &&& forall|i: int|
            0 <= i < self.lock_ids@.len() ==> self.lock_model@.contains_key(#[trigger] self.lock_ids@[i]@)
                && self.lock_model@[self.lock_ids@[i]@] == self.lock_contracts@[i]@
        &&& forall|k: Seq<u8>|
            #[trigger] self.lock_model@.contains_key(k) ==> exists|i: int|
                0 <= i < self.lock_ids@.len() && self.lock_ids@[i]@ == k
        &&& forall|k: Seq<u8>|
            #[trigger] self.lock_model@.contains_key(k) ==> !(self.lock_model@[k].withdrawn
                && self.lock_model@[k].refunded)
    }

    /// No lock of a well-formed contract is both withdrawn and refunded.
    pub proof fn lemma_status_exclusive(&self)
        requires
            self.wf(),
        ensures
            forall|k: Seq<u8>|
                #[trigger] self@.locks.contains_key(k) ==> !(self@.locks[k].withdrawn
                    && self@.locks[k].refunded),
    {
    }

    /// A contract for the ledger at `token_account_id`, managed by `owner_id`,
    /// with no locks and no relayers.
    pub fn new(token_account_id: String, owner_id: String) -> (r: Self)
        ensures
            r.wf(),
            r@.token == token_account_id@,
            r@.owner == owner_id@,
            r@.locks == Map::<Seq<u8>, LockSpec>::empty(),
            r@.relayers == Set::<Seq<char>>::empty(),
    {
        let r = UnrealHTLC {
            token: token_account_id,
            owner_id,
            lock_ids: Vec::new(),
            lock_contracts: Vec::new(),
            relayers: Vec::new(),
            lock_model: Ghost(Map::empty()),
        };
        assert(r@.relayers =~= Set::<Seq<char>>::empty());
        r
    }

    /// Where lock `id` stands in the registry's lists.
    fn find_lock(&self, id: &CryptoHash) -> (r: Option<usize>)
        requires
            self.wf(),
        ensures
            match r {
                Some(i) => i < self.lock_ids@.len() && self.lock_ids@[i as int]@ == id@,
                None => !self@.locks.contains_key(id@),
            },
    {
        let mut i: usize = 0;
        while i < self.lock_ids.len()
            invariant
                self.wf(),
                i <= self.lock_ids@.len(),
                forall|j: int| 0 <= j < i ==> self.lock_ids@[j]@ != id@,
            decreases self.lock_ids@.len() - i,
        {
            if same_hash(&self.lock_ids[i], id) {
                return Some(i);
            }
            i = i + 1;
        }
        None
    }

    /// Whether a lock with this id exists.
    pub fn has_lock_contract(&self, lock_contract_id: CryptoHash) -> (r: bool)
        requires
            self.wf(),
        ensures
            r == self@.locks.contains_key(lock_contract_id@),
    {
        self.find_lock(&lock_contract_id).is_some()
    }

    /// The lock with this id, with its secret hash in hex, if it exists.
    pub fn get_lock_contract(&self, lock_contract_id: CryptoHash) -> (r: Option<LockContractView>)
        requires
            self.wf(),
        ensures
            r is Some == self@.locks.contains_key(lock_contract_id@),
            r matches Some(v) ==> v.shows(self@.locks[lock_contract_id@]),
    {
        match self.find_lock(&lock_contract_id) {
            None => None,
            Some(i) => {
                let l = &self.lock_contracts[i];
                Some(
                    LockContractView {
                        secret_hash: hex_encode(l.secret_hash.as_slice()),
                        recipient: l.recipient.clone(),
                        sender: l.sender.clone(),
                        amount: l.amount,
                        endtime: l.endtime,
                        withdrawn: l.withdrawn,
                        refunded: l.refunded,
                        preimage: l.preimage.clone(),
                        target_chain: l.target_chain.clone(),
                        target_address: l.target_address.clone(),
                    },
                )
            },
        }
    }
    /// Whether `account_id` is a relayer.
    pub fn is_relayer(&self, account_id: &String) -> (r: bool)
        ensures
            r == self@.relayers.contains(account_id@),
    {
        let mut i: usize = 0;
        while i < self.relayers.len()
            invariant
                i <= self.relayers@.len(),
                forall|j: int| 0 <= j < i ==> self.relayers@[j]@ != account_id@,
            decreases self.relayers@.len() - i,
        {
            if self.relayers[i] == *account_id {
                assert(self.relayers@[i as int]@ == account_id@);
                return true;
            }
            i = i + 1;
        }
        false
    }

    /// Lets the owner add `account_id` to the relayers; adding one twice
    /// changes nothing.
    pub fn add_relayer(&mut self, caller: &String, account_id: String) -> (r: Result<(), HtlcError>)
        requires
            old(self).wf(),
        ensures
            final(self).wf(),
            caller@ != old(self)@.owner ==> r == Err::<(), HtlcError>(HtlcError::Unauthorized)
                && *final(self) == *old(self),
            caller@ == old(self)@.owner ==> r is Ok && final(self)@ == with_relayers(
                old(self)@,
                old(self)@.relayers.insert(account_id@),
            ),
    {
        if *caller != self.owner_id {
            return Err(HtlcError::Unauthorized);
        }
        let ghost before = self@;
        if !self.is_relayer(&account_id) {
            let ghost v = self.relayers@;
            let ghost a = account_id@;
            self.relayers.push(account_id);
            proof {
                assert forall|x: Seq<char>| listed(self.relayers@, x) == (listed(v, x) || a == x) by {
                    lemma_listed_push(v, self.relayers@.last(), x);
                    assert(self.relayers@ == v.push(self.relayers@.last()));
                }
            }
        }
        assert(self@.relayers =~= before.relayers.insert(account_id@));
        assert(self@ == with_relayers(before, before.relayers.insert(account_id@)));
        Ok(())
    }

    /// Lets the owner take `account_id` off the relayers; taking off one
    /// that is not there changes nothing.
    pub fn remove_relayer(&mut self, caller: &String, account_id: String) -> (r: Result<(), HtlcError>)
        requires
            old(self).wf(),
        ensures
            final(self).wf(),
            caller@ != old(self)@.owner ==> r == Err::<(), HtlcError>(HtlcError::Unauthorized)
                && *final(self) == *old(self),
            caller@ == old(self)@.owner ==> r is Ok && final(self)@ == with_relayers(
                old(self)@,
                old(self)@.relayers.remove(account_id@),
            ),
    {
        if *caller != self.owner_id {
            return Err(HtlcError::Unauthorized);
        }
        let ghost before = self@;
        let mut kept: Vec<String> = Vec::new();
        let mut i: usize = 0;
        while i < self.relayers.len()
            invariant
                i <= self.relayers@.len(),
                forall|x: Seq<char>|
                    #[trigger] listed(kept@, x) == (listed(self.relayers@.subrange(0, i as int), x) && x
                        != account_id@),
            decreases self.relayers@.len() - i,
        {
            let ghost k0 = kept@;
            let ghost pre = self.relayers@.subrange(0, i as int);
            let ghost y = self.relayers@[i as int];
            assert(self.relayers@.subrange(0, i + 1) == pre.push(y));
            if self.relayers[i] != account_id {
                kept.push(self.relayers[i].clone());
                assert(kept@ == k0.push(y));
                assert forall|x: Seq<char>|
                    #[trigger] listed(kept@, x) == (listed(self.relayers@.subrange(0, i + 1), x) && x
                        != account_id@) by {
                    lemma_listed_push(k0, y, x);
                    lemma_listed_push(pre, y, x);
                }
            } else {
                assert forall|x: Seq<char>|
                    #[trigger] listed(kept@, x) == (listed(self.relayers@.subrange(0, i + 1), x) && x
                        != account_id@) by {
                    lemma_listed_push(pre, y, x);
                }
            }
            i = i + 1;
        }
        assert(self.relayers@.subrange(0, self.relayers@.len() as int) == self.relayers@);
        self.relayers = kept;
        assert(self@.relayers =~= before.relayers.remove(account_id@));
        assert(self@ == with_relayers(before, before.relayers.remove(account_id@)));
        Ok(())
    }
    /// Opens a lock of `amount` from `caller` to `recipient`, redeemable with
    /// the preimage of `secret_hash` until `timeout_hours` after `now`, then
    /// refundable. Returns the new lock's id and the ledger call that funds it.
    pub fn initiate_swap(
        &mut self,
        caller: &String,
        now: u64,
        secret_hash: CryptoHash,
        recipient: String,
        amount: u128,
        timeout_hours: u64,
        target_chain: String,
        target_address: String,
    ) -> (r: Result<(CryptoHash, LedgerCall), HtlcError>)
        requires
            old(self).wf(),
        ensures
            final(self).wf(),
            match initiate_outcome(old(self)@, caller@, now, secret_hash@, recipient@, amount, timeout_hours) {
                Err(e) => r == Err::<(CryptoHash, LedgerCall), HtlcError>(e) && *final(self) == *old(self),
                Ok(id) => r matches Ok((lid, call)) && lid@ == id && call@ == (LedgerOrder::Fund {
                    token: old(self)@.token,
                    lock_id: id,
                    sender: caller@,
                    recipient: recipient@,
                    amount,
                }) && final(self)@ == with_lock(
                    old(self)@,
                    id,
                    opened_lock(
                        caller@,
                        now,
                        secret_hash@,
                        recipient@,
                        amount,
                        timeout_hours,
                        target_chain@,
                        target_address@,
                    ),
                ),
            },
    {
        if amount == 0 {
            return Err(HtlcError::InvalidInput);
        }
        let end: u128 = now as u128 + timeout_hours as u128 * HOUR_NANOS as u128;
        if end > u64::MAX as u128 {
            return Err(HtlcError::InvalidInput);
        }
        let endtime: u64 = end as u64;
        let mut data: Vec<u8> = Vec::new();
        push_bytes(&mut data, secret_hash.as_slice());
        push_bytes(&mut data, recipient.as_str().as_bytes());
        push_bytes(&mut data, caller.as_str().as_bytes());
        push_le_bytes(&mut data, amount, 16);
        push_le_bytes(&mut data, endtime as u128, 8);
        push_le_bytes(&mut data, now as u128, 8);
        assert(data@ == lock_id_input(secret_hash@, recipient@, caller@, amount, endtime, now));
        let id = sha256(data.as_slice());
        if self.find_lock(&id).is_some() {
            return Err(HtlcError::DuplicateLock);
        }
        let lock = LockContract {
            secret_hash,
            recipient: recipient.clone(),
            sender: caller.clone(),
            amount,
            endtime,
            withdrawn: false,
            refunded: false,
            preimage: String::new(),
            target_chain,
            target_address,
        };
        let ghost before = self@;
        let ghost nl = lock@;
        self.lock_ids.push(id);
        self.lock_contracts.push(lock);
        self.lock_model = Ghost(self.lock_model@.insert(id@, nl));
        proof {
            let n = self.lock_ids@.len() - 1;
            assert(self.lock_ids@[n]@ == id@);
            assert forall|k: Seq<u8>| #[trigger] self.lock_model@.contains_key(k) implies exists|i: int|
                0 <= i < self.lock_ids@.len() && self.lock_ids@[i]@ == k by {
                if k != id@ {
                    assert(old(self).lock_model@.contains_key(k));
                    let i = choose|i: int| 0 <= i < old(self).lock_ids@.len() && #[trigger] old(self).lock_ids@[i]@ == k;
                    assert(self.lock_ids@[i] == old(self).lock_ids@[i]);
                } else {
                    assert(self.lock_ids@[n]@ == k);
                }
            }
        }
        assert(nl == opened_lock(caller@, now, secret_hash@, recipient@, amount, timeout_hours, target_chain@, target_address@));
        assert(self@ == with_lock(before, id@, nl));
        let call = LedgerCall::Fund { token: self.token.clone(), lock_id: id, sender: caller.clone(), recipient, amount };
        Ok((id, call))
    }

    /// Lets the recipient of lock `lock_contract_id` take its funds by
    /// revealing the preimage of its secret hash. Returns the ledger call that
    /// pays the recipient.
    pub fn withdraw(&mut self, caller: &String, lock_contract_id: CryptoHash, preimage: String) -> (r: Result<
        LedgerCall,
        HtlcError,
    >)
        requires
            old(self).wf(),
        ensures
            final(self).wf(),
            call_result(r) == withdraw_outcome(old(self)@, caller@, lock_contract_id@, preimage@),
            r is Err ==> *final(self) == *old(self),
            r is Ok ==> final(self)@ == with_lock(
                old(self)@,
                lock_contract_id@,
                withdrawn_lock(old(self)@.locks[lock_contract_id@], preimage@),
            ),
    {
        let i = match self.find_lock(&lock_contract_id) {
            None => return Err(HtlcError::NotFound),
            Some(i) => i,
        };
        let ghost before = self@;
        let l = &self.lock_contracts[i];
        if *caller != l.recipient {
            return Err(HtlcError::Unauthorized);
        }
        if l.withdrawn || l.refunded {
            return Err(HtlcError::AlreadySettled);
        }
        let h = sha256(preimage.as_str().as_bytes());
        if !same_hash(&h, &l.secret_hash) {
            return Err(HtlcError::SecretMismatch);
        }
        let updated = l.with_settlement(true, l.refunded, preimage);
        let call = LedgerCall::Transfer { token: self.token.clone(), receiver_id: l.recipient.clone(), amount: l.amount };
        let ghost nl = updated@;
        self.lock_contracts.set(i, updated);
        self.lock_model = Ghost(self.lock_model@.insert(lock_contract_id@, nl));
        proof {
            assert forall|k: Seq<u8>| #[trigger] self.lock_model@.contains_key(k) implies exists|j: int|
                0 <= j < self.lock_ids@.len() && self.lock_ids@[j]@ == k by {
                assert(old(self).lock_model@.contains_key(k));
                let j = choose|j: int| 0 <= j < old(self).lock_ids@.len() && #[trigger] old(self).lock_ids@[j]@ == k;
                assert(self.lock_ids@[j] == old(self).lock_ids@[j]);
            }
        }
        assert(self@ == with_lock(before, lock_contract_id@, withdrawn_lock(before.locks[lock_contract_id@], preimage@)));
        Ok(call)
    }

    /// Lets the sender of lock `lock_contract_id` take its funds back once
    /// `now` has reached its end time. Returns the ledger call that repays
    /// the sender.
    pub fn refund(&mut self, caller: &String, now: u64, lock_contract_id: CryptoHash) -> (r: Result<
        LedgerCall,
        HtlcError,
    >)
        requires
            old(self).wf(),
        ensures
            final(self).wf(),
            call_result(r) == refund_outcome(old(self)@, caller@, now, lock_contract_id@),
            r is Err ==> *final(self) == *old(self),
            r is Ok ==> final(self)@ == with_lock(
                old(self)@,
                lock_contract_id@,
                refunded_lock(old(self)@.locks[lock_contract_id@]),
            ),
    {
        let i = match self.find_lock(&lock_contract_id) {
            None => return Err(HtlcError::NotFound),
            Some(i) => i,
        };
        let ghost before = self@;
        let l = &self.lock_contracts[i];
        if *caller != l.sender {
            return Err(HtlcError::Unauthorized);
        }
        if l.withdrawn || l.refunded {
            return Err(HtlcError::AlreadySettled);
        }
        if now < l.endtime {
            return Err(HtlcError::TimelockNotExpired);
        }
        let updated = l.with_settlement(l.withdrawn, true, l.preimage.clone());
        let call = LedgerCall::Transfer { token: self.token.clone(), receiver_id: l.sender.clone(), amount: l.amount };
        let ghost nl = updated@;
        self.lock_contracts.set(i, updated);
        self.lock_model = Ghost(self.lock_model@.insert(lock_contract_id@, nl));
        proof {
            assert forall|k: Seq<u8>| #[trigger] self.lock_model@.contains_key(k) implies exists|j: int|
                0 <= j < self.lock_ids@.len() && self.lock_ids@[j]@ == k by {
                assert(old(self).lock_model@.contains_key(k));
                let j = choose|j: int| 0 <= j < old(self).lock_ids@.len() && #[trigger] old(self).lock_ids@[j]@ == k;
                assert(self.lock_ids@[j] == old(self).lock_ids@[j]);
            }
        }
        assert(self@ == with_lock(before, lock_contract_id@, refunded_lock(before.locks[lock_contract_id@])));
        Ok(call)
    }
    /// Confirms the funding of a lock: an error when the ledger reported that
    /// the transfer into this contract failed.
    pub fn on_ft_transfer_call(&mut self, transfer_succeeded: bool) -> (r: Result<(), HtlcError>)
        ensures
            *final(self) == *old(self),
            transfer_succeeded ==> r is Ok,
            !transfer_succeeded ==> r == Err::<(), HtlcError>(HtlcError::TransferFailed),
    {
        if transfer_succeeded {
            Ok(())
        } else {
            Err(HtlcError::TransferFailed)
        }
    }

    /// Lets a relayer attest that a swap completed on another chain. Returns
    /// the id of the completion event and the ledger call that mints `amount`
    /// to `destination`. Nothing is recorded: the same attestation is honoured
    /// again if repeated.
    pub fn complete_swap(
        &mut self,
        caller: &String,
        source_chain: String,
        source_address: String,
        destination: String,
        amount: u128,
        preimage: String,
    ) -> (r: Result<(CryptoHash, LedgerCall), HtlcError>)
        ensures
            *final(self) == *old(self),
            match complete_outcome(
                old(self)@,
                caller@,
                source_chain@,
                source_address@,
                destination@,
                amount,
                preimage@,
            ) {
                Err(e) => r == Err::<(CryptoHash, LedgerCall), HtlcError>(e),
                Ok((id, order)) => r matches Ok((eid, call)) && eid@ == id && call@ == order,
            },
    {
        if !self.is_relayer(caller) {
            return Err(HtlcError::Unauthorized);
        }
        let mut data: Vec<u8> = Vec::new();
        push_bytes(&mut data, source_chain.as_str().as_bytes());
        push_bytes(&mut data, source_address.as_str().as_bytes());
        push_bytes(&mut data, destination.as_str().as_bytes());
        push_le_bytes(&mut data, amount, 16);
        push_bytes(&mut data, preimage.as_str().as_bytes());
        assert(data@ == completion_input(source_chain@, source_address@, destination@, amount, preimage@));
        let id = sha256(data.as_slice());
        let call = LedgerCall::Mint { token: self.token.clone(), receiver_id: destination, amount };
        Ok((id, call))
    }

    /// Lets a relayer or the owner ask for a call on an EVM chain, once the
    /// chain id is a decimal number, the contract address is `0x` and 40 hex
    /// digits, and the call data is not empty. Returns the request, with the
    /// chain id read as a number. Nothing is executed here.
    pub fn execute_on_evm(
        &mut self,
        caller: &String,
        evm_chain_id: String,
        contract_address: String,
        calldata: String,
        gas_limit: u128,
    ) -> (r: Result<EvmRequest, HtlcError>)
        ensures
            *final(self) == *old(self),
            match evm_outcome(
                old(self)@,
                caller@,
                evm_chain_id@,
                encode_utf8(contract_address@),
                calldata@,
            ) {
                Err(e) => r == Err::<EvmRequest, HtlcError>(e),
                Ok(id) => r matches Ok(q) && q.chain_id == id && q.contract_address@ == contract_address@
                    && q.calldata@ == calldata@ && q.gas_limit == gas_limit,
            },
    {
        if !(self.is_relayer(caller) || *caller == self.owner_id) {
            return Err(HtlcError::Unauthorized);
        }
        let chain_id = match parse_u64(evm_chain_id.as_str()) {
            Some(id) => id,
            None => return Err(HtlcError::InvalidInput),
        };
        if !check_evm_address(contract_address.as_str().as_bytes()) {
            return Err(HtlcError::InvalidInput);
        }
        if calldata.as_str().is_empty() {
            return Err(HtlcError::InvalidInput);
        }
        Ok(EvmRequest { chain_id, contract_address, calldata, gas_limit })
    }
}

} // verus!
