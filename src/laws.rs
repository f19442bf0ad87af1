//! Properties of the swap state machine that span several operations or hold
//! for every lock, proved over the outcomes that the operations' contracts
//! are stated in.

use vstd::prelude::*;
use vstd::utf8::encode_utf8;
use crate::digest::sha256_of;
use crate::htlc::{
    HtlcState, with_lock, end_time, lock_id_input, opened_lock, initiate_outcome, withdraw_outcome,
    withdrawn_lock, refund_outcome, refunded_lock, complete_outcome,
};
use crate::lock::{HtlcError, LedgerOrder};

verus! {

/// Opening a lock on the hash of `secret` and withdrawing with `secret` right
/// after succeeds and pays `amount` to the recipient; from then on every
/// withdrawal by the recipient and every refund by the sender is refused as
/// already settled. Left out: an end time past the clock's range, and an id
/// that is taken already.
pub proof fn lemma_initiate_then_withdraw(
    s: HtlcState,
    caller: Seq<char>,
    now: u64,
    secret: Seq<char>,
    recipient: Seq<char>,
    amount: u128,
    timeout_hours: u64,
    target_chain: Seq<char>,
    target_address: Seq<char>,
    later_preimage: Seq<char>,
    later_now: u64,
)
    requires
        amount > 0,
        timeout_hours > 0,
        end_time(now, timeout_hours) <= u64::MAX,
        !s.locks.contains_key(
            sha256_of(
                lock_id_input(
                    sha256_of(encode_utf8(secret)),
                    recipient,
                    caller,
                    amount,
                    end_time(now, timeout_hours) as u64,
                    now,
                ),
            ),
        ),
    ensures
        ({
            let h = sha256_of(encode_utf8(secret));
            let id = sha256_of(
                lock_id_input(h, recipient, caller, amount, end_time(now, timeout_hours) as u64, now),
            );
            let s1 = with_lock(
                s,
                id,
                opened_lock(caller, now, h, recipient, amount, timeout_hours, target_chain, target_address),
            );
            let s2 = with_lock(s1, id, withdrawn_lock(s1.locks[id], secret));
            &&& initiate_outcome(s, caller, now, h, recipient, amount, timeout_hours) == Ok::<
                Seq<u8>,
                HtlcError,
            >(id)
            &&& withdraw_outcome(s1, recipient, id, secret) == Ok::<LedgerOrder, HtlcError>(
                LedgerOrder::Transfer { token: s.token, receiver_id: recipient, amount },
            )
            &&& withdraw_outcome(s2, recipient, id, later_preimage) == Err::<LedgerOrder, HtlcError>(
                HtlcError::AlreadySettled,
            )
            &&& refund_outcome(s2, caller, later_now, id) == Err::<LedgerOrder, HtlcError>(
                HtlcError::AlreadySettled,
            )
        }),
{
}

/// An open lock cannot be refunded by its sender before its end time, and
/// can be from its end time on.
pub proof fn lemma_refund_waits_for_end_time(s: HtlcState, id: Seq<u8>, now: u64)
    requires
        s.locks.contains_key(id),
        !s.locks[id].is_settled(),
    ensures
        now < s.locks[id].endtime ==> refund_outcome(s, s.locks[id].sender, now, id) == Err::<
            LedgerOrder,
            HtlcError,
        >(HtlcError::TimelockNotExpired),
        now >= s.locks[id].endtime ==> refund_outcome(s, s.locks[id].sender, now, id) is Ok,
{
}

/// The recipient's withdrawal from an open lock with a preimage that does not
/// hash to its secret hash is refused with a mismatch. (A caller other than
/// the recipient is refused as unauthorized before the preimage is looked at.)
pub proof fn lemma_wrong_preimage_refused(s: HtlcState, id: Seq<u8>, preimage: Seq<char>)
    requires
        s.locks.contains_key(id),
        !s.locks[id].is_settled(),
        sha256_of(encode_utf8(preimage)) != s.locks[id].secret_hash,
    ensures
        withdraw_outcome(s, s.locks[id].recipient, id, preimage) == Err::<LedgerOrder, HtlcError>(
            HtlcError::SecretMismatch,
        ),
{
}

/// Only the recipient may withdraw and only the sender may refund: anyone
/// else is refused as unauthorized, whatever the lock's state.
pub proof fn lemma_wrong_party_refused(
    s: HtlcState,
    caller: Seq<char>,
    id: Seq<u8>,
    preimage: Seq<char>,
    now: u64,
)
    requires
        s.locks.contains_key(id),
    ensures
        caller != s.locks[id].recipient ==> withdraw_outcome(s, caller, id, preimage) == Err::<
            LedgerOrder,
            HtlcError,
        >(HtlcError::Unauthorized),
        caller != s.locks[id].sender ==> refund_outcome(s, caller, now, id) == Err::<
            LedgerOrder,
            HtlcError,
        >(HtlcError::Unauthorized),
{
}

/// A withdrawn or refunded lock stays so: its recipient's withdrawals and its
/// sender's refunds are all refused as already settled.
pub proof fn lemma_settled_lock_is_final(s: HtlcState, id: Seq<u8>, preimage: Seq<char>, now: u64)
    requires
        s.locks.contains_key(id),
        s.locks[id].is_settled(),
    ensures
        withdraw_outcome(s, s.locks[id].recipient, id, preimage) == Err::<LedgerOrder, HtlcError>(
            HtlcError::AlreadySettled,
        ),
        refund_outcome(s, s.locks[id].sender, now, id) == Err::<LedgerOrder, HtlcError>(
            HtlcError::AlreadySettled,
        ),
{
}

/// Settling moves a lock from open to exactly one terminal state: a
/// withdrawal or a refund goes through only on an open lock, and leaves it
/// withdrawn and not refunded, or refunded and not withdrawn.
pub proof fn lemma_settlement_is_one_way(
    s: HtlcState,
    caller: Seq<char>,
    id: Seq<u8>,
    preimage: Seq<char>,
    now: u64,
)
    ensures
        withdraw_outcome(s, caller, id, preimage) is Ok ==> {
            &&& !s.locks[id].is_settled()
            &&& withdrawn_lock(s.locks[id], preimage).withdrawn
            &&& !withdrawn_lock(s.locks[id], preimage).refunded
        },
        refund_outcome(s, caller, now, id) is Ok ==> {
            &&& !s.locks[id].is_settled()
            &&& refunded_lock(s.locks[id]).refunded
            &&& !refunded_lock(s.locks[id]).withdrawn
        },
{
}

/// A completion attested by an account that is not a relayer is refused as
/// unauthorized, so no mint is asked for.
pub proof fn lemma_completion_needs_relayer(
    s: HtlcState,
    caller: Seq<char>,
    source_chain: Seq<char>,
    source_address: Seq<char>,
    destination: Seq<char>,
    amount: u128,
    preimage: Seq<char>,
)
    requires
        !s.relayers.contains(caller),
    ensures
        complete_outcome(s, caller, source_chain, source_address, destination, amount, preimage)
            == Err::<(Seq<u8>, LedgerOrder), HtlcError>(HtlcError::Unauthorized),
{
}

} // verus!
