use near_sdk::env::sha256_array;
use unreal_htlc::chain::{ChainId, NetworkId};
use unreal_htlc::digest::CryptoHash;
use unreal_htlc::htlc::{UnrealHTLC, HOUR_NANOS};
use unreal_htlc::lock::{HtlcError, LedgerCall};

const START: u64 = 1_700_000_000_000_000_000;

fn s(x: &str) -> String {
    x.to_string()
}

fn contract() -> UnrealHTLC {
    UnrealHTLC::new(s("token.near"), s("owner.near"))
}

fn secret_hash() -> CryptoHash {
    sha256_array(b"s3cr3t")
}

fn open_lock(h: &mut UnrealHTLC) -> CryptoHash {
    match h.initiate_swap(&s("alice.near"), START, secret_hash(), s("bob.near"), 100, 1, s("ethereum"), s("0xabc")) {
        Ok((id, _)) => id,
        Err(e) => panic!("initiate_swap failed: {:?}", e),
    }
}

#[test]
fn withdraw_with_secret_then_refund_is_settled() {
    let mut h = contract();
    let id = open_lock(&mut h);
    let paid = h.withdraw(&s("bob.near"), id, s("s3cr3t"));
    assert_eq!(
        paid,
        Ok(LedgerCall::Transfer { token: s("token.near"), receiver_id: s("bob.near"), amount: 100 })
    );
    let view = h.get_lock_contract(id).unwrap();
    assert!(view.withdrawn);
    assert!(!view.refunded);
    assert_eq!(view.preimage, "s3cr3t");
    let later = START + HOUR_NANOS * 2;
    assert_eq!(h.refund(&s("alice.near"), later, id), Err(HtlcError::AlreadySettled));
}

#[test]
fn refund_after_timeout_then_withdraw_is_settled() {
    let mut h = contract();
    let id = open_lock(&mut h);
    let expiry = START + HOUR_NANOS;
    assert_eq!(h.refund(&s("alice.near"), expiry - 1, id), Err(HtlcError::TimelockNotExpired));
    assert_eq!(
        h.refund(&s("alice.near"), expiry, id),
        Ok(LedgerCall::Transfer { token: s("token.near"), receiver_id: s("alice.near"), amount: 100 })
    );
    let view = h.get_lock_contract(id).unwrap();
    assert!(view.refunded);
    assert!(!view.withdrawn);
    assert_eq!(h.withdraw(&s("bob.near"), id, s("s3cr3t")), Err(HtlcError::AlreadySettled));
}

#[test]
fn relayer_completion_mints_and_repeats() {
    let mut h = contract();
    assert_eq!(h.add_relayer(&s("owner.near"), s("relayer.near")), Ok(()));
    let first = h.complete_swap(&s("relayer.near"), s("ethereum"), s("0xfeed"), s("dest.near"), 250, s("pre"));
    let mint = LedgerCall::Mint { token: s("token.near"), receiver_id: s("dest.near"), amount: 250 };
    let (event_id, call) = first.clone().unwrap();
    assert_eq!(call, mint);
    let mut input: Vec<u8> = Vec::new();
    input.extend_from_slice(b"ethereum");
    input.extend_from_slice(b"0xfeed");
    input.extend_from_slice(b"dest.near");
    input.extend_from_slice(&250u128.to_le_bytes());
    input.extend_from_slice(b"pre");
    assert_eq!(event_id, sha256_array(&input));
    // Nothing records the completion, so the same attestation mints again.
    let second = h.complete_swap(&s("relayer.near"), s("ethereum"), s("0xfeed"), s("dest.near"), 250, s("pre"));
    assert_eq!(second, first);
}

#[test]
fn lock_id_is_digest_of_its_terms() {
    let mut h = contract();
    let result = h.initiate_swap(&s("alice.near"), START, secret_hash(), s("bob.near"), 100, 1, s("ethereum"), s("0xabc"));
    let (id, call) = result.unwrap();
    let endtime = START + HOUR_NANOS;
    let mut input: Vec<u8> = Vec::new();
    input.extend_from_slice(&secret_hash());
    input.extend_from_slice(b"bob.near");
    input.extend_from_slice(b"alice.near");
    input.extend_from_slice(&100u128.to_le_bytes());
    input.extend_from_slice(&endtime.to_le_bytes());
    input.extend_from_slice(&START.to_le_bytes());
    assert_eq!(id, sha256_array(&input));
    assert_eq!(
        call,
        LedgerCall::Fund {
            token: s("token.near"),
            lock_id: id,
            sender: s("alice.near"),
            recipient: s("bob.near"),
            amount: 100,
        }
    );
    assert!(h.has_lock_contract(id));
    let view = h.get_lock_contract(id).unwrap();
    assert_eq!(view.endtime, endtime);
    assert_eq!(view.amount, 100);
    assert_eq!(view.sender, "alice.near");
    assert_eq!(view.recipient, "bob.near");
    assert_eq!(view.preimage, "");
    assert_eq!(view.target_chain, "ethereum");
    assert_eq!(view.target_address, "0xabc");
    assert!(!view.withdrawn && !view.refunded);
}

#[test]
fn lock_view_shows_secret_hash_in_hex() {
    let mut h = contract();
    let mut hash: CryptoHash = [0u8; 32];
    hash[0] = 0xab;
    hash[1] = 0x0f;
    hash[31] = 0x10;
    let (id, _) = h.initiate_swap(&s("alice.near"), START, hash, s("bob.near"), 5, 2, s(""), s("")).unwrap();
    let view = h.get_lock_contract(id).unwrap();
    let expected = format!("ab0f{}10", "00".repeat(29));
    assert_eq!(view.secret_hash, expected);
    assert_eq!(view.endtime, START + 2 * HOUR_NANOS);
}

#[test]
fn duplicate_lock_is_refused() {
    let mut h = contract();
    let id = open_lock(&mut h);
    let again = h.initiate_swap(&s("alice.near"), START, secret_hash(), s("bob.near"), 100, 1, s("x"), s("y"));
    assert_eq!(again, Err(HtlcError::DuplicateLock));
    assert!(h.has_lock_contract(id));
}

#[test]
fn invalid_initiations_are_refused() {
    let mut h = contract();
    assert_eq!(
        h.initiate_swap(&s("alice.near"), START, secret_hash(), s("bob.near"), 0, 1, s(""), s("")),
        Err(HtlcError::InvalidInput)
    );
    assert_eq!(
        h.initiate_swap(&s("alice.near"), START, secret_hash(), s("bob.near"), 10, u64::MAX / HOUR_NANOS, s(""), s("")),
        Err(HtlcError::InvalidInput)
    );
    let ok = h.initiate_swap(&s("alice.near"), 0, secret_hash(), s("bob.near"), u128::MAX, u64::MAX / HOUR_NANOS, s(""), s(""));
    assert!(ok.is_ok());
}

#[test]
fn wrong_preimage_is_refused_and_changes_nothing() {
    let mut h = contract();
    let id = open_lock(&mut h);
    let before = h.get_lock_contract(id);
    assert_eq!(h.withdraw(&s("bob.near"), id, s("guess")), Err(HtlcError::SecretMismatch));
    assert_eq!(h.get_lock_contract(id), before);
    assert_eq!(h.withdraw(&s("bob.near"), id, s("s3cr3t")).is_ok(), true);
}

#[test]
fn wrong_parties_are_refused() {
    let mut h = contract();
    let id = open_lock(&mut h);
    let before = h.get_lock_contract(id);
    assert_eq!(h.withdraw(&s("alice.near"), id, s("s3cr3t")), Err(HtlcError::Unauthorized));
    assert_eq!(h.withdraw(&s("mallory.near"), id, s("guess")), Err(HtlcError::Unauthorized));
    assert_eq!(h.refund(&s("bob.near"), u64::MAX, id), Err(HtlcError::Unauthorized));
    assert_eq!(h.get_lock_contract(id), before);
}

#[test]
fn settled_lock_stays_unchanged() {
    let mut h = contract();
    let id = open_lock(&mut h);
    h.withdraw(&s("bob.near"), id, s("s3cr3t")).unwrap();
    let before = h.get_lock_contract(id);
    assert_eq!(h.withdraw(&s("bob.near"), id, s("s3cr3t")), Err(HtlcError::AlreadySettled));
    assert_eq!(h.refund(&s("alice.near"), u64::MAX, id), Err(HtlcError::AlreadySettled));
    assert_eq!(h.get_lock_contract(id), before);
}

#[test]
fn unknown_lock_is_not_found() {
    let mut h = contract();
    let id: CryptoHash = [7u8; 32];
    assert!(!h.has_lock_contract(id));
    assert_eq!(h.get_lock_contract(id), None);
    assert_eq!(h.withdraw(&s("bob.near"), id, s("s3cr3t")), Err(HtlcError::NotFound));
    assert_eq!(h.refund(&s("alice.near"), START, id), Err(HtlcError::NotFound));
}

#[test]
fn non_relayer_cannot_complete() {
    let mut h = contract();
    assert_eq!(
        h.complete_swap(&s("mallory.near"), s("ethereum"), s("0x1"), s("dest.near"), 1, s("p")),
        Err(HtlcError::Unauthorized)
    );
    assert_eq!(
        h.complete_swap(&s("owner.near"), s("ethereum"), s("0x1"), s("dest.near"), 1, s("p")),
        Err(HtlcError::Unauthorized)
    );
}

#[test]
fn relayers_are_managed_by_the_owner() {
    let mut h = contract();
    assert_eq!(h.add_relayer(&s("mallory.near"), s("r.near")), Err(HtlcError::Unauthorized));
    assert!(!h.is_relayer(&s("r.near")));
    assert_eq!(h.add_relayer(&s("owner.near"), s("r.near")), Ok(()));
    assert_eq!(h.add_relayer(&s("owner.near"), s("r.near")), Ok(()));
    assert!(h.is_relayer(&s("r.near")));
    assert_eq!(h.remove_relayer(&s("mallory.near"), s("r.near")), Err(HtlcError::Unauthorized));
    assert!(h.is_relayer(&s("r.near")));
    assert_eq!(h.remove_relayer(&s("owner.near"), s("r.near")), Ok(()));
    assert!(!h.is_relayer(&s("r.near")));
    assert_eq!(h.remove_relayer(&s("owner.near"), s("r.near")), Ok(()));
    assert!(
        h.complete_swap(&s("r.near"), s("c"), s("a"), s("d.near"), 1, s("p")) == Err(HtlcError::Unauthorized)
    );
}

#[test]
fn funding_confirmation() {
    let mut h = contract();
    assert_eq!(h.on_ft_transfer_call(true), Ok(()));
    assert_eq!(h.on_ft_transfer_call(false), Err(HtlcError::TransferFailed));
}

const ADDRESS: &str = "0x1111111111111111111111111111111111111111";

#[test]
fn evm_request_is_checked() {
    let mut h = contract();
    let ok = h.execute_on_evm(&s("owner.near"), s("11155111"), s("0xAbCdEf0123456789abcdef0123456789ABCDEF01"), s("0xdeadbeef"), 21000);
    let req = ok.unwrap();
    assert_eq!(req.chain_id, 11155111);
    assert_eq!(req.gas_limit, 21000);
    assert_eq!(req.calldata, "0xdeadbeef");
    assert_eq!(h.execute_on_evm(&s("owner.near"), s("+5"), s(ADDRESS), s("x"), 1).unwrap().chain_id, 5);
    assert_eq!(h.execute_on_evm(&s("owner.near"), s("abc"), s(ADDRESS), s("x"), 1), Err(HtlcError::InvalidInput));
    assert_eq!(h.execute_on_evm(&s("owner.near"), s(""), s(ADDRESS), s("x"), 1), Err(HtlcError::InvalidInput));
    assert_eq!(
        h.execute_on_evm(&s("owner.near"), s("18446744073709551616"), s(ADDRESS), s("x"), 1),
        Err(HtlcError::InvalidInput)
    );
    assert_eq!(
        h.execute_on_evm(&s("owner.near"), s("1"), s("1x1111111111111111111111111111111111111111"), s("x"), 1),
        Err(HtlcError::InvalidInput)
    );
    assert_eq!(
        h.execute_on_evm(&s("owner.near"), s("1"), s("0x111111111111111111111111111111111111111"), s("x"), 1),
        Err(HtlcError::InvalidInput)
    );
    assert_eq!(
        h.execute_on_evm(&s("owner.near"), s("1"), s("0x111111111111111111111111111111111111111g"), s("x"), 1),
        Err(HtlcError::InvalidInput)
    );
    assert_eq!(h.execute_on_evm(&s("owner.near"), s("1"), s(ADDRESS), s(""), 1), Err(HtlcError::InvalidInput));
    assert_eq!(h.execute_on_evm(&s("mallory.near"), s("1"), s(ADDRESS), s("x"), 1), Err(HtlcError::Unauthorized));
    h.add_relayer(&s("owner.near"), s("r.near")).unwrap();
    assert!(h.execute_on_evm(&s("r.near"), s("1"), s(ADDRESS), s("x"), 1).is_ok());
}

#[test]
fn chain_ids() {
    assert_eq!(ChainId::ethereum_mainnet(), ChainId::new(NetworkId::Mainnet, 1));
    assert_eq!(ChainId::ethereum_sepolia(), ChainId::new(NetworkId::Testnet, 11155111));
    assert_eq!(ChainId::near_mainnet(), ChainId::new(NetworkId::Mainnet, 0));
    assert_eq!(ChainId::near_testnet(), ChainId::new(NetworkId::Testnet, 0));
    let c = ChainId::new(NetworkId::Testnet, 42);
    assert_eq!(c.network_id, NetworkId::Testnet);
    assert_eq!(c.chain_id, 42);
}
