use std::cell::Cell;

use liquid_swap_core::error::PaymentError;
use liquid_swap_core::model::{
    Config, PaymentState, PayloadKind, ReceiveSwap, Update, UpdatePayload,
};
use liquid_swap_core::persist::Persister;
use liquid_swap_core::receive_swap::{OnchainWallet, ReceiveSwapStateHandler, Swapper};

struct MockWallet;
impl OnchainWallet for MockWallet {
    fn next_unused_address(&self) -> Result<String, PaymentError> {
        Ok("lq1qaddress".to_string())
    }
}

struct MockSwapper {
    calls: Cell<u32>,
    fail: bool,
}
impl Swapper for MockSwapper {
    fn claim_receive_swap(
        &self,
        _swap: &ReceiveSwap,
        _claim_address: String,
    ) -> Result<String, PaymentError> {
        self.calls.set(self.calls.get() + 1);
        if self.fail {
            Err(PaymentError::Generic {
                err: "broadcast failed".to_string(),
            })
        } else {
            Ok("claimtx1".to_string())
        }
    }
}

type Handler = ReceiveSwapStateHandler<MockWallet, MockSwapper>;

fn mk_swap(id: &str, amount: u64, claim_tx_id: Option<&str>, state: PaymentState) -> ReceiveSwap {
    ReceiveSwap {
        id: id.to_string(),
        preimage: "pre".to_string(),
        create_response_json: "{}".to_string(),
        claim_private_key: "ck".to_string(),
        invoice: "lnbc1".to_string(),
        payer_amount_sat: amount,
        receiver_amount_sat: amount,
        claim_fees_sat: 0,
        claim_tx_id: claim_tx_id.map(|s| s.to_string()),
        lockup_tx_id: None,
        created_at: 42,
        state,
    }
}

fn mk_handler(swap: ReceiveSwap, fail_swapper: bool) -> Handler {
    let mut persister = Persister::new();
    persister.insert_receive_swap(&swap).unwrap();
    ReceiveSwapStateHandler::new(
        Config::mainnet(),
        MockWallet,
        persister,
        MockSwapper {
            calls: Cell::new(0),
            fail: fail_swapper,
        },
    )
}

/// A minimal Liquid transaction with one input (optionally signaling RBF)
/// and one explicit fee output, serialized to hex.
fn lockup_tx_hex(fee_sat: u64, rbf: bool) -> String {
    let mut txin = elements::TxIn::default();
    txin.sequence = if rbf {
        elements::Sequence::ENABLE_RBF_NO_LOCKTIME
    } else {
        elements::Sequence::MAX
    };
    let asset = elements::AssetId::from_slice(&[1u8; 32]).unwrap();
    let tx = elements::Transaction {
        version: 2,
        lock_time: elements::LockTime::ZERO,
        input: vec![txin],
        output: vec![elements::TxOut::new_fee(fee_sat, asset)],
    };
    elements::encode::serialize_hex(&tx)
}

fn mempool_update(id: &str, fee_sat: u64, rbf: bool) -> Update {
    Update {
        swap_id: id.to_string(),
        status: "transaction.mempool".to_string(),
        payload: Some(UpdatePayload {
            kind: PayloadKind::Mempool,
            tx_id: Some("lockup1".to_string()),
            raw_tx_hex: Some(lockup_tx_hex(fee_sat, rbf)),
        }),
    }
}

fn plain_update(id: &str, status: &str) -> Update {
    Update {
        swap_id: id.to_string(),
        status: status.to_string(),
        payload: None,
    }
}

#[test]
fn amount_above_ceiling_waits_for_confirmation() {
    // Mempool sighting of 150_000 sat against the default 100_000 ceiling:
    // the swap ends Pending with the lockup id set and no claim attempted.
    let mut h = mk_handler(mk_swap("s1", 150_000, None, PaymentState::Created), false);
    h.on_new_status(&mempool_update("s1", 1000, false)).unwrap();
    let s = h.persister.fetch_receive_swap("s1").unwrap();
    assert_eq!(s.state, PaymentState::Pending);
    assert_eq!(s.lockup_tx_id.as_deref(), Some("lockup1"));
    assert!(s.claim_tx_id.is_none());
    assert_eq!(h.swapper.calls.get(), 0);
    assert!(h.persister.payments.is_empty());
}

#[test]
fn small_amount_good_fees_is_claimed() {
    // An amount within the ceiling, no replace-by-fee signal, and ample
    // fees: the claim is broadcast, a provisional unconfirmed ledger entry
    // appears, and the claim id is published to subscribers.
    let mut h = mk_handler(mk_swap("s1", 50_000, None, PaymentState::Created), false);
    let mut rx = h.subscribe_payment_updates();
    h.on_new_status(&mempool_update("s1", 1000, false)).unwrap();
    let s = h.persister.fetch_receive_swap("s1").unwrap();
    assert_eq!(s.state, PaymentState::Pending);
    assert_eq!(s.lockup_tx_id.as_deref(), Some("lockup1"));
    assert_eq!(s.claim_tx_id.as_deref(), Some("claimtx1"));
    assert_eq!(h.swapper.calls.get(), 1);
    let entry = h.persister.fetch_payment("claimtx1").unwrap();
    assert_eq!(entry.amount_sat, 50_000);
    assert!(!entry.is_confirmed);
    let mut seen = Vec::new();
    while let Ok(v) = rx.try_recv() {
        seen.push(v);
    }
    assert!(seen.contains(&"claimtx1".to_string()));
}

#[test]
fn rbf_signal_blocks_zero_conf() {
    let mut h = mk_handler(mk_swap("s1", 50_000, None, PaymentState::Created), false);
    h.on_new_status(&mempool_update("s1", 1000, true)).unwrap();
    let s = h.persister.fetch_receive_swap("s1").unwrap();
    assert_eq!(s.state, PaymentState::Pending);
    assert!(s.claim_tx_id.is_none());
    assert_eq!(h.swapper.calls.get(), 0);
}

#[test]
fn low_fees_block_zero_conf() {
    // A fee output of zero satoshi is always below the 0.8 * vsize * rate
    // lower bound.
    let mut h = mk_handler(mk_swap("s1", 50_000, None, PaymentState::Created), false);
    h.on_new_status(&mempool_update("s1", 0, false)).unwrap();
    let s = h.persister.fetch_receive_swap("s1").unwrap();
    assert_eq!(s.state, PaymentState::Pending);
    assert!(s.claim_tx_id.is_none());
    assert_eq!(h.swapper.calls.get(), 0);
}

#[test]
fn swap_expired_fails_a_pending_swap() {
    let mut h = mk_handler(mk_swap("s1", 50_000, None, PaymentState::Pending), false);
    h.on_new_status(&plain_update("s1", "swap.expired")).unwrap();
    let s = h.persister.fetch_receive_swap("s1").unwrap();
    assert_eq!(s.state, PaymentState::Failed);
}

#[test]
fn unrecoverable_states_fail_the_swap() {
    for status in [
        "invoice.expired",
        "transaction.failed",
        "transaction.refunded",
    ] {
        let mut h = mk_handler(mk_swap("s1", 50_000, None, PaymentState::Created), false);
        h.on_new_status(&plain_update("s1", status)).unwrap();
        let s = h.persister.fetch_receive_swap("s1").unwrap();
        assert_eq!(s.state, PaymentState::Failed, "status {status}");
    }
}

#[test]
fn failed_overrides_terminal_states() {
    // Failed is the universal override: even a completed swap records a
    // counterparty-reported failure.
    let mut h = mk_handler(mk_swap("s1", 50_000, None, PaymentState::Complete), false);
    h.on_new_status(&plain_update("s1", "transaction.failed"))
        .unwrap();
    let s = h.persister.fetch_receive_swap("s1").unwrap();
    assert_eq!(s.state, PaymentState::Failed);
}

#[test]
fn confirmation_is_idempotent_once_claimed() {
    // A confirmation event on a swap that already has a claim id produces no
    // new claim and no state change.
    let mut h = mk_handler(
        mk_swap("s1", 50_000, Some("oldclaim"), PaymentState::Pending),
        false,
    );
    h.on_new_status(&plain_update("s1", "transaction.confirmed"))
        .unwrap();
    let s = h.persister.fetch_receive_swap("s1").unwrap();
    assert_eq!(s.state, PaymentState::Pending);
    assert_eq!(s.claim_tx_id.as_deref(), Some("oldclaim"));
    assert_eq!(h.swapper.calls.get(), 0);
    assert!(h.persister.payments.is_empty());
}

#[test]
fn confirmation_claims_unconditionally() {
    // Confirmed funds bypass the zero-conf checks: even a large amount is
    // claimed once the lockup confirms.
    let mut h = mk_handler(mk_swap("s1", 900_000, None, PaymentState::Created), false);
    h.on_new_status(&plain_update("s1", "transaction.confirmed"))
        .unwrap();
    let s = h.persister.fetch_receive_swap("s1").unwrap();
    assert_eq!(s.state, PaymentState::Pending);
    assert_eq!(s.claim_tx_id.as_deref(), Some("claimtx1"));
    assert_eq!(h.swapper.calls.get(), 1);
}

#[test]
fn capability_failure_is_contained() {
    // A failing swapper does not fail the event; the swap stays Pending
    // without a claim id.
    let mut h = mk_handler(mk_swap("s1", 50_000, None, PaymentState::Created), true);
    h.on_new_status(&mempool_update("s1", 1000, false)).unwrap();
    let s = h.persister.fetch_receive_swap("s1").unwrap();
    assert_eq!(s.state, PaymentState::Pending);
    assert!(s.claim_tx_id.is_none());
    assert_eq!(h.swapper.calls.get(), 1);
}

#[test]
fn mempool_after_claim_broadcast_is_a_benign_race() {
    // The race is benign: the lockup sighting is still recorded set-once,
    // no second claim is attempted, and the event succeeds.
    let mut h = mk_handler(
        mk_swap("s1", 50_000, Some("oldclaim"), PaymentState::Pending),
        false,
    );
    h.on_new_status(&mempool_update("s1", 1000, false)).unwrap();
    let s = h.persister.fetch_receive_swap("s1").unwrap();
    assert_eq!(s.state, PaymentState::Pending);
    assert_eq!(s.lockup_tx_id.as_deref(), Some("lockup1"));
    assert_eq!(s.claim_tx_id.as_deref(), Some("oldclaim"));
    assert_eq!(h.swapper.calls.get(), 0);
}

#[test]
fn receive_swap_ids_are_write_once() {
    let mut h = mk_handler(mk_swap("s1", 50_000, None, PaymentState::Created), false);
    h.persister
        .try_handle_receive_swap_update("s1", PaymentState::Pending, Some("claimA"), Some("lockA"))
        .unwrap();
    h.persister
        .try_handle_receive_swap_update("s1", PaymentState::Pending, Some("claimB"), Some("lockB"))
        .unwrap();
    let s = h.persister.fetch_receive_swap("s1").unwrap();
    assert_eq!(s.claim_tx_id.as_deref(), Some("claimA"));
    assert_eq!(s.lockup_tx_id.as_deref(), Some("lockA"));
}

#[test]
fn unknown_swap_id_is_an_error() {
    let mut h = mk_handler(mk_swap("s1", 50_000, None, PaymentState::Created), false);
    let r = h.on_new_status(&plain_update("nope", "transaction.confirmed"));
    assert!(matches!(r, Err(PaymentError::Generic { .. })));
}

#[test]
fn invalid_status_is_an_error() {
    let mut h = mk_handler(mk_swap("s1", 50_000, None, PaymentState::Created), false);
    let r = h.on_new_status(&plain_update("s1", "not.a.status"));
    assert!(matches!(r, Err(PaymentError::Generic { .. })));
    let s = h.persister.fetch_receive_swap("s1").unwrap();
    assert_eq!(s.state, PaymentState::Created);
}

#[test]
fn mempool_without_payload_is_an_error() {
    let mut h = mk_handler(mk_swap("s1", 50_000, None, PaymentState::Created), false);
    let r = h.on_new_status(&plain_update("s1", "transaction.mempool"));
    assert!(matches!(r, Err(PaymentError::Generic { .. })));
    let s = h.persister.fetch_receive_swap("s1").unwrap();
    assert_eq!(s.state, PaymentState::Created);
}

#[test]
fn informational_states_do_nothing() {
    for status in ["swap.created", "minerfee.paid", "invoice.settled"] {
        let mut h = mk_handler(mk_swap("s1", 50_000, None, PaymentState::Created), false);
        h.on_new_status(&plain_update("s1", status)).unwrap();
        let s = h.persister.fetch_receive_swap("s1").unwrap();
        assert_eq!(s.state, PaymentState::Created, "status {status}");
        assert_eq!(h.swapper.calls.get(), 0);
    }
}

#[test]
fn terminal_swap_rejects_confirmation() {
    // A confirmation for an unclaimed but completed swap is a denied
    // Pending transition: the event errors and nothing changes.
    let mut h = mk_handler(mk_swap("s1", 50_000, None, PaymentState::Failed), false);
    let r = h.on_new_status(&plain_update("s1", "transaction.confirmed"));
    assert!(r.is_err());
    let s = h.persister.fetch_receive_swap("s1").unwrap();
    assert_eq!(s.state, PaymentState::Failed);
    assert_eq!(h.swapper.calls.get(), 0);
}

#[test]
fn terminal_swap_rejects_mempool_sighting() {
    // A mempool sighting for a completed swap is a denied Pending transition:
    // the event errors and nothing is persisted.
    let mut h = mk_handler(mk_swap("s1", 50_000, None, PaymentState::Complete), false);
    let r = h.on_new_status(&mempool_update("s1", 1000, false));
    assert!(r.is_err());
    let s = h.persister.fetch_receive_swap("s1").unwrap();
    assert_eq!(s.state, PaymentState::Complete);
    assert!(s.lockup_tx_id.is_none());
}
