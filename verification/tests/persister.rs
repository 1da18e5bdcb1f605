use liquid_swap_core::error::PaymentError;
use liquid_swap_core::model::{
    payment_type_from_code, payment_type_to_code, ChainSwap, ChainSwapDetails,
    CreateChainResponse, PaymentState, PaymentType,
};
use liquid_swap_core::persist::{InternalCreateChainResponse, Persister};

fn mk_chain_swap(id: &str, created_at: u32, state: PaymentState, refund_tx_id: Option<&str>) -> ChainSwap {
    ChainSwap {
        id: id.to_string(),
        payment_type: PaymentType::Receive,
        address: "addr".to_string(),
        preimage: "pre".to_string(),
        payer_amount_sat: 1000,
        receiver_amount_sat: 990,
        create_response_json: "{}".to_string(),
        claim_private_key: "ck".to_string(),
        refund_private_key: "rk".to_string(),
        lockup_tx_id: None,
        refund_tx_id: refund_tx_id.map(|s| s.to_string()),
        created_at,
        state,
    }
}

#[test]
fn insert_rejects_duplicate_id() {
    let mut p = Persister::new();
    p.insert_chain_swap(&mk_chain_swap("a", 1, PaymentState::Created, None))
        .unwrap();
    let r = p.insert_chain_swap(&mk_chain_swap("a", 2, PaymentState::Created, None));
    assert!(matches!(r, Err(PaymentError::PersistError)));
    assert_eq!(p.chain_swaps.len(), 1);
}

#[test]
fn list_orders_by_created_at() {
    let mut p = Persister::new();
    p.insert_chain_swap(&mk_chain_swap("b", 20, PaymentState::Created, None))
        .unwrap();
    p.insert_chain_swap(&mk_chain_swap("a", 10, PaymentState::Created, None))
        .unwrap();
    p.insert_chain_swap(&mk_chain_swap("c", 15, PaymentState::Created, None))
        .unwrap();
    let all = p.list_chain_swaps(None);
    let ids: Vec<&str> = all.iter().map(|s| s.id.as_str()).collect();
    assert_eq!(ids, vec!["a", "c", "b"]);
}

#[test]
fn list_filters_by_state() {
    let mut p = Persister::new();
    p.insert_chain_swap(&mk_chain_swap("a", 1, PaymentState::Created, None))
        .unwrap();
    p.insert_chain_swap(&mk_chain_swap("b", 2, PaymentState::Pending, None))
        .unwrap();
    p.insert_chain_swap(&mk_chain_swap("c", 3, PaymentState::Complete, None))
        .unwrap();
    p.insert_chain_swap(&mk_chain_swap("d", 4, PaymentState::Failed, None))
        .unwrap();
    let ongoing = p.list_ongoing_chain_swaps();
    let ids: Vec<&str> = ongoing.iter().map(|s| s.id.as_str()).collect();
    assert_eq!(ids, vec!["a", "b"]);
    let pending = p.list_pending_chain_swaps();
    let ids: Vec<&str> = pending.iter().map(|s| s.id.as_str()).collect();
    assert_eq!(ids, vec!["b"]);
}

#[test]
fn pending_index_by_refund_tx_id_is_exact() {
    let mut p = Persister::new();
    // Pending with refund id: indexed.
    p.insert_chain_swap(&mk_chain_swap("a", 1, PaymentState::Pending, Some("r1")))
        .unwrap();
    // Pending without refund id: not indexed.
    p.insert_chain_swap(&mk_chain_swap("b", 2, PaymentState::Pending, None))
        .unwrap();
    // Non-pending states with refund ids: not indexed.
    p.insert_chain_swap(&mk_chain_swap("c", 3, PaymentState::Created, Some("r2")))
        .unwrap();
    p.insert_chain_swap(&mk_chain_swap("d", 4, PaymentState::Complete, Some("r3")))
        .unwrap();
    p.insert_chain_swap(&mk_chain_swap("e", 5, PaymentState::Failed, Some("r4")))
        .unwrap();
    p.insert_chain_swap(&mk_chain_swap("f", 6, PaymentState::TimedOut, Some("r5")))
        .unwrap();
    // A second pending one.
    p.insert_chain_swap(&mk_chain_swap("g", 7, PaymentState::Pending, Some("r6")))
        .unwrap();
    let index = p.list_pending_chain_swaps_by_refund_tx_id();
    let mut keys: Vec<&str> = index.iter().map(|e| e.0.as_str()).collect();
    keys.sort();
    assert_eq!(keys, vec!["r1", "r6"]);
    for (key, swap) in &index {
        assert_eq!(swap.state, PaymentState::Pending);
        assert_eq!(swap.refund_tx_id.as_deref(), Some(key.as_str()));
    }
}

#[test]
fn pending_index_keeps_the_latest_duplicate() {
    // Two pending swaps sharing a refund id: one entry, supplied by the
    // latest record in creation order.
    let mut p = Persister::new();
    p.insert_chain_swap(&mk_chain_swap("old", 1, PaymentState::Pending, Some("r1")))
        .unwrap();
    p.insert_chain_swap(&mk_chain_swap("new", 9, PaymentState::Pending, Some("r1")))
        .unwrap();
    let index = p.list_pending_chain_swaps_by_refund_tx_id();
    assert_eq!(index.len(), 1);
    assert_eq!(index[0].0, "r1");
    assert_eq!(index[0].1.id, "new");
}

#[test]
fn payment_type_codes_are_stable() {
    assert_eq!(payment_type_to_code(PaymentType::Send), 0);
    assert_eq!(payment_type_to_code(PaymentType::Receive), 1);
    assert_eq!(payment_type_from_code(0), Some(PaymentType::Send));
    assert_eq!(payment_type_from_code(1), Some(PaymentType::Receive));
    assert_eq!(payment_type_from_code(2), None);
}

#[test]
fn try_update_is_write_once() {
    let mut p = Persister::new();
    p.insert_chain_swap(&mk_chain_swap("a", 1, PaymentState::Created, None))
        .unwrap();
    p.try_handle_chain_swap_update("a", PaymentState::Pending, Some("lock1"), None)
        .unwrap();
    // A replayed event with different ids must not clobber the stored ones.
    p.try_handle_chain_swap_update("a", PaymentState::Pending, Some("lock2"), Some("refund1"))
        .unwrap();
    p.try_handle_chain_swap_update("a", PaymentState::Complete, Some("lock3"), Some("refund2"))
        .unwrap();
    let s = p.fetch_chain_swap("a").unwrap();
    assert_eq!(s.lockup_tx_id.as_deref(), Some("lock1"));
    assert_eq!(s.refund_tx_id.as_deref(), Some("refund1"));
    // The state, by contrast, is always overwritten.
    assert_eq!(s.state, PaymentState::Complete);
}

#[test]
fn try_update_unknown_id_is_a_no_op() {
    let mut p = Persister::new();
    p.insert_chain_swap(&mk_chain_swap("a", 1, PaymentState::Created, None))
        .unwrap();
    p.try_handle_chain_swap_update("zz", PaymentState::Failed, Some("x"), None)
        .unwrap();
    let s = p.fetch_chain_swap("a").unwrap();
    assert_eq!(s.state, PaymentState::Created);
    assert!(s.lockup_tx_id.is_none());
    assert!(p.fetch_chain_swap("zz").is_none());
}

#[test]
fn query_text_joins_where_clauses() {
    let q = Persister::list_chain_swaps_query(&vec![]);
    assert!(q.starts_with("SELECT id, payment_type, address"));
    assert!(q.ends_with("FROM chain_swaps ORDER BY created_at"));
    assert!(!q.contains("WHERE"));

    let q1 = Persister::list_chain_swaps_query(&vec!["id = ?1".to_string()]);
    assert!(q1.contains("FROM chain_swaps WHERE id = ?1 ORDER BY created_at"));

    let q2 = Persister::list_chain_swaps_query(&vec![
        "id = ?1".to_string(),
        "state = ?2".to_string(),
    ]);
    assert!(q2.contains("WHERE id = ?1 AND state = ?2 ORDER BY created_at"));
}

#[test]
fn create_response_conversion_checks_the_id() {
    let details = ChainSwapDetails {
        lockup_address: "lq1".to_string(),
        server_public_key: "02ab".to_string(),
        timeout_block_height: 1000,
        amount_sat: 2500,
    };
    let resp = CreateChainResponse {
        id: "swap1".to_string(),
        claim_details: details.clone(),
        lockup_details: details,
    };
    let ok = InternalCreateChainResponse::try_convert_from_boltz(&resp, "swap1").unwrap();
    assert_eq!(ok.claim_details.lockup_address, "lq1");
    assert_eq!(ok.lockup_details.amount_sat, 2500);
    let err = InternalCreateChainResponse::try_convert_from_boltz(&resp, "other");
    assert!(matches!(err, Err(PaymentError::PersistError)));
}
