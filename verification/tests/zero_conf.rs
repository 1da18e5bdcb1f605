use liquid_swap_core::model::Config;
use liquid_swap_core::receive_swap::accepts_zero_conf;
use liquid_swap_core::tx::{hex_to_bytes, parse_lockup_tx, LockupTxInfo};

fn info(fees_sat: u64, vsize: u64, rbf: bool) -> LockupTxInfo {
    LockupTxInfo {
        fees_sat,
        vsize,
        rbf_explicit: rbf,
    }
}

#[test]
fn gate_amount_ceiling() {
    let cfg = Config::mainnet();
    // Default ceiling is 100_000 sat.
    assert!(accepts_zero_conf(&cfg, 100_000, &info(1000, 500, false)));
    assert!(!accepts_zero_conf(&cfg, 100_001, &info(1000, 500, false)));
    let small = Config {
        zero_conf_max_amount_sat: Some(10),
        ..Config::mainnet()
    };
    assert!(!accepts_zero_conf(&small, 11, &info(1000, 500, false)));
    assert!(accepts_zero_conf(&small, 10, &info(1000, 500, false)));
}

#[test]
fn gate_rbf_signal() {
    let cfg = Config::mainnet();
    assert!(!accepts_zero_conf(&cfg, 50_000, &info(1000, 500, true)));
    assert!(accepts_zero_conf(&cfg, 50_000, &info(1000, 500, false)));
}

#[test]
fn gate_fee_lower_bound_is_exact() {
    // Mainnet rate is 0.01 sat/vbyte; with vsize 500 the lower bound is
    // 500 * 0.01 * 0.8 = 4 sat.
    let cfg = Config::mainnet();
    assert!(accepts_zero_conf(&cfg, 50_000, &info(1000, 500, false)));
    assert!(accepts_zero_conf(&cfg, 50_000, &info(4, 500, false)));
    assert!(!accepts_zero_conf(&cfg, 50_000, &info(3, 500, false)));
    // Testnet rate is 0.1 sat/vbyte; with vsize 500 the bound is 40 sat.
    let t = Config::testnet();
    assert!(accepts_zero_conf(&t, 50_000, &info(40, 500, false)));
    assert!(!accepts_zero_conf(&t, 50_000, &info(39, 500, false)));
}

#[test]
fn hex_decoding_is_exact() {
    assert_eq!(hex_to_bytes("").unwrap(), Vec::<u8>::new());
    assert_eq!(hex_to_bytes("00ff10Ab").unwrap(), vec![0x00, 0xff, 0x10, 0xab]);
    assert!(hex_to_bytes("0").is_none());
    assert!(hex_to_bytes("zz").is_none());
    assert!(hex_to_bytes("0g").is_none());
}

#[test]
fn lockup_summary_matches_the_transaction() {
    // Build a transaction with a known fee output and input sequence, and
    // check the parsed summary against the elements crate's own accessors.
    let mut txin = elements::TxIn::default();
    txin.sequence = elements::Sequence::MAX;
    let asset = elements::AssetId::from_slice(&[7u8; 32]).unwrap();
    let tx = elements::Transaction {
        version: 2,
        lock_time: elements::LockTime::ZERO,
        input: vec![txin],
        output: vec![elements::TxOut::new_fee(1234, asset)],
    };
    let hex = elements::encode::serialize_hex(&tx);
    let parsed = parse_lockup_tx(&hex).unwrap();
    assert_eq!(parsed.fees_sat, 1234);
    assert_eq!(parsed.vsize, tx.vsize() as u64);
    assert!(!parsed.rbf_explicit);

    let mut rbf_in = elements::TxIn::default();
    rbf_in.sequence = elements::Sequence::ENABLE_RBF_NO_LOCKTIME;
    let tx2 = elements::Transaction {
        version: 2,
        lock_time: elements::LockTime::ZERO,
        input: vec![rbf_in],
        output: vec![elements::TxOut::new_fee(10, asset)],
    };
    let parsed2 = parse_lockup_tx(&elements::encode::serialize_hex(&tx2)).unwrap();
    assert!(parsed2.rbf_explicit);
    assert_eq!(parsed2.fees_sat, 10);
}

#[test]
fn malformed_transactions_are_rejected() {
    assert!(parse_lockup_tx("nothex").is_err());
    assert!(parse_lockup_tx("00").is_err());
    assert!(parse_lockup_tx("").is_err());
}
