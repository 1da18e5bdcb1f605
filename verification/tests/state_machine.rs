use liquid_swap_core::error::PaymentError;
use liquid_swap_core::model::{
    parse_rev_swap_status, state_from_code, state_to_code, PaymentState, ReceiveSwap,
    RevSwapStatus,
};
use liquid_swap_core::receive_swap::{OnchainWallet, ReceiveSwapStateHandler, Swapper};

struct NoWallet;
impl OnchainWallet for NoWallet {
    fn next_unused_address(&self) -> Result<String, PaymentError> {
        Ok(String::from("addr"))
    }
}

struct NoSwapper;
impl Swapper for NoSwapper {
    fn claim_receive_swap(
        &self,
        _swap: &ReceiveSwap,
        _claim_address: String,
    ) -> Result<String, PaymentError> {
        Ok(String::from("tx"))
    }
}

type Handler = ReceiveSwapStateHandler<NoWallet, NoSwapper>;

fn allowed(from: PaymentState, to: PaymentState) -> bool {
    Handler::validate_state_transition(from, to).is_ok()
}

#[test]
fn transition_table_all_pairs() {
    let states = [
        PaymentState::Created,
        PaymentState::Pending,
        PaymentState::Complete,
        PaymentState::Failed,
        PaymentState::TimedOut,
    ];
    for &from in &states {
        for &to in &states {
            let expect = match to {
                PaymentState::Created => false,
                PaymentState::Pending => {
                    from == PaymentState::Created || from == PaymentState::Pending
                }
                PaymentState::Complete => {
                    from == PaymentState::Created || from == PaymentState::Pending
                }
                PaymentState::TimedOut => from == PaymentState::Created,
                PaymentState::Failed => true,
            };
            assert_eq!(allowed(from, to), expect, "pair {:?} -> {:?}", from, to);
        }
    }
}

#[test]
fn denied_transition_names_the_pair() {
    match Handler::validate_state_transition(PaymentState::Complete, PaymentState::Pending) {
        Err(PaymentError::Generic { err }) => {
            assert_eq!(err, "cannot transition from Complete to Pending state");
        }
        other => panic!("expected a generic error, got {:?}", other.is_ok()),
    }
    match Handler::validate_state_transition(PaymentState::Pending, PaymentState::Created) {
        Err(PaymentError::Generic { err }) => {
            assert_eq!(err, "cannot transition from Pending to Created state");
        }
        other => panic!("expected a generic error, got {:?}", other.is_ok()),
    }
}

#[test]
fn state_codes_are_stable() {
    assert_eq!(state_to_code(PaymentState::Created), 0);
    assert_eq!(state_to_code(PaymentState::Pending), 1);
    assert_eq!(state_to_code(PaymentState::Complete), 2);
    assert_eq!(state_to_code(PaymentState::Failed), 3);
    assert_eq!(state_to_code(PaymentState::TimedOut), 4);
    for c in 0u8..5 {
        let s = state_from_code(c).unwrap();
        assert_eq!(state_to_code(s), c);
    }
    assert!(state_from_code(5).is_none());
    assert!(state_from_code(255).is_none());
}

#[test]
fn status_strings_parse() {
    assert_eq!(
        parse_rev_swap_status("swap.created"),
        Some(RevSwapStatus::Created)
    );
    assert_eq!(
        parse_rev_swap_status("minerfee.paid"),
        Some(RevSwapStatus::MinerFeePaid)
    );
    assert_eq!(
        parse_rev_swap_status("transaction.mempool"),
        Some(RevSwapStatus::TransactionMempool)
    );
    assert_eq!(
        parse_rev_swap_status("transaction.confirmed"),
        Some(RevSwapStatus::TransactionConfirmed)
    );
    assert_eq!(
        parse_rev_swap_status("invoice.settled"),
        Some(RevSwapStatus::InvoiceSettled)
    );
    assert_eq!(
        parse_rev_swap_status("invoice.expired"),
        Some(RevSwapStatus::InvoiceExpired)
    );
    assert_eq!(
        parse_rev_swap_status("swap.expired"),
        Some(RevSwapStatus::SwapExpired)
    );
    assert_eq!(
        parse_rev_swap_status("transaction.failed"),
        Some(RevSwapStatus::TransactionFailed)
    );
    assert_eq!(
        parse_rev_swap_status("transaction.refunded"),
        Some(RevSwapStatus::TransactionRefunded)
    );
    assert_eq!(parse_rev_swap_status("transaction.unknown"), None);
    assert_eq!(parse_rev_swap_status(""), None);
}
