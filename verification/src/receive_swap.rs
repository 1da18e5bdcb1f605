use vstd::prelude::*;

use tokio::sync::broadcast;

use crate::error::PaymentError;
use crate::model::{
    clone_opt_string, is_unrecoverable, parse_rev_swap_status, spec_is_unrecoverable,
    spec_parse_rev_swap_status, Config, PaymentState, PaymentTxData, PaymentTxDataV, PaymentType,
    PayloadKind, ReceiveSwap, ReceiveSwapV, RevSwapStatus, Update, UpdateV,
};
use crate::notify::Notifier;
use crate::persist::{
    payments_upserted, updated_receive_table, Persister, ReceiveSwapUpdate,
};
use crate::text::push_str;
use crate::tx::{parse_lockup_tx, spec_lockup_tx_of, LockupTxInfo};

verus! {

/// Address derivation, provided per wallet implementation.
pub trait OnchainWallet {
    /// Derives a fresh receiving address.
    fn next_unused_address(&self) -> Result<String, PaymentError>;
}

/// The swap protocol capability: builds and broadcasts claim transactions
/// against the counterparty's escrow.
pub trait Swapper {
    /// Builds and broadcasts a claim transaction for the given swap to the
    /// given destination address, returning the claim transaction id.
    fn claim_receive_swap(&self, swap: &ReceiveSwap, claim_address: String) -> Result<
        String,
        PaymentError,
    >;
}

/// The validated transition table. Entering `Created` is always denied
/// (assignment at birth only); `Pending` and `Complete` are reachable only
/// from non-terminal states; `TimedOut` only directly from `Created`;
/// `Failed` is reachable from every state as a universal override.
pub open spec fn transition_allowed(from_state: PaymentState, to_state: PaymentState) -> bool {
    match to_state {
        PaymentState::Created => false,
        PaymentState::Pending => from_state is Created || from_state is Pending,
        PaymentState::Complete => from_state is Created || from_state is Pending,
        PaymentState::TimedOut => from_state is Created,
        PaymentState::Failed => true,
    }
}

/// Whether some record with this id is in the table.
pub open spec fn has_receive(t: Seq<ReceiveSwapV>, id: Seq<char>) -> bool {
    exists|i: int| 0 <= i < t.len() && (#[trigger] t[i]).id == id
}

/// The record with this id (meaningful only under `has_receive`).
pub open spec fn receive_at(t: Seq<ReceiveSwapV>, id: Seq<char>) -> ReceiveSwapV {
    t[choose|i: int| 0 <= i < t.len() && (#[trigger] t[i]).id == id]
}

/// The zero-conf acceptance gate: the claim is attempted exactly when the
/// amount is within the ceiling, no input signals replace-by-fee, and the
/// paid fees reach 0.8 of `vsize * min_fee_rate` (fee rate in msat/vbyte,
/// fees in sat; the comparison is exact over integers).
pub open spec fn spec_accepts_zero_conf(
    config: Config,
    receiver_amount_sat: u64,
    lockup_tx: LockupTxInfo,
) -> bool {
    &&& receiver_amount_sat <= config.spec_zero_conf_max_amount_sat()
    &&& !lockup_tx.rbf_explicit
    &&& lockup_tx.fees_sat * 10000 >= lockup_tx.vsize
        * config.zero_conf_min_fee_rate_msat_per_vbyte * 8
}

/// Runs the zero-conf gate on a lockup transaction summary.
pub fn accepts_zero_conf(config: &Config, receiver_amount_sat: u64, lockup_tx: &LockupTxInfo) -> (r:
    bool)
    ensures
        r == spec_accepts_zero_conf(*config, receiver_amount_sat, *lockup_tx),
{
    if receiver_amount_sat > config.zero_conf_max_amount() {
        return false;
    }
    if lockup_tx.rbf_explicit {
        return false;
    }
    let lhs: u128 = (lockup_tx.fees_sat as u128) * 10000;
    match (lockup_tx.vsize as u128).checked_mul(
        config.zero_conf_min_fee_rate_msat_per_vbyte as u128,
    ) {
        None => false,
        Some(rhs) => {
            if rhs > lhs {
                false
            } else {
                lhs >= rhs * 8
            }
        },
    }
}

/// The provisional ledger entry written when a claim with id `c` is
/// broadcast for this swap.
pub open spec fn claim_ledger_entry(swap: ReceiveSwapV, c: Seq<char>) -> PaymentTxDataV {
    PaymentTxDataV {
        tx_id: c,
        timestamp: None,
        amount_sat: swap.receiver_amount_sat,
        fees_sat: 0,
        payment_type: PaymentType::Receive,
        is_confirmed: false,
    }
}

/// A completed claim for this swap with claim tx id `c`: the ledger holds
/// the provisional entry, the swap is `Pending` with `c` written set-once,
/// and `c` was published to subscribers.
pub open spec fn claim_outcome(
    p0: Persister,
    p1: Persister,
    log0: Seq<Seq<char>>,
    log1: Seq<Seq<char>>,
    swap: ReceiveSwapV,
    c: Seq<char>,
) -> bool {
    &&& payments_upserted(p0.payments_view(), p1.payments_view(), claim_ledger_entry(swap, c))
    &&& p1.receive_view() == updated_receive_table(
        p0.receive_view(),
        swap.id,
        ReceiveSwapUpdate {
            to_state: PaymentState::Pending,
            claim_tx_id: Some(c),
            lockup_tx_id: None,
        },
    )
    &&& p1.chain_swaps == p0.chain_swaps
    &&& log1 == log0.push(c)
}

/// A claim that was broadcast and recorded in the ledger, but whose swap
/// record update was refused: only the ledger changed.
pub open spec fn claim_ledger_only(p0: Persister, p1: Persister, swap: ReceiveSwapV, c: Seq<char>) -> bool {
    &&& payments_upserted(p0.payments_view(), p1.payments_view(), claim_ledger_entry(swap, c))
    &&& p1.receive_swaps == p0.receive_swaps
    &&& p1.chain_swaps == p0.chain_swaps
}

/// The conditional update that records a mempool sighting: `Pending` with
/// the lockup transaction id written set-once.
pub open spec fn pending_lockup_update(lockup: Option<Seq<char>>) -> ReceiveSwapUpdate {
    ReceiveSwapUpdate { to_state: PaymentState::Pending, claim_tx_id: None, lockup_tx_id: lockup }
}

/// The mempool payload of a status event, if well-formed: the lockup
/// transaction id and its raw hex.
pub open spec fn mempool_payload(u: UpdateV) -> Option<(Seq<char>, Seq<char>)> {
    match u.payload {
        Some(p) => if p.kind is Mempool {
            match (p.tx_id, p.raw_tx_hex) {
                (Some(t), Some(h)) => Some((t, h)),
                _ => None,
            }
        } else {
            None
        },
        None => None,
    }
}

/// The swap status handler: consumes one status event at a time, validates
/// transitions, runs the zero-conf heuristic, invokes the protocol
/// capability, persists outcomes and fans out notifications.
pub struct ReceiveSwapStateHandler<W: OnchainWallet, S: Swapper> {
    pub config: Config,
    pub onchain_wallet: W,
    pub persister: Persister,
    pub swapper: S,
    pub subscription_notifier: Notifier,
}

/// The payment id a transition publishes: the claim id if given, else the
/// lockup id, else the claim id already stored on the record.
pub open spec fn spec_resolved_payment_id(
    claim: Option<Seq<char>>,
    lockup: Option<Seq<char>>,
    stored_claim: Option<Seq<char>>,
) -> Option<Seq<char>> {
    if claim is Some {
        claim
    } else if lockup is Some {
        lockup
    } else {
        stored_claim
    }
}

/// The publish log after a best-effort publish of an optional payment id.
pub open spec fn log_after_publish(log0: Seq<Seq<char>>, pid: Option<Seq<char>>) -> Seq<Seq<char>> {
    match pid {
        Some(p) => log0.push(p),
        None => log0,
    }
}

impl<W: OnchainWallet, S: Swapper> ReceiveSwapStateHandler<W, S> {
    /// Everything a status event leaves untouched: the configuration, the
    /// capabilities, the notification channel, and the chain swap table.
    pub open spec fn frame(pre: Self, post: Self) -> bool {
        &&& post.config == pre.config
        &&& post.onchain_wallet == pre.onchain_wallet
        &&& post.swapper == pre.swapper
        &&& post.subscription_notifier.channel() == pre.subscription_notifier.channel()
        &&& post.persister.chain_swaps == pre.persister.chain_swaps
    }

    pub fn new(config: Config, onchain_wallet: W, persister: Persister, swapper: S) -> (r: Self)
        requires
            persister.inv(),
        ensures
            r.config == config,
            r.onchain_wallet == onchain_wallet,
            r.persister == persister,
            r.swapper == swapper,
            r.persister.inv(),
            r.subscription_notifier.log() == Seq::<Seq<char>>::empty(),
    {
        ReceiveSwapStateHandler {
            config,
            onchain_wallet,
            persister,
            swapper,
            subscription_notifier: Notifier::new(30),
        }
    }

    /// A fresh subscription to the payment-changed feed; it sees ids
    /// published after this call.
    pub fn subscribe_payment_updates(&self) -> broadcast::Receiver<String> {
        self.subscription_notifier.subscribe()
    }

    /// Validates one transition against the table; a denied pair yields a
    /// domain error naming the offending states and has no side effect.
    pub fn validate_state_transition(from_state: PaymentState, to_state: PaymentState) -> (r:
        Result<(), PaymentError>)
        ensures
            (r is Ok) == transition_allowed(from_state, to_state),
            r matches Err(e) ==> e matches PaymentError::Generic { err } && err@
                == spec_transition_err_msg(from_state, to_state),
    {
        match (from_state, to_state) {
            (_, PaymentState::Created) => Err(transition_err(from_state, to_state)),
            (PaymentState::Created, PaymentState::Pending) => Ok(()),
            (PaymentState::Pending, PaymentState::Pending) => Ok(()),
            (_, PaymentState::Pending) => Err(transition_err(from_state, to_state)),
            (PaymentState::Created, PaymentState::Complete) => Ok(()),
            (PaymentState::Pending, PaymentState::Complete) => Ok(()),
            (_, PaymentState::Complete) => Err(transition_err(from_state, to_state)),
            (PaymentState::Created, PaymentState::TimedOut) => Ok(()),
            (_, PaymentState::TimedOut) => Err(transition_err(from_state, to_state)),
            (_, PaymentState::Failed) => Ok(()),
        }
    }

    /// Transitions a receive swap to a new state: looks up the record,
    /// validates the transition, persists through the store's set-once
    /// update, and publishes the resolved payment id to subscribers.
    /// A lookup or validation failure aborts with no persistence side effect.
    pub fn update_swap_info(
        &mut self,
        swap_id: &str,
        to_state: PaymentState,
        claim_tx_id: Option<&str>,
        lockup_tx_id: Option<&str>,
    ) -> (r: Result<(), PaymentError>)
        requires
            old(self).persister.inv(),
        ensures
            final(self).persister.inv(),
            Self::frame(*old(self), *final(self)),
            final(self).persister.payments == old(self).persister.payments,
            (r is Ok) == (has_receive(old(self).persister.receive_view(), swap_id@)
                && transition_allowed(
                receive_at(old(self).persister.receive_view(), swap_id@).state,
                to_state,
            )),
            r is Ok ==> final(self).persister.receive_view() == updated_receive_table(
                old(self).persister.receive_view(),
                swap_id@,
                ReceiveSwapUpdate {
                    to_state,
                    claim_tx_id: crate::model::opt_ref_view(claim_tx_id),
                    lockup_tx_id: crate::model::opt_ref_view(lockup_tx_id),
                },
            ),
            r is Err ==> final(self).persister == old(self).persister,
            r is Err ==> final(self).subscription_notifier.log() == old(self).subscription_notifier.log(),
            r is Ok ==> final(self).subscription_notifier.log() == log_after_publish(
                old(self).subscription_notifier.log(),
                spec_resolved_payment_id(
                    crate::model::opt_ref_view(claim_tx_id),
                    crate::model::opt_ref_view(lockup_tx_id),
                    receive_at(old(self).persister.receive_view(), swap_id@).claim_tx_id,
                ),
            ),
            !has_receive(old(self).persister.receive_view(), swap_id@) ==> (r matches Err(e) && e
                matches PaymentError::Generic { err } && err@ == "Receive Swap not found "@
                + swap_id@),
            has_receive(old(self).persister.receive_view(), swap_id@) && !transition_allowed(
                receive_at(old(self).persister.receive_view(), swap_id@).state,
                to_state,
            ) ==> (r matches Err(e) && e matches PaymentError::Generic { err } && err@
                == spec_transition_err_msg(
                receive_at(old(self).persister.receive_view(), swap_id@).state,
                to_state,
            )),
    {
        let swap = match self.persister.fetch_receive_swap(swap_id) {
            Some(s) => s,
            None => {
                let mut m = "Receive Swap not found ".to_owned();
                push_str(&mut m, swap_id);
                return Err(PaymentError::Generic { err: m });
            },
        };
        let payment_id: Option<String> = match claim_tx_id {
            Some(c) => Some(c.to_owned()),
            None => match lockup_tx_id {
                Some(l) => Some(l.to_owned()),
                None => clone_opt_string(&swap.claim_tx_id),
            },
        };
        match Self::validate_state_transition(swap.state, to_state) {
            Ok(()) => {},
            Err(e) => {
                return Err(e);
            },
        }
        match self.persister.try_handle_receive_swap_update(
            swap_id,
            to_state,
            claim_tx_id,
            lockup_tx_id,
        ) {
            Ok(()) => {},
            Err(e) => {
                return Err(e);
            },
        }
        match payment_id {
            Some(pid) => {
                self.subscription_notifier.publish(pid);
            },
            None => {},
        }
        Ok(())
    }

    /// Broadcasts a claim for a swap that has not been claimed yet: derives a
    /// destination address, instructs the swap protocol capability, inserts
    /// the provisional ledger entry, and records the claim id set-once.
    fn claim(&mut self, ongoing_receive_swap: &ReceiveSwap) -> (r: Result<(), PaymentError>)
        requires
            old(self).persister.inv(),
        ensures
            final(self).persister.inv(),
            Self::frame(*old(self), *final(self)),
            r is Err ==> final(self).subscription_notifier.log() == old(self).subscription_notifier.log(),
            ongoing_receive_swap@.claim_tx_id is Some ==> r == Err::<(), PaymentError>(
                PaymentError::AlreadyClaimed,
            ) && final(self).persister == old(self).persister,
            // A capability failure leaves the store untouched: a ledger-only
            // write can remain only where the subsequent swap record update
            // itself was refused (unknown id or a denied transition).
            r is Err && has_receive(old(self).persister.receive_view(), ongoing_receive_swap@.id)
                && transition_allowed(
                receive_at(old(self).persister.receive_view(), ongoing_receive_swap@.id).state,
                PaymentState::Pending,
            ) ==> final(self).persister == old(self).persister,
            ongoing_receive_swap@.claim_tx_id is None ==> match r {
                Ok(()) => exists|c: Seq<char>|
                    claim_outcome(
                        old(self).persister,
                        final(self).persister,
                        old(self).subscription_notifier.log(),
                        final(self).subscription_notifier.log(),
                        ongoing_receive_swap@,
                        c,
                    ),
                Err(_) => final(self).persister == old(self).persister || exists|c: Seq<char>|
                    claim_ledger_only(
                        old(self).persister,
                        final(self).persister,
                        ongoing_receive_swap@,
                        c,
                    ),
            },
    {
        if ongoing_receive_swap.claim_tx_id.is_some() {
            return Err(PaymentError::AlreadyClaimed);
        }
        let claim_address = match self.onchain_wallet.next_unused_address() {
            Ok(a) => a,
            Err(e) => {
                return Err(e);
            },
        };
        let claim_tx_id = match self.swapper.claim_receive_swap(ongoing_receive_swap, claim_address)
        {
            Ok(t) => t,
            Err(e) => {
                return Err(e);
            },
        };
        // A provisional ledger entry, so that balances and history reflect
        // the claim before the wallet's own chain scan observes it.
        match self.persister.insert_or_update_payment(
            PaymentTxData {
                tx_id: claim_tx_id.clone(),
                timestamp: None,
                amount_sat: ongoing_receive_swap.receiver_amount_sat,
                fees_sat: 0,
                payment_type: PaymentType::Receive,
                is_confirmed: false,
            },
        ) {
            Ok(()) => {},
            Err(e) => {
                return Err(e);
            },
        }
        let res = self.update_swap_info(
            ongoing_receive_swap.id.as_str(),
            PaymentState::Pending,
            Some(claim_tx_id.as_str()),
            None,
        );
        match res {
            Ok(()) => {
                proof {
                    assert(claim_outcome(
                        old(self).persister,
                        self.persister,
                        old(self).subscription_notifier.log(),
                        self.subscription_notifier.log(),
                        ongoing_receive_swap@,
                        claim_tx_id@,
                    ));
                }
                Ok(())
            },
            Err(e) => {
                proof {
                    assert(claim_ledger_only(
                        old(self).persister,
                        self.persister,
                        ongoing_receive_swap@,
                        claim_tx_id@,
                    ));
                }
                Err(e)
            },
        }
    }

    /// Runs the zero-conf gate on a mempool-sighted lockup transaction and,
    /// exactly where it accepts, attempts the claim. Claim failures are
    /// contained here: the already-claimed race is benign, and one swap's
    /// capability failure must not fail the event.
    pub fn process_mempool_claim(&mut self, swap: &ReceiveSwap, lockup_tx: &LockupTxInfo) -> (r:
        Result<(), PaymentError>)
        requires
            old(self).persister.inv(),
        ensures
            final(self).persister.inv(),
            Self::frame(*old(self), *final(self)),
            r is Ok,
            !spec_accepts_zero_conf(old(self).config, swap@.receiver_amount_sat, *lockup_tx)
                ==> final(self).persister == old(self).persister && final(self).subscription_notifier.log() == old(self).subscription_notifier.log(),
            spec_accepts_zero_conf(old(self).config, swap@.receiver_amount_sat, *lockup_tx)
                && swap@.claim_tx_id is Some ==> final(self).persister == old(self).persister
                && final(self).subscription_notifier.log() == old(self).subscription_notifier.log(),
            spec_accepts_zero_conf(old(self).config, swap@.receiver_amount_sat, *lockup_tx)
                && swap@.claim_tx_id is None ==> {
                ||| (final(self).persister == old(self).persister && final(self).subscription_notifier.log() == old(self).subscription_notifier.log())
                ||| exists|c: Seq<char>|
                    claim_outcome(
                        old(self).persister,
                        final(self).persister,
                        old(self).subscription_notifier.log(),
                        final(self).subscription_notifier.log(),
                        swap@,
                        c,
                    )
                ||| exists|c: Seq<char>|
                    (claim_ledger_only(old(self).persister, final(self).persister, swap@, c)
                        && final(self).subscription_notifier.log() == old(
                        self,
                    ).subscription_notifier.log())
            },
    {
        if !accepts_zero_conf(&self.config, swap.receiver_amount_sat, lockup_tx) {
            // Amount, replace-by-fee or fee-level gate declined: wait for
            // confirmation instead of claiming.
            return Ok(());
        }
        match self.claim(swap) {
            Ok(()) => Ok(()),
            Err(_) => Ok(()),
        }
    }

    /// What one status event does to the handler: the full case analysis of
    /// the event dispatch, stated over the store's views.
    pub open spec fn event_post(pre: Self, post: Self, u: UpdateV, r: Result<(), PaymentError>) -> bool {
        let t0 = pre.persister.receive_view();
        let p0 = pre.persister;
        let p1 = post.persister;
        let log0 = pre.subscription_notifier.log();
        let log1 = post.subscription_notifier.log();
        if !has_receive(t0, u.swap_id) {
            r is Err && p1 == p0 && log1 == log0 && (r matches Err(e) && e
                matches PaymentError::Generic { err } && err@
                == "No ongoing Receive Swap found for ID "@ + u.swap_id)
        } else {
            let sw0 = receive_at(t0, u.swap_id);
            match spec_parse_rev_swap_status(u.status) {
                None => r is Err && p1 == p0 && log1 == log0 && (r matches Err(e) && e
                    matches PaymentError::Generic { err } && err@
                    == "Invalid status for Receive Swap "@ + u.swap_id),
                Some(st) => if spec_is_unrecoverable(st) {
                    &&& r is Ok
                    &&& p1.receive_view() == updated_receive_table(t0, u.swap_id, failed_update())
                    &&& p1.payments == p0.payments
                    &&& log1 == log_after_publish(log0, sw0.claim_tx_id)
                } else if st is TransactionMempool {
                    match mempool_payload(u) {
                        None => r is Err && p1 == p0 && log1 == log0 && (r matches Err(e) && e
                            matches PaymentError::Generic { err } && err@
                            == "unexpected payload from the status stream"@),
                        Some(payload) => if !transition_allowed(sw0.state, PaymentState::Pending) {
                            r is Err && p1 == p0 && log1 == log0
                        } else {
                            let tp = updated_receive_table(
                                t0,
                                u.swap_id,
                                pending_lockup_update(Some(payload.0)),
                            );
                            if sw0.claim_tx_id is Some {
                                // Benign race: the claim was already
                                // broadcast. The lockup sighting is still
                                // recorded set-once; no second claim, and the
                                // event succeeds.
                                r is Ok && p1.receive_view() == tp && p1.payments == p0.payments
                                    && log1 == log0.push(payload.0)
                            } else {
                                match spec_lockup_tx_of(payload.1) {
                                    // Bad hex or an undecodable transaction
                                    // fails the event; the sighting itself is
                                    // already recorded and published.
                                    None => r is Err && p1.receive_view() == tp && p1.payments
                                        == p0.payments && log1 == log0.push(payload.0),
                                    Some(info) => {
                                        &&& r is Ok
                                        &&& if !spec_accepts_zero_conf(
                                            pre.config,
                                            sw0.receiver_amount_sat,
                                            info,
                                        ) {
                                            // Zero-conf declined: wait for
                                            // confirmation, claim nothing.
                                            p1.receive_view() == tp && p1.payments == p0.payments
                                                && log1 == log0.push(payload.0)
                                        } else {
                                            // Zero-conf granted: the claim
                                            // was attempted, with the
                                            // capability outcomes below.
                                            ||| (p1.receive_view() == tp && p1.payments
                                                == p0.payments && log1 == log0.push(payload.0))
                                            ||| exists|c: Seq<char>|
                                                {
                                                    &&& p1.receive_view() == updated_receive_table(
                                                        tp,
                                                        u.swap_id,
                                                        ReceiveSwapUpdate {
                                                            to_state: PaymentState::Pending,
                                                            claim_tx_id: Some(c),
                                                            lockup_tx_id: None,
                                                        },
                                                    )
                                                    &&& payments_upserted(
                                                        p0.payments_view(),
                                                        p1.payments_view(),
                                                        claim_ledger_entry(sw0, c),
                                                    )
                                                    &&& log1 == log0.push(payload.0).push(c)
                                                }
                                            ||| exists|c: Seq<char>|
                                                {
                                                    &&& p1.receive_view() == tp
                                                    &&& payments_upserted(
                                                        p0.payments_view(),
                                                        p1.payments_view(),
                                                        claim_ledger_entry(sw0, c),
                                                    )
                                                    &&& log1 == log0.push(payload.0)
                                                }
                                        }
                                    },
                                }
                            }
                        },
                    }
                } else if st is TransactionConfirmed {
                    if sw0.claim_tx_id is Some {
                        // Idempotence: a confirmation for an already-claimed
                        // swap changes nothing.
                        r is Ok && p1 == p0 && log1 == log0
                    } else if !transition_allowed(sw0.state, PaymentState::Pending) {
                        r is Err && p1 == p0 && log1 == log0
                    } else {
                        let tp = updated_receive_table(
                            t0,
                            u.swap_id,
                            pending_lockup_update(None),
                        );
                        &&& r is Ok
                        &&& {
                            ||| (p1.receive_view() == tp && p1.payments == p0.payments && log1
                                == log0)
                            ||| exists|c: Seq<char>|
                                {
                                    &&& p1.receive_view() == updated_receive_table(
                                        tp,
                                        u.swap_id,
                                        ReceiveSwapUpdate {
                                            to_state: PaymentState::Pending,
                                            claim_tx_id: Some(c),
                                            lockup_tx_id: None,
                                        },
                                    )
                                    &&& payments_upserted(
                                        p0.payments_view(),
                                        p1.payments_view(),
                                        claim_ledger_entry(sw0, c),
                                    )
                                    &&& log1 == log0.push(c)
                                }
                            ||| exists|c: Seq<char>|
                                {
                                    &&& p1.receive_view() == tp
                                    &&& payments_upserted(
                                        p0.payments_view(),
                                        p1.payments_view(),
                                        claim_ledger_entry(sw0, c),
                                    )
                                    &&& log1 == log0
                                }
                        }
                    }
                } else {
                    // Recognized but informational: no action.
                    r is Ok && p1 == p0 && log1 == log0
                },
            }
        }
    }

    /// Handles one status event from the counterparty's feed: resolves the
    /// swap, maps the protocol status, persists the transition, and where a
    /// mempool sighting passes the zero-conf gate (or the lockup is
    /// confirmed) attempts the claim.
    pub fn on_new_status(&mut self, update: &Update) -> (r: Result<(), PaymentError>)
        requires
            old(self).persister.inv(),
        ensures
            final(self).persister.inv(),
            Self::frame(*old(self), *final(self)),
            Self::event_post(*old(self), *final(self), update@, r),
    {
        let receive_swap = match self.persister.fetch_receive_swap(update.swap_id.as_str()) {
            Some(s) => s,
            None => {
                let mut m = "No ongoing Receive Swap found for ID ".to_owned();
                push_str(&mut m, update.swap_id.as_str());
                return Err(PaymentError::Generic { err: m });
            },
        };
        proof {
            assert(receive_swap@ == receive_at(
                old(self).persister.receive_view(),
                update@.swap_id,
            ));
        }
        let status = match parse_rev_swap_status(update.status.as_str()) {
            Some(st) => st,
            None => {
                let mut m = "Invalid status for Receive Swap ".to_owned();
                push_str(&mut m, update.swap_id.as_str());
                return Err(PaymentError::Generic { err: m });
            },
        };
        if is_unrecoverable(status) {
            // The swap entered an unrecoverable state at the counterparty.
            return match self.update_swap_info(
                update.swap_id.as_str(),
                PaymentState::Failed,
                None,
                None,
            ) {
                Ok(()) => Ok(()),
                Err(e) => Err(e),
            };
        }
        match status {
            RevSwapStatus::TransactionMempool => {
                let payload = match &update.payload {
                    Some(p) => match p.kind {
                        PayloadKind::Mempool => match (&p.tx_id, &p.raw_tx_hex) {
                            (Some(t), Some(h)) => (t, h),
                            _ => {
                                return Err(
                                    PaymentError::Generic {
                                        err: "unexpected payload from the status stream".to_owned(),
                                    },
                                );
                            },
                        },
                        PayloadKind::Confirmed => {
                            return Err(
                                PaymentError::Generic {
                                    err: "unexpected payload from the status stream".to_owned(),
                                },
                            );
                        },
                    },
                    None => {
                        return Err(
                            PaymentError::Generic {
                                err: "unexpected payload from the status stream".to_owned(),
                            },
                        );
                    },
                };
                let lockup_tx_id = payload.0;
                let raw_tx_hex = payload.1;
                match self.update_swap_info(
                    update.swap_id.as_str(),
                    PaymentState::Pending,
                    None,
                    Some(lockup_tx_id.as_str()),
                ) {
                    Ok(()) => {},
                    Err(e) => {
                        return Err(e);
                    },
                }
                if receive_swap.claim_tx_id.is_some() {
                    // The claim was already broadcast: a benign race. The
                    // lockup sighting above is recorded set-once, and the
                    // event succeeds with no second claim.
                    return Ok(());
                }
                let lockup_tx = match parse_lockup_tx(raw_tx_hex.as_str()) {
                    Ok(t) => t,
                    Err(e) => {
                        return Err(e);
                    },
                };
                self.process_mempool_claim(&receive_swap, &lockup_tx)
            },
            RevSwapStatus::TransactionConfirmed => {
                match &receive_swap.claim_tx_id {
                    Some(_) => {
                        // The claim was already broadcast: nothing to do.
                        Ok(())
                    },
                    None => {
                        match self.update_swap_info(
                            update.swap_id.as_str(),
                            PaymentState::Pending,
                            None,
                            None,
                        ) {
                            Ok(()) => {},
                            Err(e) => {
                                return Err(e);
                            },
                        }
                        // Confirmed funds bypass the zero-conf risk checks.
                        match self.claim(&receive_swap) {
                            Ok(()) => {},
                            Err(_) => {},
                        }
                        Ok(())
                    },
                }
            },
            _ => {
                // Recognized but unhandled: informational only.
                Ok(())
            },
        }
    }
}

/// The conditional update that maps an unrecoverable counterparty state to
/// `Failed`, touching no transaction id.
pub open spec fn failed_update() -> ReceiveSwapUpdate {
    ReceiveSwapUpdate {
        to_state: PaymentState::Failed,
        claim_tx_id: None,
        lockup_tx_id: None,
    }
}

/// Display name of a state.
pub open spec fn spec_state_name(s: PaymentState) -> Seq<char> {
    match s {
        PaymentState::Created => "Created"@,
        PaymentState::Pending => "Pending"@,
        PaymentState::Complete => "Complete"@,
        PaymentState::Failed => "Failed"@,
        PaymentState::TimedOut => "TimedOut"@,
    }
}

/// The message of the error raised for a denied transition: it names the
/// offending pair.
pub open spec fn spec_transition_err_msg(from_state: PaymentState, to_state: PaymentState) -> Seq<
    char,
> {
    "cannot transition from "@ + spec_state_name(from_state) + " to "@ + spec_state_name(to_state)
        + " state"@
}

/// A descriptive error naming a denied transition pair.
fn transition_err(from_state: PaymentState, to_state: PaymentState) -> (r: PaymentError)
    ensures
        r matches PaymentError::Generic { err } && err@ == spec_transition_err_msg(
            from_state,
            to_state,
        ),
{
    let mut m = "cannot transition from ".to_owned();
    push_str(&mut m, state_name(from_state));
    push_str(&mut m, " to ");
    push_str(&mut m, state_name(to_state));
    push_str(&mut m, " state");
    PaymentError::Generic { err: m }
}

/// Display name of a state, for error messages.
fn state_name(s: PaymentState) -> (r: &'static str)
    ensures
        r@ == spec_state_name(s),
{
    match s {
        PaymentState::Created => "Created",
        PaymentState::Pending => "Pending",
        PaymentState::Complete => "Complete",
        PaymentState::Failed => "Failed",
        PaymentState::TimedOut => "TimedOut",
    }
}

} // verus!
