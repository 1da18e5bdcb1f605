use vstd::prelude::*;

use crate::error::PaymentError;
use crate::model::{
    opt_ref_view, opt_str_view, ChainSwap, ChainSwapDetails, ChainSwapV, CreateChainResponse,
    PaymentState, PaymentTxData, PaymentTxDataV, ReceiveSwap, ReceiveSwapV,
};
use crate::text::{push_str, str_eq};

verus! {

/// Arguments of one conditional update of a receive swap record.
pub struct ReceiveSwapUpdate {
    pub to_state: PaymentState,
    pub claim_tx_id: Option<Seq<char>>,
    pub lockup_tx_id: Option<Seq<char>>,
}

/// Arguments of one conditional update of a chain swap record.
pub struct ChainSwapUpdate {
    pub to_state: PaymentState,
    pub lockup_tx_id: Option<Seq<char>>,
    pub refund_tx_id: Option<Seq<char>>,
}

/// What one conditional update does to a receive swap record: the state is
/// overwritten unconditionally, while each transaction id is written only if
/// it is currently unset.
pub open spec fn apply_receive_update(s: ReceiveSwapV, u: ReceiveSwapUpdate) -> ReceiveSwapV {
    ReceiveSwapV {
        id: s.id,
        preimage: s.preimage,
        create_response_json: s.create_response_json,
        claim_private_key: s.claim_private_key,
        invoice: s.invoice,
        payer_amount_sat: s.payer_amount_sat,
        receiver_amount_sat: s.receiver_amount_sat,
        claim_fees_sat: s.claim_fees_sat,
        claim_tx_id: if s.claim_tx_id is Some {
            s.claim_tx_id
        } else {
            u.claim_tx_id
        },
        lockup_tx_id: if s.lockup_tx_id is Some {
            s.lockup_tx_id
        } else {
            u.lockup_tx_id
        },
        created_at: s.created_at,
        state: u.to_state,
    }
}

/// What one conditional update does to a chain swap record.
pub open spec fn apply_chain_update(s: ChainSwapV, u: ChainSwapUpdate) -> ChainSwapV {
    ChainSwapV {
        id: s.id,
        payment_type: s.payment_type,
        address: s.address,
        preimage: s.preimage,
        payer_amount_sat: s.payer_amount_sat,
        receiver_amount_sat: s.receiver_amount_sat,
        create_response_json: s.create_response_json,
        claim_private_key: s.claim_private_key,
        refund_private_key: s.refund_private_key,
        lockup_tx_id: if s.lockup_tx_id is Some {
            s.lockup_tx_id
        } else {
            u.lockup_tx_id
        },
        refund_tx_id: if s.refund_tx_id is Some {
            s.refund_tx_id
        } else {
            u.refund_tx_id
        },
        created_at: s.created_at,
        state: u.to_state,
    }
}

/// The whole receive table after a conditional update addressed to `id`.
pub open spec fn updated_receive_table(
    t: Seq<ReceiveSwapV>,
    id: Seq<char>,
    u: ReceiveSwapUpdate,
) -> Seq<ReceiveSwapV> {
    t.map_values(
        |s: ReceiveSwapV|
            if s.id == id {
                apply_receive_update(s, u)
            } else {
                s
            },
    )
}

/// The whole chain table after a conditional update addressed to `id`.
pub open spec fn updated_chain_table(t: Seq<ChainSwapV>, id: Seq<char>, u: ChainSwapUpdate) -> Seq<
    ChainSwapV,
> {
    t.map_values(
        |s: ChainSwapV|
            if s.id == id {
                apply_chain_update(s, u)
            } else {
                s
            },
    )
}

/// The payment ledger after an upsert keyed by `e.tx_id`: an existing entry
/// with that id is replaced, otherwise `e` is appended.
pub open spec fn payments_upserted(
    ps0: Seq<PaymentTxDataV>,
    ps1: Seq<PaymentTxDataV>,
    e: PaymentTxDataV,
) -> bool {
    if exists|i: int| 0 <= i < ps0.len() && (#[trigger] ps0[i]).tx_id == e.tx_id {
        exists|i: int|
            0 <= i < ps0.len() && (#[trigger] ps0[i]).tx_id == e.tx_id && ps1 == ps0.update(i, e)
    } else {
        ps1 == ps0.push(e)
    }
}

/// The durable swap store: swap records queryable by id and state, a payment
/// ledger, and atomic set-once field updates.
pub struct Persister {
    pub receive_swaps: Vec<ReceiveSwap>,
    pub chain_swaps: Vec<ChainSwap>,
    pub payments: Vec<PaymentTxData>,
}

impl Persister {
    pub open spec fn receive_view(self) -> Seq<ReceiveSwapV> {
        self.receive_swaps@.map_values(|s: ReceiveSwap| s@)
    }

    pub open spec fn chain_view(self) -> Seq<ChainSwapV> {
        self.chain_swaps@.map_values(|s: ChainSwap| s@)
    }

    pub open spec fn payments_view(self) -> Seq<PaymentTxDataV> {
        self.payments@.map_values(|s: PaymentTxData| s@)
    }

    /// Store invariant: ids are unique in every table, and the chain table is
    /// kept ordered by creation time.
    pub open spec fn inv(self) -> bool {
        &&& forall|i: int, j: int|
            #![trigger self.receive_view()[i], self.receive_view()[j]]
            0 <= i < j < self.receive_view().len() ==> self.receive_view()[i].id
                != self.receive_view()[j].id
        &&& forall|i: int, j: int|
            #![trigger self.chain_view()[i], self.chain_view()[j]]
            0 <= i < j < self.chain_view().len() ==> self.chain_view()[i].id
                != self.chain_view()[j].id
        &&& forall|i: int, j: int|
            #![trigger self.chain_view()[i], self.chain_view()[j]]
            0 <= i < j < self.chain_view().len() ==> self.chain_view()[i].created_at
                <= self.chain_view()[j].created_at
        &&& forall|i: int, j: int|
            #![trigger self.payments_view()[i], self.payments_view()[j]]
            0 <= i < j < self.payments_view().len() ==> self.payments_view()[i].tx_id
                != self.payments_view()[j].tx_id
    }

    /// An empty store.
    pub fn new() -> (r: Persister)
        ensures
            r.inv(),
            r.receive_view() == Seq::<ReceiveSwapV>::empty(),
            r.chain_view() == Seq::<ChainSwapV>::empty(),
            r.payments_view() == Seq::<PaymentTxDataV>::empty(),
    {
        let r = Persister { receive_swaps: Vec::new(), chain_swaps: Vec::new(), payments: Vec::new() };
        proof {
            assert(r.receive_view() =~= Seq::<ReceiveSwapV>::empty());
            assert(r.chain_view() =~= Seq::<ChainSwapV>::empty());
            assert(r.payments_view() =~= Seq::<PaymentTxDataV>::empty());
        }
        r
    }

    /// Point lookup of a receive swap; absence is not an error.
    pub fn fetch_receive_swap(&self, id: &str) -> (r: Option<ReceiveSwap>)
        requires
            self.inv(),
        ensures
            (r is Some) == exists|i: int|
                0 <= i < self.receive_view().len() && (#[trigger] self.receive_view()[i]).id == id@,
            r matches Some(s) ==> s@.id == id@ && forall|i: int|
                0 <= i < self.receive_view().len() && (#[trigger] self.receive_view()[i]).id == id@
                    ==> self.receive_view()[i] == s@,
    {
        let n = self.receive_swaps.len();
        let mut k: usize = 0;
        while k < n
            invariant
                k <= n,
                n == self.receive_swaps.len(),
                self.inv(),
                forall|j: int| 0 <= j < k ==> (#[trigger] self.receive_view()[j]).id != id@,
            decreases n - k,
        {
            if str_eq(self.receive_swaps[k].id.as_str(), id) {
                let found = self.receive_swaps[k].clone();
                proof {
                    assert(self.receive_view()[k as int] == found@);
                }
                return Some(found);
            }
            k += 1;
        }
        None
    }

    /// Persists a new receive swap; an id conflict is a storage-level error.
    pub fn insert_receive_swap(&mut self, swap: &ReceiveSwap) -> (r: Result<(), PaymentError>)
        requires
            old(self).inv(),
        ensures
            final(self).inv(),
            final(self).chain_swaps == old(self).chain_swaps,
            final(self).payments == old(self).payments,
            match r {
                Ok(()) => final(self).receive_view() == old(self).receive_view().push(swap@)
                    && forall|i: int|
                    0 <= i < old(self).receive_view().len() ==> (#[trigger] old(
                        self,
                    ).receive_view()[i]).id != swap@.id,
                Err(e) => e is PersistError && *final(self) == *old(self) && exists|i: int|
                    0 <= i < old(self).receive_view().len() && (#[trigger] old(
                        self,
                    ).receive_view()[i]).id == swap@.id,
            },
    {
        let existing = self.fetch_receive_swap(swap.id.as_str());
        if existing.is_some() {
            return Err(PaymentError::PersistError);
        }
        self.receive_swaps.push(swap.clone());
        proof {
            assert(self.receive_view() =~= old(self).receive_view().push(swap@));
        }
        Ok(())
    }

    /// Atomic conditional update of a receive swap: always overwrites `state`,
    /// writes `claim_tx_id` / `lockup_tx_id` only where currently unset.
    /// Addressing an unknown id changes nothing and is not an error.
    pub fn try_handle_receive_swap_update(
        &mut self,
        swap_id: &str,
        to_state: PaymentState,
        claim_tx_id: Option<&str>,
        lockup_tx_id: Option<&str>,
    ) -> (r: Result<(), PaymentError>)
        requires
            old(self).inv(),
        ensures
            final(self).inv(),
            r is Ok,
            final(self).chain_swaps == old(self).chain_swaps,
            final(self).payments == old(self).payments,
            final(self).receive_view() == updated_receive_table(
                old(self).receive_view(),
                swap_id@,
                ReceiveSwapUpdate {
                    to_state,
                    claim_tx_id: opt_ref_view(claim_tx_id),
                    lockup_tx_id: opt_ref_view(lockup_tx_id),
                },
            ),
    {
        let ghost t0 = self.receive_view();
        let ghost u = ReceiveSwapUpdate {
            to_state,
            claim_tx_id: opt_ref_view(claim_tx_id),
            lockup_tx_id: opt_ref_view(lockup_tx_id),
        };
        let n = self.receive_swaps.len();
        let mut k: usize = 0;
        while k < n
            invariant
                k <= n,
                n == self.receive_swaps.len(),
                t0.len() == n,
                t0 == old(self).receive_view(),
                u == (ReceiveSwapUpdate {
                    to_state,
                    claim_tx_id: opt_ref_view(claim_tx_id),
                    lockup_tx_id: opt_ref_view(lockup_tx_id),
                }),
                self.chain_swaps == old(self).chain_swaps,
                self.payments == old(self).payments,
                forall|j: int|
                    0 <= j < k ==> #[trigger] self.receive_view()[j] == (if t0[j].id == swap_id@ {
                        apply_receive_update(t0[j], u)
                    } else {
                        t0[j]
                    }),
                forall|j: int|
                    k <= j < n ==> #[trigger] self.receive_view()[j] == t0[j],
            decreases n - k,
        {
            if str_eq(self.receive_swaps[k].id.as_str(), swap_id) {
                proof {
                    assert(self.receive_view()[k as int] == t0[k as int]);
                }
                let prev = self.receive_swaps[k].clone();
                proof {
                    assert(prev@ == t0[k as int]);
                }
                let new_lockup: Option<String> = set_once(&prev.lockup_tx_id, lockup_tx_id);
                let new_claim: Option<String> = set_once(&prev.claim_tx_id, claim_tx_id);
                let sw = ReceiveSwap {
                    id: prev.id,
                    preimage: prev.preimage,
                    create_response_json: prev.create_response_json,
                    claim_private_key: prev.claim_private_key,
                    invoice: prev.invoice,
                    payer_amount_sat: prev.payer_amount_sat,
                    receiver_amount_sat: prev.receiver_amount_sat,
                    claim_fees_sat: prev.claim_fees_sat,
                    claim_tx_id: new_claim,
                    lockup_tx_id: new_lockup,
                    created_at: prev.created_at,
                    state: to_state,
                };
                proof {
                    assert(sw@ == apply_receive_update(t0[k as int], u));
                }
                let ghost vb = self.receive_view();
                self.receive_swaps.set(k, sw);
                proof {
                    assert forall|j: int|
                        0 <= j < n && j != k as int implies #[trigger] self.receive_view()[j]
                        == vb[j] by {
                    }
                    assert(self.receive_view()[k as int] == apply_receive_update(t0[k as int], u));
                }
            } else {
                proof {
                    assert(self.receive_view()[k as int] == t0[k as int]);
                    assert(t0[k as int].id != swap_id@);
                }
            }
            k += 1;
        }
        proof {
            assert(self.receive_view() =~= updated_receive_table(t0, swap_id@, u));
        }
        Ok(())
    }

    /// Point lookup of a chain swap; absence is not an error.
    pub fn fetch_chain_swap(&self, id: &str) -> (r: Option<ChainSwap>)
        requires
            self.inv(),
        ensures
            (r is Some) == exists|i: int|
                0 <= i < self.chain_view().len() && (#[trigger] self.chain_view()[i]).id == id@,
            r matches Some(s) ==> s@.id == id@ && forall|i: int|
                0 <= i < self.chain_view().len() && (#[trigger] self.chain_view()[i]).id == id@
                    ==> self.chain_view()[i] == s@,
    {
        let n = self.chain_swaps.len();
        let mut k: usize = 0;
        while k < n
            invariant
                k <= n,
                n == self.chain_swaps.len(),
                self.inv(),
                forall|j: int| 0 <= j < k ==> (#[trigger] self.chain_view()[j]).id != id@,
            decreases n - k,
        {
            if str_eq(self.chain_swaps[k].id.as_str(), id) {
                let found = self.chain_swaps[k].clone();
                proof {
                    assert(self.chain_view()[k as int] == found@);
                }
                return Some(found);
            }
            k += 1;
        }
        None
    }

    /// Persists a new chain swap, keeping the table ordered by creation time;
    /// an id conflict is a storage-level error.
    pub fn insert_chain_swap(&mut self, chain_swap: &ChainSwap) -> (r: Result<(), PaymentError>)
        requires
            old(self).inv(),
        ensures
            final(self).inv(),
            final(self).receive_swaps == old(self).receive_swaps,
            final(self).payments == old(self).payments,
            match r {
                Ok(()) => (forall|i: int|
                    0 <= i < old(self).chain_view().len() ==> (#[trigger] old(
                        self,
                    ).chain_view()[i]).id != chain_swap@.id) && exists|p: int|
                    {
                        &&& 0 <= p <= old(self).chain_view().len()
                        &&& final(self).chain_view() == old(self).chain_view().insert(
                            p,
                            chain_swap@,
                        )
                        &&& forall|j: int|
                            0 <= j < p ==> (#[trigger] old(self).chain_view()[j]).created_at
                                <= chain_swap@.created_at
                        &&& forall|j: int|
                            p <= j < old(self).chain_view().len() ==> (#[trigger] old(
                                self,
                            ).chain_view()[j]).created_at > chain_swap@.created_at
                    },
                Err(e) => e is PersistError && *final(self) == *old(self) && exists|i: int|
                    0 <= i < old(self).chain_view().len() && (#[trigger] old(
                        self,
                    ).chain_view()[i]).id == chain_swap@.id,
            },
    {
        let existing = self.fetch_chain_swap(chain_swap.id.as_str());
        if existing.is_some() {
            return Err(PaymentError::PersistError);
        }
        let n = self.chain_swaps.len();
        let mut p: usize = 0;
        while p < n && self.chain_swaps[p].created_at <= chain_swap.created_at
            invariant
                p <= n,
                n == self.chain_swaps.len(),
                self.inv(),
                forall|j: int|
                    0 <= j < p ==> (#[trigger] self.chain_view()[j]).created_at
                        <= chain_swap@.created_at,
            decreases n - p,
        {
            p += 1;
        }
        proof {
            // Everything at or after the insertion point was created later.
            assert forall|j: int|
                p <= j < self.chain_view().len() implies (#[trigger] self.chain_view()[j]).created_at
                > chain_swap@.created_at by {
                if p < self.chain_view().len() {
                    assert(self.chain_view()[p as int].created_at > chain_swap@.created_at);
                }
            }
        }
        self.chain_swaps.insert(p, chain_swap.clone());
        proof {
            let t0 = old(self).chain_view();
            let t1 = self.chain_view();
            assert(t1 =~= t0.insert(p as int, chain_swap@));
            assert forall|a: int, b: int|
                #![trigger t1[a], t1[b]]
                0 <= a < b < t1.len() implies t1[a].id != t1[b].id && t1[a].created_at
                <= t1[b].created_at by {
                assert(t1 == t0.insert(p as int, chain_swap@));
            }
        }
        Ok(())
    }

    /// All chain swaps whose state is in the given set, ordered by creation
    /// time; `None` selects every swap.
    pub fn list_chain_swaps(&self, states: Option<&Vec<PaymentState>>) -> (r: Vec<ChainSwap>)
        requires
            self.inv(),
        ensures
            r@.map_values(|s: ChainSwap| s@) == self.chain_view().filter(
                |c: ChainSwapV| spec_state_selected(opt_states_view(states), c.state),
            ),
    {
        let ghost pred = |c: ChainSwapV| spec_state_selected(opt_states_view(states), c.state);
        let mut res: Vec<ChainSwap> = Vec::new();
        let n = self.chain_swaps.len();
        let mut k: usize = 0;
        proof {
            assert(self.chain_view().take(0).filter(pred) =~= Seq::<ChainSwapV>::empty());
            assert(res@.map_values(|s: ChainSwap| s@) =~= Seq::<ChainSwapV>::empty());
        }
        while k < n
            invariant
                k <= n,
                n == self.chain_swaps.len(),
                self.inv(),
                res@.map_values(|s: ChainSwap| s@) == self.chain_view().take(k as int).filter(
                    pred,
                ),
                pred == (|c: ChainSwapV| spec_state_selected(opt_states_view(states), c.state)),
            decreases n - k,
        {
            let ghost prev = res@.map_values(|s: ChainSwap| s@);
            let selected = match states {
                None => true,
                Some(ss) => state_in(ss, self.chain_swaps[k].state),
            };
            if selected {
                res.push(self.chain_swaps[k].clone());
            }
            proof {
                let t = self.chain_view();
                assert(t.take(k + 1).drop_last() =~= t.take(k as int));
                assert(t.take(k + 1).last() == t[k as int]);
                reveal(Seq::filter);
                if selected {
                    assert(res@.map_values(|s: ChainSwap| s@) =~= prev.push(t[k as int]));
                }
            }
            k += 1;
        }
        proof {
            assert(self.chain_view().take(n as int) =~= self.chain_view());
        }
        res
    }

    /// Swaps that have not finalized: state `Created` or `Pending`.
    pub fn list_ongoing_chain_swaps(&self) -> (r: Vec<ChainSwap>)
        requires
            self.inv(),
        ensures
            r@.map_values(|s: ChainSwap| s@) == self.chain_view().filter(
                |c: ChainSwapV| c.state is Created || c.state is Pending,
            ),
    {
        let states: Vec<PaymentState> = vec![PaymentState::Created, PaymentState::Pending];
        let r = self.list_chain_swaps(Some(&states));
        proof {
            let p1 = |c: ChainSwapV| spec_state_selected(opt_states_view(Some(&states)), c.state);
            let p2 = |c: ChainSwapV| c.state is Created || c.state is Pending;
            assert forall|c: ChainSwapV| #[trigger] p1(c) == p2(c) by {
                assert(states@.len() == 2);
                assert(states@[0] == PaymentState::Created);
                assert(states@[1] == PaymentState::Pending);
                if c.state is Created {
                    assert(states@.contains(c.state));
                }
                if c.state is Pending {
                    assert(states@.contains(c.state));
                }
                if states@.contains(c.state) {
                    let w = choose|w: int| 0 <= w < states@.len() && states@[w] == c.state;
                    assert(w == 0 || w == 1);
                }
            }
            lemma_filter_congruence(self.chain_view(), p1, p2);
        }
        r
    }

    /// Swaps currently in state `Pending`, ordered by creation time.
    pub fn list_pending_chain_swaps(&self) -> (r: Vec<ChainSwap>)
        requires
            self.inv(),
        ensures
            r@.map_values(|s: ChainSwap| s@) == self.chain_view().filter(
                |c: ChainSwapV| c.state is Pending,
            ),
    {
        let states: Vec<PaymentState> = vec![PaymentState::Pending];
        let r = self.list_chain_swaps(Some(&states));
        proof {
            let p1 = |c: ChainSwapV| spec_state_selected(opt_states_view(Some(&states)), c.state);
            let p2 = |c: ChainSwapV| c.state is Pending;
            assert forall|c: ChainSwapV| #[trigger] p1(c) == p2(c) by {
                assert(states@.len() == 1);
                assert(states@[0] == PaymentState::Pending);
                if c.state is Pending {
                    assert(states@.contains(c.state));
                }
                if states@.contains(c.state) {
                    let w = choose|w: int| 0 <= w < states@.len() && states@[w] == c.state;
                    assert(w == 0);
                }
            }
            lemma_filter_congruence(self.chain_view(), p1, p2);
        }
        r
    }

    /// Pending chain swaps indexed by their write-once refund transaction id:
    /// exactly the swaps with state `Pending` and a refund id, one entry per
    /// id, no duplicate keys. The result is `spec_refund_index` of the stored
    /// contents: keys in order of first occurrence, and under a duplicated
    /// refund id the latest matching record supplies the entry.
    pub fn list_pending_chain_swaps_by_refund_tx_id(&self) -> (r: Vec<(String, ChainSwap)>)
        requires
            self.inv(),
        ensures
            r@.map_values(|p: (String, ChainSwap)| (p.0@, p.1@)) == spec_refund_index(
                self.chain_view(),
            ),
            forall|e: int|
                0 <= e < r@.len() ==> {
                    &&& (#[trigger] r@[e]).1@.state is Pending
                    &&& r@[e].1@.refund_tx_id == Some(r@[e].0@)
                    &&& exists|i: int|
                        0 <= i < self.chain_view().len() && #[trigger] self.chain_view()[i]
                            == r@[e].1@
                },
            forall|i: int|
                0 <= i < self.chain_view().len() && (#[trigger] self.chain_view()[i]).state
                    is Pending && self.chain_view()[i].refund_tx_id is Some ==> exists|e: int|
                    0 <= e < r@.len() && Some((#[trigger] r@[e]).0@)
                        == self.chain_view()[i].refund_tx_id,
            forall|e1: int, e2: int|
                #![trigger r@[e1], r@[e2]]
                0 <= e1 < e2 < r@.len() ==> r@[e1].0@ != r@[e2].0@,
    {
        let ghost pv = |p: (String, ChainSwap)| (p.0@, p.1@);
        let mut res: Vec<(String, ChainSwap)> = Vec::new();
        let n = self.chain_swaps.len();
        let mut k: usize = 0;
        proof {
            assert(res@.map_values(pv) =~= spec_refund_index(self.chain_view().take(0)));
        }
        while k < n
            invariant
                k <= n,
                n == self.chain_swaps.len(),
                self.inv(),
                pv == (|p: (String, ChainSwap)| (p.0@, p.1@)),
                res@.map_values(pv) == spec_refund_index(self.chain_view().take(k as int)),
                forall|e: int|
                    0 <= e < res@.len() ==> {
                        &&& (#[trigger] res@[e]).1@.state is Pending
                        &&& res@[e].1@.refund_tx_id == Some(res@[e].0@)
                        &&& exists|i: int|
                            0 <= i < self.chain_view().len() && #[trigger] self.chain_view()[i]
                                == res@[e].1@
                    },
                forall|i: int|
                    0 <= i < k && (#[trigger] self.chain_view()[i]).state is Pending
                        && self.chain_view()[i].refund_tx_id is Some ==> exists|e: int|
                        0 <= e < res@.len() && Some((#[trigger] res@[e]).0@)
                            == self.chain_view()[i].refund_tx_id,
                forall|e1: int, e2: int|
                    #![trigger res@[e1], res@[e2]]
                    0 <= e1 < e2 < res@.len() ==> res@[e1].0@ != res@[e2].0@,
            decreases n - k,
        {
            let ghost res0 = res@;
            let is_pending = match self.chain_swaps[k].state {
                PaymentState::Pending => true,
                _ => false,
            };
            if is_pending {
                match &self.chain_swaps[k].refund_tx_id {
                    Some(refund_tx_id) => {
                        let key = refund_tx_id.clone();
                        let entry = self.chain_swaps[k].clone();
                        proof {
                            assert(self.chain_view()[k as int] == entry@);
                            assert(key@ == refund_tx_id@);
                            assert forall|e: int| 0 <= e < res0.len() implies (
                            #[trigger] spec_refund_index(
                                self.chain_view().take(k as int),
                            )[e]).0 == res0[e].0@ by {
                                assert(res0.map_values(pv)[e].0 == res0[e].0@);
                            }
                        }
                        match refund_key_position(&res, refund_tx_id.as_str()) {
                            Some(pos) => {
                                proof {
                                    let prefix = spec_refund_index(
                                        self.chain_view().take(k as int),
                                    );
                                    assert(prefix[pos as int].0 == refund_tx_id@);
                                    assert(spec_has_key(prefix, refund_tx_id@));
                                    let si = spec_key_index(prefix, refund_tx_id@);
                                    // Keys are distinct, so the found position
                                    // is the spec's key index.
                                    assert(res0[si].0@ == refund_tx_id@);
                                    assert(si == pos as int);
                                }
                                res.set(pos, (key, entry));
                                proof {
                                    assert(forall|e: int|
                                        0 <= e < res0.len() && e != pos as int
                                            ==> #[trigger] res@[e] == res0[e]);
                                    assert(forall|e: int|
                                        0 <= e < res@.len() ==> (#[trigger] res@[e]).0@
                                            == res0[e].0@);
                                    assert(res@.map_values(pv) =~= res0.map_values(pv).update(
                                        pos as int,
                                        (key@, entry@),
                                    ));
                                    assert(Some(res@[pos as int].0@) == self.chain_view()[
                                        k as int].refund_tx_id);
                                }
                            },
                            None => {
                                proof {
                                    assert(!spec_has_key(
                                        spec_refund_index(self.chain_view().take(k as int)),
                                        refund_tx_id@,
                                    ));
                                }
                                res.push((key, entry));
                                proof {
                                    assert(res@[res0.len() as int].1@ == self.chain_view()[
                                        k as int]);
                                    assert(forall|e: int|
                                        0 <= e < res0.len() ==> #[trigger] res@[e] == res0[e]);
                                    assert(res@.map_values(pv) =~= res0.map_values(pv).push(
                                        (key@, entry@),
                                    ));
                                    assert(Some(res@[res0.len() as int].0@) == self.chain_view()[
                                        k as int].refund_tx_id);
                                }
                            },
                        }
                    },
                    None => {},
                }
            }
            proof {
                let t = self.chain_view();
                assert(t.take(k + 1).drop_last() =~= t.take(k as int));
                assert(t.take(k + 1).last() == t[k as int]);
                assert(res@.map_values(pv) == spec_refund_index(t.take(k + 1)));
                assert forall|i: int|
                    0 <= i < k + 1 && (#[trigger] t[i]).state is Pending && t[i].refund_tx_id
                        is Some implies exists|e: int|
                    0 <= e < res@.len() && Some((#[trigger] res@[e]).0@) == t[i].refund_tx_id by {
                    if i < k {
                        let e0 = choose|e: int|
                            0 <= e < res0.len() && Some((#[trigger] res0[e]).0@)
                                == t[i].refund_tx_id;
                        assert(0 <= e0 < res@.len());
                        assert(res@[e0].0@ == res0[e0].0@);
                        assert(Some(res@[e0].0@) == t[i].refund_tx_id);
                    }
                }
            }
            k += 1;
        }
        proof {
            assert(self.chain_view().take(n as int) =~= self.chain_view());
        }
        res
    }

    /// Atomic conditional update of a chain swap: always overwrites `state`,
    /// writes `lockup_tx_id` / `refund_tx_id` only where currently unset.
    /// Addressing an unknown id changes nothing and is not an error.
    pub fn try_handle_chain_swap_update(
        &mut self,
        swap_id: &str,
        to_state: PaymentState,
        lockup_tx_id: Option<&str>,
        refund_tx_id: Option<&str>,
    ) -> (r: Result<(), PaymentError>)
        requires
            old(self).inv(),
        ensures
            final(self).inv(),
            r is Ok,
            final(self).receive_swaps == old(self).receive_swaps,
            final(self).payments == old(self).payments,
            final(self).chain_view() == updated_chain_table(
                old(self).chain_view(),
                swap_id@,
                ChainSwapUpdate {
                    to_state,
                    lockup_tx_id: opt_ref_view(lockup_tx_id),
                    refund_tx_id: opt_ref_view(refund_tx_id),
                },
            ),
    {
        let ghost t0 = self.chain_view();
        let ghost u = ChainSwapUpdate {
            to_state,
            lockup_tx_id: opt_ref_view(lockup_tx_id),
            refund_tx_id: opt_ref_view(refund_tx_id),
        };
        let n = self.chain_swaps.len();
        let mut k: usize = 0;
        while k < n
            invariant
                k <= n,
                n == self.chain_swaps.len(),
                t0.len() == n,
                t0 == old(self).chain_view(),
                u == (ChainSwapUpdate {
                    to_state,
                    lockup_tx_id: opt_ref_view(lockup_tx_id),
                    refund_tx_id: opt_ref_view(refund_tx_id),
                }),
                self.receive_swaps == old(self).receive_swaps,
                self.payments == old(self).payments,
                forall|j: int|
                    0 <= j < k ==> #[trigger] self.chain_view()[j] == (if t0[j].id == swap_id@ {
                        apply_chain_update(t0[j], u)
                    } else {
                        t0[j]
                    }),
                forall|j: int| k <= j < n ==> #[trigger] self.chain_view()[j] == t0[j],
            decreases n - k,
        {
            if str_eq(self.chain_swaps[k].id.as_str(), swap_id) {
                proof {
                    assert(self.chain_view()[k as int] == t0[k as int]);
                }
                let prev = self.chain_swaps[k].clone();
                proof {
                    assert(prev@ == t0[k as int]);
                }
                let new_lockup: Option<String> = set_once(&prev.lockup_tx_id, lockup_tx_id);
                let new_refund: Option<String> = set_once(&prev.refund_tx_id, refund_tx_id);
                let sw = ChainSwap {
                    id: prev.id,
                    payment_type: prev.payment_type,
                    address: prev.address,
                    preimage: prev.preimage,
                    payer_amount_sat: prev.payer_amount_sat,
                    receiver_amount_sat: prev.receiver_amount_sat,
                    create_response_json: prev.create_response_json,
                    claim_private_key: prev.claim_private_key,
                    refund_private_key: prev.refund_private_key,
                    lockup_tx_id: new_lockup,
                    refund_tx_id: new_refund,
                    created_at: prev.created_at,
                    state: to_state,
                };
                proof {
                    assert(sw@ == apply_chain_update(t0[k as int], u));
                }
                let ghost vb = self.chain_view();
                self.chain_swaps.set(k, sw);
                proof {
                    assert forall|j: int|
                        0 <= j < n && j != k as int implies #[trigger] self.chain_view()[j]
                        == vb[j] by {
                    }
                    assert(self.chain_view()[k as int] == apply_chain_update(t0[k as int], u));
                }
            } else {
                proof {
                    assert(self.chain_view()[k as int] == t0[k as int]);
                    assert(t0[k as int].id != swap_id@);
                }
            }
            k += 1;
        }
        proof {
            assert(self.chain_view() =~= updated_chain_table(t0, swap_id@, u));
        }
        Ok(())
    }

    /// Upserts a provisional payment ledger entry, keyed by transaction id.
    pub fn insert_or_update_payment(&mut self, ptx: PaymentTxData) -> (r: Result<(), PaymentError>)
        requires
            old(self).inv(),
        ensures
            final(self).inv(),
            r is Ok,
            final(self).receive_swaps == old(self).receive_swaps,
            final(self).chain_swaps == old(self).chain_swaps,
            payments_upserted(old(self).payments_view(), final(self).payments_view(), ptx@),
    {
        let n = self.payments.len();
        let mut k: usize = 0;
        while k < n
            invariant
                k <= n,
                n == self.payments.len(),
                self.inv(),
                *self == *old(self),
                forall|j: int| 0 <= j < k ==> (#[trigger] self.payments_view()[j]).tx_id != ptx@.tx_id,
            decreases n - k,
        {
            if str_eq(self.payments[k].tx_id.as_str(), ptx.tx_id.as_str()) {
                let ghost p0 = self.payments_view();
                let ghost e = ptx@;
                proof {
                    assert(p0[k as int].tx_id == e.tx_id);
                }
                self.payments.set(k, ptx);
                proof {
                    assert(self.payments_view() =~= p0.update(k as int, e));
                    assert forall|a: int, b: int|
                        #![trigger self.payments_view()[a], self.payments_view()[b]]
                        0 <= a < b < self.payments_view().len() implies self.payments_view()[a].tx_id
                        != self.payments_view()[b].tx_id by {
                        assert(self.payments_view()[a].tx_id == p0[a].tx_id);
                        assert(self.payments_view()[b].tx_id == p0[b].tx_id);
                        assert(p0[a].tx_id != p0[b].tx_id);
                    }
                }
                return Ok(());
            }
            k += 1;
        }
        let ghost p0 = self.payments_view();
        self.payments.push(ptx);
        proof {
            assert(self.payments_view() =~= p0.push(self.payments_view()[p0.len() as int]));
        }
        Ok(())
    }

    /// Point lookup in the payment ledger.
    pub fn fetch_payment(&self, tx_id: &str) -> (r: Option<PaymentTxData>)
        requires
            self.inv(),
        ensures
            (r is Some) == exists|i: int|
                0 <= i < self.payments_view().len() && (#[trigger] self.payments_view()[i]).tx_id
                    == tx_id@,
            r matches Some(p) ==> p@.tx_id == tx_id@ && forall|i: int|
                0 <= i < self.payments_view().len() && (#[trigger] self.payments_view()[i]).tx_id
                    == tx_id@ ==> self.payments_view()[i] == p@,
    {
        let n = self.payments.len();
        let mut k: usize = 0;
        while k < n
            invariant
                k <= n,
                n == self.payments.len(),
                self.inv(),
                forall|j: int| 0 <= j < k ==> (#[trigger] self.payments_view()[j]).tx_id != tx_id@,
            decreases n - k,
        {
            if str_eq(self.payments[k].tx_id.as_str(), tx_id) {
                let found = self.payments[k].clone();
                proof {
                    assert(self.payments_view()[k as int] == found@);
                }
                return Some(found);
            }
            k += 1;
        }
        None
    }
}

/// The set-once write primitive on one optional field: the argument is taken
/// only where the current value is unset.
fn set_once(current: &Option<String>, arg: Option<&str>) -> (r: Option<String>)
    ensures
        opt_str_view(r) == (if opt_str_view(*current) is Some {
            opt_str_view(*current)
        } else {
            opt_ref_view(arg)
        }),
{
    match current {
        Some(v) => Some(v.clone()),
        None => match arg {
            Some(a) => Some(a.to_owned()),
            None => None,
        },
    }
}

/// Whether an indexed result already carries this key.
pub open spec fn spec_has_key(entries: Seq<(Seq<char>, ChainSwapV)>, key: Seq<char>) -> bool {
    exists|e: int| 0 <= e < entries.len() && (#[trigger] entries[e]).0 == key
}

/// The position of a key in an indexed result (meaningful only under
/// `spec_has_key`; positions are unique since keys are).
pub open spec fn spec_key_index(entries: Seq<(Seq<char>, ChainSwapV)>, key: Seq<char>) -> int {
    choose|e: int| 0 <= e < entries.len() && (#[trigger] entries[e]).0 == key
}

/// The refund-id index of a chain swap table: walking the table in order,
/// each swap in state `Pending` whose refund id is set contributes one entry
/// keyed by that id, overwriting an entry already under that key — so keys
/// stand in order of first occurrence, and under a duplicated refund id the
/// latest matching record supplies the entry.
pub open spec fn spec_refund_index(t: Seq<ChainSwapV>) -> Seq<(Seq<char>, ChainSwapV)>
    decreases t.len(),
{
    if t.len() == 0 {
        Seq::empty()
    } else {
        let prefix = spec_refund_index(t.drop_last());
        let s = t.last();
        match s.refund_tx_id {
            Some(rid) => if s.state is Pending {
                if spec_has_key(prefix, rid) {
                    prefix.update(spec_key_index(prefix, rid), (rid, s))
                } else {
                    prefix.push((rid, s))
                }
            } else {
                prefix
            },
            None => prefix,
        }
    }
}

/// Whether a state passes an optional state filter (`None` selects all).
pub open spec fn spec_state_selected(states: Option<Seq<PaymentState>>, s: PaymentState) -> bool {
    match states {
        None => true,
        Some(ss) => ss.contains(s),
    }
}

/// Spec view of an optional borrowed state list.
pub open spec fn opt_states_view(states: Option<&Vec<PaymentState>>) -> Option<Seq<PaymentState>> {
    match states {
        None => None,
        Some(ss) => Some(ss@),
    }
}

/// Whether a state occurs in a list.
fn state_in(states: &Vec<PaymentState>, s: PaymentState) -> (r: bool)
    ensures
        r == states@.contains(s),
{
    let n = states.len();
    let mut k: usize = 0;
    while k < n
        invariant
            k <= n,
            n == states.len(),
            forall|j: int| 0 <= j < k ==> states@[j] != s,
        decreases n - k,
    {
        if states[k] == s {
            return true;
        }
        k += 1;
    }
    false
}

/// The position of a key in an indexed result, if present.
fn refund_key_position(entries: &Vec<(String, ChainSwap)>, key: &str) -> (r: Option<usize>)
    ensures
        match r {
            Some(e) => e < entries@.len() && entries@[e as int].0@ == key@,
            None => forall|j: int| 0 <= j < entries@.len() ==> (#[trigger] entries@[j]).0@ != key@,
        },
{
    let n = entries.len();
    let mut k: usize = 0;
    while k < n
        invariant
            k <= n,
            n == entries.len(),
            forall|j: int| 0 <= j < k ==> (#[trigger] entries@[j]).0@ != key@,
        decreases n - k,
    {
        if str_eq(entries[k].0.as_str(), key) {
            return Some(k);
        }
        k += 1;
    }
    None
}

/// Two extensionally equal predicates filter a sequence to the same result.
proof fn lemma_filter_congruence<A>(s: Seq<A>, p1: spec_fn(A) -> bool, p2: spec_fn(A) -> bool)
    requires
        forall|a: A| #[trigger] p1(a) == p2(a),
    ensures
        s.filter(p1) == s.filter(p2),
    decreases s.len(),
{
    reveal(Seq::filter);
    if s.len() == 0 {
        assert(s.filter(p1) =~= s.filter(p2));
    } else {
        lemma_filter_congruence(s.drop_last(), p1, p2);
        assert(p1(s.last()) == p2(s.last()));
    }
}

/// Negotiation details of a chain swap worth storing: the counterparty's own
/// copy of the swap id is checked against the expected one and then dropped.
pub struct InternalCreateChainResponse {
    pub claim_details: ChainSwapDetails,
    pub lockup_details: ChainSwapDetails,
}

impl InternalCreateChainResponse {
    /// Accepts a negotiation response only if it names the expected swap id.
    pub fn try_convert_from_boltz(
        boltz_create_response: &CreateChainResponse,
        expected_swap_id: &str,
    ) -> (r: Result<InternalCreateChainResponse, PaymentError>)
        ensures
            (r is Ok) == (boltz_create_response.id@ == expected_swap_id@),
            r matches Ok(ir) ==> ir.claim_details@ == boltz_create_response.claim_details@
                && ir.lockup_details@ == boltz_create_response.lockup_details@,
            r matches Err(e) ==> e is PersistError,
    {
        if !str_eq(boltz_create_response.id.as_str(), expected_swap_id) {
            return Err(PaymentError::PersistError);
        }
        Ok(
            InternalCreateChainResponse {
                claim_details: boltz_create_response.claim_details.clone(),
                lockup_details: boltz_create_response.lockup_details.clone(),
            },
        )
    }
}

/// The SQL text selecting chain swap rows, with the given `WHERE` clauses
/// joined by `AND`, ordered by creation time.
pub open spec fn spec_join_and(cs: Seq<Seq<char>>) -> Seq<char>
    decreases cs.len(),
{
    if cs.len() == 0 {
        Seq::empty()
    } else if cs.len() == 1 {
        cs[0]
    } else {
        cs[0] + " AND "@ + spec_join_and(cs.drop_first())
    }
}

pub open spec fn spec_chain_swaps_query(cs: Seq<Seq<char>>) -> Seq<char> {
    "SELECT id, payment_type, address, preimage, payer_amount_sat, receiver_amount_sat, create_response_json, claim_private_key, refund_private_key, lockup_tx_id, refund_tx_id, created_at, state FROM chain_swaps "@
        + (if cs.len() == 0 {
        Seq::<char>::empty()
    } else {
        "WHERE "@ + spec_join_and(cs) + " "@
    }) + "ORDER BY created_at"@
}

proof fn lemma_join_and_push(cs: Seq<Seq<char>>, x: Seq<char>)
    requires
        cs.len() >= 1,
    ensures
        spec_join_and(cs.push(x)) == spec_join_and(cs) + " AND "@ + x,
    decreases cs.len(),
{
    if cs.len() == 1 {
        assert(cs.push(x).len() == 2);
        assert(cs.push(x)[0] == cs[0]);
        assert(cs.push(x).drop_first() =~= seq![x]);
        assert(spec_join_and(seq![x]) == x);
    } else {
        assert(cs.push(x).drop_first() =~= cs.drop_first().push(x));
        lemma_join_and_push(cs.drop_first(), x);
        assert(cs.push(x)[0] == cs[0]);
        assert(cs[0] + " AND "@ + (spec_join_and(cs.drop_first()) + " AND "@ + x) =~= (cs[0]
            + " AND "@ + spec_join_and(cs.drop_first())) + " AND "@ + x);
    }
}

impl Persister {
    /// Builds the SQL query text for listing chain swaps under the given
    /// `WHERE` clauses, ordered by `created_at` ascending.
    pub fn list_chain_swaps_query(where_clauses: &Vec<String>) -> (r: String)
        ensures
            r@ == spec_chain_swaps_query(where_clauses@.map_values(|s: String| s@)),
    {
        let ghost cs = where_clauses@.map_values(|s: String| s@);
        let mut q =
            "SELECT id, payment_type, address, preimage, payer_amount_sat, receiver_amount_sat, create_response_json, claim_private_key, refund_private_key, lockup_tx_id, refund_tx_id, created_at, state FROM chain_swaps ".to_owned();
        let ghost head = q@;
        if where_clauses.len() > 0 {
            push_str(&mut q, "WHERE ");
            push_str(&mut q, where_clauses[0].as_str());
            let n = where_clauses.len();
            let mut k: usize = 1;
            while k < n
                invariant
                    1 <= k <= n,
                    n == where_clauses.len(),
                    cs == where_clauses@.map_values(|s: String| s@),
                    cs.len() == n,
                    q@ == head + "WHERE "@ + spec_join_and(cs.take(k as int)),
                decreases n - k,
            {
                push_str(&mut q, " AND ");
                push_str(&mut q, where_clauses[k].as_str());
                proof {
                    assert(cs.take(k + 1) =~= cs.take(k as int).push(cs[k as int]));
                    lemma_join_and_push(cs.take(k as int), cs[k as int]);
                    assert(head + "WHERE "@ + spec_join_and(cs.take(k as int)) + " AND "@ + cs[k as int]
                        =~= head + "WHERE "@ + (spec_join_and(cs.take(k as int)) + " AND "@
                        + cs[k as int]));
                }
                k += 1;
            }
            proof {
                assert(cs.take(n as int) =~= cs);
            }
            push_str(&mut q, " ");
            push_str(&mut q, "ORDER BY created_at");
            proof {
                assert(head + "WHERE "@ + spec_join_and(cs) + " "@ + "ORDER BY created_at"@ =~= head
                    + ("WHERE "@ + spec_join_and(cs) + " "@) + "ORDER BY created_at"@);
            }
        } else {
            push_str(&mut q, "ORDER BY created_at");
            proof {
                assert(head + Seq::<char>::empty() =~= head);
            }
        }
        q
    }
}

} // verus!
