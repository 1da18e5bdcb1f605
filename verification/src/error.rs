use vstd::prelude::*;

verus! {

/// Errors surfaced by the settlement core.
///
/// `AlreadyClaimed` records the benign race in which a claim transaction was
/// already broadcast for a swap; `PersistError` is a storage-level failure;
/// `Generic` carries a descriptive message for domain errors such as an
/// invalid state transition or a missing swap.
#[derive(Debug)]
pub enum PaymentError {
    AlreadyClaimed,
    PersistError,
    Generic { err: String },
}

} // verus!
