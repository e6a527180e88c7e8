//! Laws the decision engine obeys, stated over the spec-level outcomes and
//! proved once for all inputs.

use vstd::prelude::*;
use crate::detect::captured;
use crate::detect::has_signature;
use crate::dispatch::LKS_TRANSFER_TYPE;
use crate::dispatch::TX_TYPE_OFFER_CANCEL;
use crate::dispatch::TX_TYPE_OFFER_CREATE;
use crate::dispatch::TX_TYPE_PAYMENT;
use crate::handlers::spec_dex_outcome;
use crate::handlers::spec_hook_outcome;
use crate::handlers::spec_pass_through_outcome;
use crate::handlers::spec_transfer_outcome;
use crate::outcome::HookSignal;

verus! {

/// Every transaction type outside the recognized set passes through
/// unmodified: the verdict is 0, an acceptance signal is owed, and no fee
/// mutation is requested — whatever the slot reads would have held.
pub proof fn lemma_unrecognized_type_passes_through(
    tx_type: i32,
    fee_len: i32,
    fee: Seq<u8>,
    amount_len: i32,
    amount: Seq<u8>,
)
    requires
        tx_type != LKS_TRANSFER_TYPE,
        tx_type != TX_TYPE_PAYMENT,
        tx_type != TX_TYPE_OFFER_CREATE,
        tx_type != TX_TYPE_OFFER_CANCEL,
    ensures
        spec_hook_outcome(tx_type, fee_len, fee, amount_len, amount)
            == spec_pass_through_outcome(),
        spec_hook_outcome(tx_type, fee_len, fee, amount_len, amount).verdict == 0,
        !spec_hook_outcome(tx_type, fee_len, fee, amount_len, amount).zero_fee_slot,
        spec_hook_outcome(tx_type, fee_len, fee, amount_len, amount).signal
            == HookSignal::AcceptPassThrough,
{
}

/// Detection is independent of the original fee value: two transfers that
/// differ only in their well-formed fee bytes get the same verdict, the
/// same fee-slot mutation and the same signal. Only the traced waived fee
/// reflects the fee read, so sponsoring a transaction whose original fee is
/// already 0 behaves no differently from sponsoring a non-zero fee.
pub proof fn lemma_detection_independent_of_fee(
    fee_a: Seq<u8>,
    fee_b: Seq<u8>,
    amount_len: i32,
    amount: Seq<u8>,
)
    ensures
        spec_transfer_outcome(8, fee_a, amount_len, amount).verdict
            == spec_transfer_outcome(8, fee_b, amount_len, amount).verdict,
        spec_transfer_outcome(8, fee_a, amount_len, amount).zero_fee_slot
            == spec_transfer_outcome(8, fee_b, amount_len, amount).zero_fee_slot,
        spec_transfer_outcome(8, fee_a, amount_len, amount).signal
            == spec_transfer_outcome(8, fee_b, amount_len, amount).signal,
{
}

/// Exchange operations follow the same zero/no-zero fee branching as
/// transfers, keyed off the same detection predicate: on the same amount
/// read, a dex operation zeroes the fee slot exactly when a transfer with a
/// well-formed fee read would, namely when the captured amount bytes
/// contain the currency signature, and both return verdict 0.
pub proof fn lemma_dex_matches_transfer_branching(fee: Seq<u8>, amount_len: i32, amount: Seq<u8>)
    ensures
        spec_dex_outcome(amount_len, amount).zero_fee_slot
            == spec_transfer_outcome(8, fee, amount_len, amount).zero_fee_slot,
        spec_dex_outcome(amount_len, amount).zero_fee_slot
            == has_signature(captured(amount, amount_len)),
        spec_dex_outcome(amount_len, amount).verdict == 0,
        spec_transfer_outcome(8, fee, amount_len, amount).verdict == 0,
{
}

} // verus!
