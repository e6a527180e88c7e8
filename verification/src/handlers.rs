//! Transfer and exchange-operation handlers, and the hook decision they
//! compose into.
//!
//! Each handler takes the raw results of the host's slot reads — the length
//! the read returned and the buffer it filled — and decides the invocation's
//! whole outcome: the verdict, whether the fee slot is overwritten with
//! zero, the terminal signal, and the fee value traced when sponsoring.

use vstd::prelude::*;
use vstd::bytes::spec_u64_from_le_bytes;
use vstd::bytes::u64_from_le_bytes;
use crate::detect::captured;
use crate::detect::has_signature;
use crate::detect::is_lks_coin_transaction;
use crate::dispatch::Route;
use crate::dispatch::route_for_type;
use crate::dispatch::spec_route;
use crate::outcome::HookOutcome;
use crate::outcome::HookSignal;

verus! {

/// The outcome of the transfer handler on the given fee and amount reads.
pub open spec fn spec_transfer_outcome(
    fee_len: i32,
    fee: Seq<u8>,
    amount_len: i32,
    amount: Seq<u8>,
) -> HookOutcome {
    if fee_len != 8 {
        HookOutcome {
            verdict: -1i64,
            zero_fee_slot: false,
            signal: HookSignal::RejectFeeUnreadable,
            sponsor_trace: None,
        }
    } else if has_signature(captured(amount, amount_len)) {
        HookOutcome {
            verdict: 0,
            zero_fee_slot: true,
            signal: HookSignal::AcceptSponsored,
            sponsor_trace: Some(spec_u64_from_le_bytes(fee)),
        }
    } else {
        HookOutcome {
            verdict: 0,
            zero_fee_slot: false,
            signal: HookSignal::AcceptUnmodified,
            sponsor_trace: None,
        }
    }
}

/// The outcome of the exchange-operation handler on the given amount read.
pub open spec fn spec_dex_outcome(amount_len: i32, amount: Seq<u8>) -> HookOutcome {
    if has_signature(captured(amount, amount_len)) {
        HookOutcome {
            verdict: 0,
            zero_fee_slot: true,
            signal: HookSignal::AcceptSponsored,
            sponsor_trace: Some(0),
        }
    } else {
        HookOutcome {
            verdict: 0,
            zero_fee_slot: false,
            signal: HookSignal::AcceptUnmodified,
            sponsor_trace: None,
        }
    }
}

/// The outcome of a pass-through: unconditional acceptance, nothing touched.
pub open spec fn spec_pass_through_outcome() -> HookOutcome {
    HookOutcome {
        verdict: 0,
        zero_fee_slot: false,
        signal: HookSignal::AcceptPassThrough,
        sponsor_trace: None,
    }
}

/// The outcome of a whole hook invocation on the given transaction type and
/// slot reads.
pub open spec fn spec_hook_outcome(
    tx_type: i32,
    fee_len: i32,
    fee: Seq<u8>,
    amount_len: i32,
    amount: Seq<u8>,
) -> HookOutcome {
    match spec_route(tx_type) {
        Route::Transfer => spec_transfer_outcome(fee_len, fee, amount_len, amount),
        Route::Dex => spec_dex_outcome(amount_len, amount),
        Route::PassThrough => spec_pass_through_outcome(),
    }
}

/// Decides fee sponsorship for a payment-shaped transaction.
///
/// `fee_len` is what the host's fee-slot read returned and `fee` the 8-byte
/// buffer it filled; `amount_len` and `amount` likewise for the amount slot.
/// A fee read of any length other than 8 is the module's one hard failure:
/// verdict -1, a rejection signal, and no slot mutation. Otherwise the
/// transaction is accepted with verdict 0, and the fee slot is zeroed
/// exactly when the captured amount bytes contain the currency signature,
/// tracing the original (little-endian) fee value that was waived.
pub fn handle_lks_transfer(fee_len: i32, fee: &[u8], amount_len: i32, amount: &[u8]) -> (o:
    HookOutcome)
    requires
        fee@.len() == 8,
        amount_len as int <= amount@.len(),
    ensures
        o == spec_transfer_outcome(fee_len, fee@, amount_len, amount@),
        fee_len != 8 ==> o.verdict == -1 && !o.zero_fee_slot,
        fee_len == 8 && has_signature(captured(amount@, amount_len)) ==> o.verdict == 0
            && o.zero_fee_slot && o.sponsor_trace == Some(spec_u64_from_le_bytes(fee@)),
        fee_len == 8 && !has_signature(captured(amount@, amount_len)) ==> o.verdict == 0
            && !o.zero_fee_slot,
{
    if fee_len != 8 {
        return HookOutcome {
            verdict: -1,
            zero_fee_slot: false,
            signal: HookSignal::RejectFeeUnreadable,
            sponsor_trace: None,
        };
    }
    let original_fee = u64_from_le_bytes(fee);
    if is_lks_coin_transaction(amount_len, amount) {
        HookOutcome {
            verdict: 0,
            zero_fee_slot: true,
            signal: HookSignal::AcceptSponsored,
            sponsor_trace: Some(original_fee),
        }
    } else {
        HookOutcome {
            verdict: 0,
            zero_fee_slot: false,
            signal: HookSignal::AcceptUnmodified,
            sponsor_trace: None,
        }
    }
}

/// Decides whether an exchange operation trades the target currency. The
/// check reads the same generic amount slot as a transfer does.
pub fn is_lks_coin_dex_operation(amount_len: i32, amount: &[u8]) -> (r: bool)
    requires
        amount_len as int <= amount@.len(),
    ensures
        r == has_signature(captured(amount@, amount_len)),
{
    is_lks_coin_transaction(amount_len, amount)
}

/// Decides fee sponsorship for an order-book transaction. There is no
/// hard-failure path here: the fee slot is zeroed exactly when the captured
/// amount bytes contain the currency signature, the verdict is 0 either
/// way, and a sponsored operation traces the value 0.
pub fn handle_dex_operation(amount_len: i32, amount: &[u8]) -> (o: HookOutcome)
    requires
        amount_len as int <= amount@.len(),
    ensures
        o == spec_dex_outcome(amount_len, amount@),
        o.verdict == 0,
        o.zero_fee_slot == has_signature(captured(amount@, amount_len)),
{
    if is_lks_coin_dex_operation(amount_len, amount) {
        HookOutcome {
            verdict: 0,
            zero_fee_slot: true,
            signal: HookSignal::AcceptSponsored,
            sponsor_trace: Some(0),
        }
    } else {
        HookOutcome {
            verdict: 0,
            zero_fee_slot: false,
            signal: HookSignal::AcceptUnmodified,
            sponsor_trace: None,
        }
    }
}

/// The pass-through outcome for an unrecognized transaction type.
pub fn pass_through() -> (o: HookOutcome)
    ensures
        o == spec_pass_through_outcome(),
{
    HookOutcome {
        verdict: 0,
        zero_fee_slot: false,
        signal: HookSignal::AcceptPassThrough,
        sponsor_trace: None,
    }
}

/// The whole hook decision: dispatches on the transaction type and returns
/// the routed handler's outcome.
///
/// This composes the decision over slot reads done up front. A caller that
/// must not touch the slots of an unrecognized transaction routes with
/// [`route_for_type`] first and reads only what the route's handler takes.
pub fn hook(tx_type: i32, fee_len: i32, fee: &[u8], amount_len: i32, amount: &[u8]) -> (o:
    HookOutcome)
    requires
        fee@.len() == 8,
        amount_len as int <= amount@.len(),
    ensures
        o == spec_hook_outcome(tx_type, fee_len, fee@, amount_len, amount@),
{
    match route_for_type(tx_type) {
        Route::Transfer => handle_lks_transfer(fee_len, fee, amount_len, amount),
        Route::Dex => handle_dex_operation(amount_len, amount),
        Route::PassThrough => pass_through(),
    }
}

} // verus!
