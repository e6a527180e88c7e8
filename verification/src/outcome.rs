//! The verdict and side effects a hook invocation hands back to the host.

use vstd::prelude::*;

verus! {

/// The terminal signal the module owes the host for the invocation. The
/// caller maps each variant to the host's `accept`/`reject` primitive with
/// the matching diagnostic message.
#[derive(Clone, Copy, Debug, PartialEq, Eq, Structural)]
pub enum HookSignal {
    /// Target-currency transaction: fee sponsored, transaction accepted.
    AcceptSponsored,
    /// Not the target currency: accepted with its original fee.
    AcceptUnmodified,
    /// Unrecognized transaction type: unconditional pass-through acceptance.
    AcceptPassThrough,
    /// The fee field could not be read as exactly 8 bytes: hard failure.
    RejectFeeUnreadable,
}

/// Everything a hook invocation decides. The caller performs it against the
/// host in order: zero the fee slot if `zero_fee_slot`, emit `sponsor_trace`
/// if present, signal `signal`, and return `verdict` to the host.
#[derive(Clone, Copy, Debug)]
pub struct HookOutcome {
    /// The signed verdict returned to the host: 0 accepts, negative rejects.
    pub verdict: i64,
    /// True exactly when the fee slot must be overwritten with 8 zero bytes.
    pub zero_fee_slot: bool,
    /// The terminal accept/reject signal owed to the host.
    pub signal: HookSignal,
    /// The fee value that was waived, to be traced when sponsoring.
    pub sponsor_trace: Option<u64>,
}

} // verus!
