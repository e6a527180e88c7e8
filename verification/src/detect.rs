//! Currency detector: a literal scan of the captured amount-field bytes
//! for the 3-byte currency signature.

use vstd::prelude::*;

verus! {

/// First byte of the currency signature (ASCII 'L').
pub const SIG_BYTE_0: u8 = 76;

/// Second byte of the currency signature (ASCII 'K').
pub const SIG_BYTE_1: u8 = 75;

/// Third byte of the currency signature (ASCII 'S').
pub const SIG_BYTE_2: u8 = 83;

/// The bytes a slot read captured: the first `len` bytes of the buffer,
/// or nothing when the read reported absence (`len <= 0`).
pub open spec fn captured(data: Seq<u8>, len: i32) -> Seq<u8> {
    if len <= 0 {
        Seq::empty()
    } else {
        data.subrange(0, len as int)
    }
}

/// The currency signature stands at offset `i` of `s`.
pub open spec fn signature_at(s: Seq<u8>, i: int) -> bool {
    &&& 0 <= i
    &&& i + 3 <= s.len()
    &&& s[i] == SIG_BYTE_0
    &&& s[i + 1] == SIG_BYTE_1
    &&& s[i + 2] == SIG_BYTE_2
}

/// The currency signature stands somewhere in `s`.
pub open spec fn has_signature(s: Seq<u8>) -> bool {
    exists|i: int| signature_at(s, i)
}

/// Decides whether the amount field is denominated in the target currency:
/// true exactly when the captured bytes contain the currency signature.
///
/// `amount_len` is what the host's slot read returned (non-positive means
/// the field is absent or unreadable, which counts as "not detected", not
/// as an error), and `amount` is the buffer the read filled.
pub fn is_lks_coin_transaction(amount_len: i32, amount: &[u8]) -> (r: bool)
    requires
        amount_len as int <= amount@.len(),
    ensures
        r == has_signature(captured(amount@, amount_len)),
{
    if amount_len < 3 {
        return false;
    }
    let n = amount_len as usize;
    let ghost cap = captured(amount@, amount_len);
    let mut i: usize = 0;
    while i + 3 <= n
        invariant
            cap == captured(amount@, amount_len),
            n == cap.len(),
            n <= amount@.len(),
            3 <= n <= 0x7fff_ffff,
            i <= n,
            forall|j: int| 0 <= j < n ==> cap[j] == amount@[j],
            forall|j: int| 0 <= j < i ==> !signature_at(cap, j),
        decreases n - i,
    {
        if amount[i] == SIG_BYTE_0 && amount[i + 1] == SIG_BYTE_1 && amount[i + 2] == SIG_BYTE_2 {
            assert(signature_at(cap, i as int));
            return true;
        }
        i = i + 1;
    }
    false
}

} // verus!
