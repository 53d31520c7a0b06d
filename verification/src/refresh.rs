//! Coalesced refresh requests: event callbacks only set bits, and the frame
//! thread consumes them all at once.

use std::sync::atomic::AtomicU8;
use vstd::prelude::*;

verus! {

/// Takes every pending request bit, leaving none.
///
/// Other threads may set bits at any time, so what the swap returns is not
/// known here; callers describe whatever it was.
pub fn take_bits(reasons: &AtomicU8) -> (bits: u8) {
    reasons.swap(0, std::sync::atomic::Ordering::AcqRel)
}

/// Adds request bits for the frame thread.
pub fn set_bits(reasons: &AtomicU8, bits: u8) {
    let _ = reasons.fetch_or(bits, std::sync::atomic::Ordering::Release);
}

} // verus!
