use vstd::prelude::*;

verus! {

/// Denominator shared by every fee rate and fee discount of the protocol.
pub const FEE_RATE_DENOMINATOR_VALUE: u64 = 1_000_000;

} // verus!
