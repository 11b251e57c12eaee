use vstd::prelude::*;

verus! {

/// One participant's fee discount: `discount_nominator / FEE_RATE_DENOMINATOR_VALUE`
/// of the base fee. The record lives at an address derived from the
/// participant's key and `bump`.
#[derive(Clone, Copy, Debug, PartialEq, Eq, Structural)]
pub struct UserDiscount {
    pub discount_nominator: u64,
    pub bump: u8,
}

impl UserDiscount {
    /// Serialized size: account discriminator, numerator, bump.
    pub const LEN: usize = 8 + 8 + 1;

    /// A fresh record, with no discount, for an address derived with `bump`.
    pub fn new(bump: u8) -> (r: Self)
        ensures
            r.discount_nominator == 0,
            r.bump == bump,
    {
        UserDiscount { discount_nominator: 0, bump }
    }
}

} // verus!
