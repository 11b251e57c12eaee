//! Per-account fee discounts for a constant-product exchange: the discount
//! record, its deterministic address, and the administrative update of it.

pub mod address;
pub mod curve;
pub mod discount;
pub mod update_user_discount;

pub use address::{derive_user_discount_address, discount_seeds, same_key, Key};
pub use curve::FEE_RATE_DENOMINATOR_VALUE;
pub use discount::UserDiscount;
pub use update_user_discount::{
    apply_discount_update, update_user_discount, AuthorityCheck, UpdateDiscountError,
    UpdateUserDiscount,
};
