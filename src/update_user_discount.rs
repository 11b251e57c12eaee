use crate::address::{derive_user_discount_address, same_key, user_discount_address, Key};
use crate::curve::FEE_RATE_DENOMINATOR_VALUE;
use crate::discount::UserDiscount;
use vstd::prelude::*;

verus! {

/// Who may set a discount: only the designated administrator, or, in test
/// configurations, any signer.
#[derive(Clone, Copy, Debug)]
pub enum AuthorityCheck {
    Admin(Key),
    AnySigner,
}

/// Why an update was refused. Each refusal leaves the record as it was.
#[derive(Clone, Copy, Debug, PartialEq, Eq, Structural)]
pub enum UpdateDiscountError {
    /// The caller is not the designated administrator.
    AuthorizationError,
    /// The record's address is not the one derived for the target participant.
    AddressMismatchError,
    /// The requested numerator is above the discount ceiling.
    BoundViolationError,
}

/// The accounts of a discount update: the caller, the target participant and
/// the target's discount record with its address, under one program.
#[derive(Clone, Copy, Debug)]
pub struct UpdateUserDiscount {
    pub program_id: Key,
    pub authority_check: AuthorityCheck,
    /// The identity that signed the update.
    pub authority: Key,
    /// The participant whose discount is set.
    pub user: Key,
    /// The address of the record handed in.
    pub user_discount_key: Key,
    pub user_discount: UserDiscount,
}

/// The largest discount numerator: 30% of the fee rate denominator.
pub open spec fn max_discount_nominator() -> int {
    30 * FEE_RATE_DENOMINATOR_VALUE / 100
}

pub open spec fn is_authorized(check: AuthorityCheck, caller: Seq<u8>) -> bool {
    match check {
        AuthorityCheck::Admin(admin) => caller == admin@,
        AuthorityCheck::AnySigner => true,
    }
}

pub open spec fn key_view(k: Option<Key>) -> Option<Seq<u8>> {
    match k {
        Some(a) => Some(a@),
        None => None,
    }
}

/// `ctx` with the record's numerator replaced by `discount`.
pub open spec fn with_discount(ctx: UpdateUserDiscount, discount: u64) -> UpdateUserDiscount {
    UpdateUserDiscount {
        user_discount: UserDiscount { discount_nominator: discount, ..ctx.user_discount },
        ..ctx
    }
}

/// The accounts after, and the result of, an update to `discount`, where
/// `derived` is the address derived for the target's record.
pub open spec fn discount_update(
    ctx: UpdateUserDiscount,
    derived: Option<Seq<u8>>,
    discount: u64,
) -> (UpdateUserDiscount, Result<(), UpdateDiscountError>) {
    if !is_authorized(ctx.authority_check, ctx.authority@) {
        (ctx, Err(UpdateDiscountError::AuthorizationError))
    } else if derived != Some(ctx.user_discount_key@) {
        (ctx, Err(UpdateDiscountError::AddressMismatchError))
    } else if discount > max_discount_nominator() {
        (ctx, Err(UpdateDiscountError::BoundViolationError))
    } else {
        (with_discount(ctx, discount), Ok(()))
    }
}

/// The address that the target's record must have: derived from the target's
/// key and the record's bump under the program.
pub open spec fn expected_address(ctx: UpdateUserDiscount) -> Option<Seq<u8>> {
    user_discount_address(ctx.user@, ctx.user_discount.bump, ctx.program_id@)
}

/// The accounts after, and the result of, `update_user_discount(ctx, discount)`.
pub open spec fn update_outcome(ctx: UpdateUserDiscount, discount: u64) -> (
    UpdateUserDiscount,
    Result<(), UpdateDiscountError>,
) {
    discount_update(ctx, expected_address(ctx), discount)
}

/// Sets the target's discount to `discount`, given the address `derived` for
/// the target's record: the caller must pass the authority check, the record
/// must stand at `derived`, and `discount` must not exceed the ceiling.
pub fn apply_discount_update(
    ctx: &mut UpdateUserDiscount,
    derived: Option<Key>,
    discount: u64,
) -> (r: Result<(), UpdateDiscountError>)
    ensures
        (*final(ctx), r) == discount_update(*old(ctx), key_view(derived), discount),
{
    let authorized = match &ctx.authority_check {
        AuthorityCheck::Admin(admin) => same_key(&ctx.authority, admin),
        AuthorityCheck::AnySigner => true,
    };
    if !authorized {
        return Err(UpdateDiscountError::AuthorizationError);
    }
    let bound = match &derived {
        Some(a) => same_key(a, &ctx.user_discount_key),
        None => false,
    };
    if !bound {
        return Err(UpdateDiscountError::AddressMismatchError);
    }
    let max: u64 = 30 * FEE_RATE_DENOMINATOR_VALUE / 100;
    if discount > max {
        return Err(UpdateDiscountError::BoundViolationError);
    }
    ctx.user_discount.discount_nominator = discount;
    Ok(())
}

/// Sets the target participant's discount numerator to `discount`, after
/// checking the caller's authority, the record's address and the ceiling.
pub fn update_user_discount(
    ctx: &mut UpdateUserDiscount,
    discount: u64,
) -> (r: Result<(), UpdateDiscountError>)
    ensures
        (*final(ctx), r) == update_outcome(*old(ctx), discount),
        r is Ok ==> final(ctx).user_discount.discount_nominator <= max_discount_nominator(),
        discount > max_discount_nominator() ==> r is Err && *final(ctx) == *old(ctx),
        ({
            &&& is_authorized(old(ctx).authority_check, old(ctx).authority@)
            &&& expected_address(*old(ctx)) == Some(old(ctx).user_discount_key@)
            &&& discount <= max_discount_nominator()
        }) ==> r is Ok && final(ctx).user_discount.discount_nominator == discount,
        !is_authorized(old(ctx).authority_check, old(ctx).authority@) ==> r == Err::<
            (),
            UpdateDiscountError,
        >(UpdateDiscountError::AuthorizationError) && *final(ctx) == *old(ctx),
        expected_address(*old(ctx)) != Some(old(ctx).user_discount_key@) ==> r is Err
            && *final(ctx) == *old(ctx),
{
    let derived = derive_user_discount_address(&ctx.user, ctx.user_discount.bump, &ctx.program_id);
    apply_discount_update(ctx, derived, discount)
}

/// Applying the same update twice leaves the accounts as applying it once,
/// and the second application gives the same result as the first.
pub proof fn lemma_update_idempotent(ctx: UpdateUserDiscount, discount: u64)
    ensures
        update_outcome(update_outcome(ctx, discount).0, discount) == update_outcome(ctx, discount),
{
}

} // verus!
