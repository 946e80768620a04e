//! Escrow treasury that holds a pool of tokens and pays it out to
//! individually designated beneficiaries ("promises").
//!
//! Every operation is a verified function from the records it reads to the
//! records it writes, plus the token movements that the surrounding runtime
//! must perform. An operation that fails leaves every record unchanged.
use vstd::prelude::*;

pub mod authority;
pub mod error;
pub mod laws;
pub mod promise;
pub mod pubkey;
pub mod token;
pub mod treasury;

use crate::error::ErrorCode;
use crate::promise::{Claim, ClosePromise, InitPromise, SetPromiseAmount};
use crate::pubkey::Pubkey;
use crate::token::Transfer;
use crate::treasury::{CloseTreasury, InitTreasury, TreasuryClosure};

verus! {

/// Opens a treasury over the custody account in `ctx`.
pub fn init_treasury(
    ctx: &mut InitTreasury,
    program_id: &Pubkey,
    admin_authority: Pubkey,
    rent_collector: Pubkey,
    start_time: i64,
    end_time: i64,
) -> (r: Result<(), ErrorCode>)
    ensures
        old(ctx).outcome(*final(ctx), program_id@, admin_authority, rent_collector, start_time, end_time, r),
{
    ctx.process(program_id, admin_authority, rent_collector, start_time, end_time)
}

/// Closes the treasury in `ctx` at time `now`.
pub fn close_treasury(ctx: &mut CloseTreasury, program_id: &Pubkey, now: i64) -> (r: Result<TreasuryClosure, ErrorCode>)
    ensures
        old(ctx).outcome(*final(ctx), program_id@, now, r),
{
    ctx.process(program_id, now)
}

/// Opens an empty promise for `target_authority`.
pub fn init_promise(ctx: &mut InitPromise, program_id: &Pubkey, target_authority: Pubkey, bump: u8) -> (r: Result<(), ErrorCode>)
    ensures
        old(ctx).outcome(*final(ctx), program_id@, target_authority, bump, r),
{
    ctx.process(program_id, target_authority, bump)
}

/// Sets the total of the promise in `ctx` to `new_total_amount` at time `now`.
pub fn set_promise_amount(ctx: &mut SetPromiseAmount, now: i64, new_total_amount: u64) -> (r: Result<(), ErrorCode>)
    requires
        old(ctx).promise_account.wf(),
    ensures
        old(ctx).outcome(*final(ctx), now, new_total_amount, r),
{
    ctx.process(now, new_total_amount)
}

/// Claims the unclaimed amount of the promise in `ctx` at time `now`.
pub fn claim(ctx: &mut Claim, program_id: &Pubkey, now: i64) -> (r: Result<Transfer, ErrorCode>)
    ensures
        old(ctx).outcome(*final(ctx), program_id@, now, r),
{
    ctx.process(program_id, now)
}

/// Cancels the promise in `ctx` at time `now`.
pub fn close_promise(ctx: &mut ClosePromise, now: i64) -> (r: Result<(), ErrorCode>)
    ensures
        old(ctx).outcome(*final(ctx), now, r),
{
    ctx.process(now)
}

} // verus!
