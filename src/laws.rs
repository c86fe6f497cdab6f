//! Properties that hold across calls of the campaign transitions, stated over
//! the same definitions as the transitions' own contracts.

use vstd::prelude::*;
use crate::campaign::{
    create_check, create_step, donate_check, donate_step, withdraw_check, withdraw_step, Create,
    Donate, Errors, Withdraw,
};

verus! {

/// The accounts after donating each of `amounts` in turn.
pub open spec fn donate_all(ctx: Donate, amounts: Seq<u64>) -> Donate
    decreases amounts.len(),
{
    if amounts.len() == 0 {
        ctx
    } else {
        donate_step(donate_all(ctx, amounts.drop_last()), amounts.last())
    }
}

/// The sum of those of `amounts` that were accepted, donating each in turn.
pub open spec fn accepted_sum(ctx: Donate, amounts: Seq<u64>) -> int
    decreases amounts.len(),
{
    if amounts.len() == 0 {
        0
    } else {
        let before = donate_all(ctx, amounts.drop_last());
        accepted_sum(ctx, amounts.drop_last()) + if donate_check(before, amounts.last()) is Ok {
            amounts.last() as int
        } else {
            0
        }
    }
}

/// A creation that succeeds yields a record with a positive target, nothing
/// donated yet, and the caller as owner.
pub proof fn lemma_created_record(
    ctx: Create,
    name: String,
    description: String,
    target_amount: u64,
)
    requires
        create_check(name@, description@, target_amount) is Ok,
    ensures
        0 < create_step(ctx, name, description, target_amount).campaign.target_amount,
        create_step(ctx, name, description, target_amount).campaign.amount_donated == 0,
        create_step(ctx, name, description, target_amount).campaign.owner == ctx.user,
        create_step(ctx, name, description, target_amount).campaign.valid(),
{
}

/// Over any run of donations, the amount donated grows by exactly the sum of
/// the donations that were accepted, and never passes the target.
pub proof fn lemma_donations_add_up(ctx: Donate, amounts: Seq<u64>)
    requires
        ctx.campaign.amount_donated <= ctx.campaign.target_amount,
    ensures
        donate_all(ctx, amounts).campaign.amount_donated == ctx.campaign.amount_donated
            + accepted_sum(ctx, amounts),
        donate_all(ctx, amounts).campaign.amount_donated <= ctx.campaign.target_amount,
        donate_all(ctx, amounts).campaign.target_amount == ctx.campaign.target_amount,
    decreases amounts.len(),
{
    if amounts.len() > 0 {
        lemma_donations_add_up(ctx, amounts.drop_last());
    }
}

/// A donation that would take the amount donated past the target changes
/// nothing: neither the counter nor any balance.
pub proof fn lemma_over_target_donation_changes_nothing(ctx: Donate, amount: u64)
    requires
        ctx.campaign.amount_donated + amount > ctx.campaign.target_amount,
    ensures
        donate_step(ctx, amount) == ctx,
        amount > 0 ==> donate_check(ctx, amount) == Err::<(), Errors>(Errors::TargetExceeded),
{
}

/// A withdrawal by anyone but the owner is refused as `NotOwner` and changes
/// nothing, whatever the amount and the state of the record.
pub proof fn lemma_only_owner_withdraws(ctx: Withdraw, amount: u64)
    requires
        ctx.user@ != ctx.campaign.owner@,
    ensures
        withdraw_step(ctx, amount) == ctx,
        withdraw_check(ctx, amount) == Err::<(), Errors>(Errors::NotOwner),
{
}

/// A withdrawal that would leave the campaign below its reserve floor
/// changes nothing, and the owner's request for a positive amount is refused
/// as `InsufficientFunds`.
pub proof fn lemma_reserve_floor_kept(ctx: Withdraw, amount: u64)
    requires
        ctx.campaign_lamports - amount < ctx.reserve_floor,
    ensures
        withdraw_step(ctx, amount) == ctx,
        amount > 0 && ctx.user@ == ctx.campaign.owner@ ==> withdraw_check(ctx, amount) == Err::<
            (),
            Errors,
        >(Errors::InsufficientFunds),
{
}

/// A creation that failed leaves the accounts as they were, so repeating it
/// fails again with the same error.
pub proof fn lemma_failed_create_repeats(
    ctx: Create,
    name: String,
    description: String,
    target_amount: u64,
)
    requires
        create_check(name@, description@, target_amount) is Err,
    ensures
        create_step(ctx, name, description, target_amount) == ctx,
        create_step(create_step(ctx, name, description, target_amount), name, description, target_amount) == ctx,
{
}

/// A donation that failed leaves the accounts as they were, so repeating it
/// fails again with the same error.
pub proof fn lemma_failed_donation_repeats(ctx: Donate, amount: u64)
    requires
        donate_check(ctx, amount) is Err,
    ensures
        donate_step(ctx, amount) == ctx,
        donate_check(donate_step(ctx, amount), amount) == donate_check(ctx, amount),
{
}

/// A withdrawal that failed leaves the accounts as they were, so repeating
/// it fails again with the same error.
pub proof fn lemma_failed_withdrawal_repeats(ctx: Withdraw, amount: u64)
    requires
        withdraw_check(ctx, amount) is Err,
    ensures
        withdraw_step(ctx, amount) == ctx,
        withdraw_check(withdraw_step(ctx, amount), amount) == withdraw_check(ctx, amount),
{
}

} // verus!
