//! The campaign record and its three transitions: `create`, `donate` and
//! `withdraw`. Each transition either applies in full or, on an error,
//! leaves every record and balance as it found them.

use vstd::prelude::*;
use crate::identity::Identity;
use crate::text::{blank, byte_len, is_blank, text_byte_len};

verus! {

/// Largest length of a campaign's name, in bytes.
pub const NAME_LENGTH: usize = 100;

/// Largest length of a campaign's description, in bytes.
pub const DESCRIPTION_LENGTH: usize = 1024;

/// Why a transition was refused.
#[derive(Clone, Copy, Debug, PartialEq, Eq, Structural)]
pub enum Errors {
    /// The caller is not the owner of the campaign.
    NotOwner,
    /// A balance cannot cover the amount: the campaign's spare funds above
    /// its reserve floor, or the donor's funds.
    InsufficientFunds,
    /// The amount is zero.
    AmountNotPositive,
    /// The donation would take the campaign past its target.
    TargetExceeded,
    /// The name or the description is blank.
    CampaignDataMissing,
    /// The name is longer than `NAME_LENGTH` bytes.
    NameTooLong,
    /// The description is longer than `DESCRIPTION_LENGTH` bytes.
    DescriptionTooLong,
}

/// One campaign: who may withdraw, what it is for, and how far it got.
#[derive(Clone, Debug)]
pub struct Campaign {
    pub owner: Identity,
    pub name: String,
    pub description: String,
    pub amount_donated: u64,
    pub target_amount: u64,
}

impl Campaign {
    /// The counters of the record agree: the target is positive and has not
    /// been passed.
    pub open spec fn valid(&self) -> bool {
        0 < self.target_amount && self.amount_donated <= self.target_amount
    }
}

/// The accounts of a creation: the freshly allocated record and the caller,
/// who becomes its owner.
#[derive(Clone, Debug)]
pub struct Create {
    pub campaign: Campaign,
    pub user: Identity,
}

/// The accounts of a donation: the campaign with its backing balance, and
/// the donor with theirs.
#[derive(Clone, Debug)]
pub struct Donate {
    pub campaign: Campaign,
    pub campaign_lamports: u64,
    pub user: Identity,
    pub user_lamports: u64,
}

/// The accounts of a withdrawal: the campaign with its backing balance and
/// the least balance its storage must keep, and the caller with their
/// balance.
#[derive(Clone, Debug)]
pub struct Withdraw {
    pub campaign: Campaign,
    pub campaign_lamports: u64,
    pub reserve_floor: u64,
    pub user: Identity,
    pub user_lamports: u64,
}

/// Moving `amount` between two balances, or `None` where the payer cannot
/// cover it or the payee's balance would not fit.
pub open spec fn transfer_spec(from: u64, to: u64, amount: u64) -> Option<(u64, u64)> {
    if from < amount || to + amount > u64::MAX {
        None
    } else {
        Some(((from - amount) as u64, (to + amount) as u64))
    }
}

/// Moves `amount` from the balance `from` to the balance `to`, all or
/// nothing: the new pair of balances, or `None` with neither touched.
pub fn transfer(from: u64, to: u64, amount: u64) -> (r: Option<(u64, u64)>)
    ensures
        r == transfer_spec(from, to, amount),
{
    if from < amount {
        return None;
    }
    match to.checked_add(amount) {
        Some(t) => Some((from - amount, t)),
        None => None,
    }
}

/// The outcome of `create` on the given text and target.
pub open spec fn create_check(name: Seq<char>, description: Seq<char>, target_amount: u64) -> Result<
    (),
    Errors,
> {
    if is_blank(name) || is_blank(description) {
        Err(Errors::CampaignDataMissing)
    } else if byte_len(name) > NAME_LENGTH {
        Err(Errors::NameTooLong)
    } else if byte_len(description) > DESCRIPTION_LENGTH {
        Err(Errors::DescriptionTooLong)
    } else if target_amount == 0 {
        Err(Errors::AmountNotPositive)
    } else {
        Ok(())
    }
}

/// The accounts after `create`.
pub open spec fn create_step(ctx: Create, name: String, description: String, target_amount: u64) -> Create {
    if create_check(name@, description@, target_amount) is Ok {
        Create {
            campaign: Campaign {
                owner: ctx.user,
                name,
                description,
                amount_donated: 0,
                target_amount,
            },
            user: ctx.user,
        }
    } else {
        ctx
    }
}

/// The outcome of `donate` of `amount` on the given accounts.
pub open spec fn donate_check(ctx: Donate, amount: u64) -> Result<(), Errors> {
    if amount == 0 {
        Err(Errors::AmountNotPositive)
    } else if ctx.campaign.amount_donated + amount > ctx.campaign.target_amount {
        Err(Errors::TargetExceeded)
    } else if transfer_spec(ctx.user_lamports, ctx.campaign_lamports, amount) is None {
        Err(Errors::InsufficientFunds)
    } else {
        Ok(())
    }
}

/// The accounts after `donate` of `amount`.
pub open spec fn donate_step(ctx: Donate, amount: u64) -> Donate {
    if donate_check(ctx, amount) is Ok {
        Donate {
            campaign: Campaign {
                amount_donated: (ctx.campaign.amount_donated + amount) as u64,
                ..ctx.campaign
            },
            campaign_lamports: (ctx.campaign_lamports + amount) as u64,
            user_lamports: (ctx.user_lamports - amount) as u64,
            ..ctx
        }
    } else {
        ctx
    }
}

/// The outcome of `withdraw` of `amount` on the given accounts.
pub open spec fn withdraw_check(ctx: Withdraw, amount: u64) -> Result<(), Errors> {
    if ctx.campaign.owner@ != ctx.user@ {
        Err(Errors::NotOwner)
    } else if amount == 0 {
        Err(Errors::AmountNotPositive)
    } else if ctx.campaign_lamports < ctx.reserve_floor + amount {
        Err(Errors::InsufficientFunds)
    } else if transfer_spec(ctx.campaign_lamports, ctx.user_lamports, amount) is None {
        Err(Errors::InsufficientFunds)
    } else {
        Ok(())
    }
}

/// The accounts after `withdraw` of `amount`.
pub open spec fn withdraw_step(ctx: Withdraw, amount: u64) -> Withdraw {
    if withdraw_check(ctx, amount) is Ok {
        Withdraw {
            campaign_lamports: (ctx.campaign_lamports - amount) as u64,
            user_lamports: (ctx.user_lamports + amount) as u64,
            ..ctx
        }
    } else {
        ctx
    }
}

/// Fills the fresh record with the caller as owner, the given name,
/// description and target, and nothing donated yet. Blank text is checked
/// first, then the lengths, then the target.
pub fn create(ctx: &mut Create, name: String, description: String, target_amount: u64) -> (r:
    Result<(), Errors>)
    ensures
        r == create_check(name@, description@, target_amount),
        *final(ctx) == create_step(*old(ctx), name, description, target_amount),
        r is Ok ==> {
            &&& final(ctx).campaign.valid()
            &&& final(ctx).campaign.amount_donated == 0
            &&& final(ctx).campaign.owner == old(ctx).user
        },
{
    if blank(name.as_str()) || blank(description.as_str()) {
        return Err(Errors::CampaignDataMissing);
    }
    if text_byte_len(name.as_str()) > NAME_LENGTH {
        return Err(Errors::NameTooLong);
    }
    if text_byte_len(description.as_str()) > DESCRIPTION_LENGTH {
        return Err(Errors::DescriptionTooLong);
    }
    if target_amount == 0 {
        return Err(Errors::AmountNotPositive);
    }
    let owner = ctx.user;
    ctx.campaign = Campaign { owner, name, description, amount_donated: 0, target_amount };
    Ok(())
}

/// Moves `amount` from the donor to the campaign and adds it to the amount
/// donated, both or neither.
pub fn donate(ctx: &mut Donate, amount: u64) -> (r: Result<(), Errors>)
    ensures
        r == donate_check(*old(ctx), amount),
        *final(ctx) == donate_step(*old(ctx), amount),
        final(ctx).campaign_lamports + final(ctx).user_lamports == old(ctx).campaign_lamports
            + old(ctx).user_lamports,
        final(ctx).campaign.amount_donated <= final(ctx).campaign.target_amount
            || final(ctx).campaign == old(ctx).campaign,
        old(ctx).campaign.valid() ==> final(ctx).campaign.valid(),
{
    if amount == 0 {
        return Err(Errors::AmountNotPositive);
    }
    let total = match ctx.campaign.amount_donated.checked_add(amount) {
        Some(t) => t,
        None => {
            return Err(Errors::TargetExceeded);
        },
    };
    if total > ctx.campaign.target_amount {
        return Err(Errors::TargetExceeded);
    }
    match transfer(ctx.user_lamports, ctx.campaign_lamports, amount) {
        Some((from, to)) => {
            ctx.user_lamports = from;
            ctx.campaign_lamports = to;
            ctx.campaign.amount_donated = total;
            Ok(())
        },
        None => Err(Errors::InsufficientFunds),
    }
}

/// Moves `amount` from the campaign to its owner, never below the reserve
/// floor. The caller is checked first, then the amount, then the balance.
/// The amount donated is a lifetime counter and stays as it is.
pub fn withdraw(ctx: &mut Withdraw, amount: u64) -> (r: Result<(), Errors>)
    ensures
        r == withdraw_check(*old(ctx), amount),
        *final(ctx) == withdraw_step(*old(ctx), amount),
        final(ctx).campaign == old(ctx).campaign,
        final(ctx).campaign_lamports + final(ctx).user_lamports == old(ctx).campaign_lamports
            + old(ctx).user_lamports,
        r is Ok ==> final(ctx).campaign_lamports >= final(ctx).reserve_floor,
{
    if !ctx.campaign.owner.same_as(&ctx.user) {
        return Err(Errors::NotOwner);
    }
    if amount == 0 {
        return Err(Errors::AmountNotPositive);
    }
    let spare = match ctx.campaign_lamports.checked_sub(ctx.reserve_floor) {
        Some(s) => s,
        None => {
            return Err(Errors::InsufficientFunds);
        },
    };
    if spare < amount {
        return Err(Errors::InsufficientFunds);
    }
    match transfer(ctx.campaign_lamports, ctx.user_lamports, amount) {
        Some((from, to)) => {
            ctx.campaign_lamports = from;
            ctx.user_lamports = to;
            Ok(())
        },
        None => Err(Errors::InsufficientFunds),
    }
}

} // verus!
