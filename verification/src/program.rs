//! The four operations.
//!
//! Each operation is one atomic step: it checks everything first and changes
//! the deployment and the caller's accounts only when nothing stands in the
//! way. A call that fails leaves both exactly as it found them.
//!
//! For every operation a pair of spec functions says what it answers and
//! what it leaves behind; the executable function is proved against them.

use vstd::prelude::*;
use crate::accounts::{BalanceOf, Deposit, Initialize, Signer, Withdraw};
use crate::deployment::{Deployment, DeploymentView};
use crate::error::ErrorCode;
use crate::records::Presale;
use crate::store::{amount_of, credited};

verus! {

/// What `initialize` answers: the ledger is created once.
pub open spec fn initialize_result(d: DeploymentView, ctx: Initialize) -> Result<(), ErrorCode> {
    if d.presale is Some {
        Err(ErrorCode::AlreadyInitialized)
    } else {
        Ok(())
    }
}

/// The deployment after `initialize`: the caller is the administrator of an
/// empty ledger.
pub open spec fn after_initialize(d: DeploymentView, ctx: Initialize) -> DeploymentView {
    if initialize_result(d, ctx) is Ok {
        DeploymentView {
            presale: Some(Presale { admin: ctx.admin.key, total_deposits: 0 }),
            lamports: d.lamports,
            balances: d.balances,
        }
    } else {
        d
    }
}

/// What `deposit` answers.
///
/// The deposit needs a ledger, a depositor who holds the amount, and room
/// for the amount in the ledger's total, in the custody account and in the
/// depositor's record.
pub open spec fn deposit_result(d: DeploymentView, ctx: Deposit, amount: u64) -> Result<
    (),
    ErrorCode,
> {
    match d.presale {
        None => Err(ErrorCode::RecordNotFound),
        Some(presale) => {
            if ctx.user.lamports < amount {
                Err(ErrorCode::InsufficientFunds)
            } else if presale.total_deposits + amount > u64::MAX || d.lamports + amount > u64::MAX
                || amount_of(d.balances, ctx.user.key) + amount > u64::MAX {
                Err(ErrorCode::ArithmeticOverflow)
            } else {
                Ok(())
            }
        },
    }
}

/// The deployment after `deposit`: the amount has gone into the custody
/// account, onto the ledger's total and onto the depositor's record.
pub open spec fn after_deposit(d: DeploymentView, ctx: Deposit, amount: u64) -> DeploymentView {
    match d.presale {
        Some(presale) if deposit_result(d, ctx, amount) is Ok => DeploymentView {
            presale: Some(
                Presale {
                    admin: presale.admin,
                    total_deposits: (presale.total_deposits + amount) as u64,
                },
            ),
            lamports: (d.lamports + amount) as u64,
            balances: credited(d.balances, ctx.user.key, amount),
        },
        _ => d,
    }
}

/// The depositor's accounts after `deposit`: the amount has left the wallet.
pub open spec fn deposit_accounts(d: DeploymentView, ctx: Deposit, amount: u64) -> Deposit {
    if deposit_result(d, ctx, amount) is Ok {
        Deposit { user: Signer { key: ctx.user.key, lamports: (ctx.user.lamports - amount) as u64 } }
    } else {
        ctx
    }
}

/// What `withdraw` answers.
///
/// Only the administrator may sweep; before there is a ledger, nobody is.
/// The administrator's wallet must have room for what the custody account
/// holds.
pub open spec fn withdraw_result(d: DeploymentView, ctx: Withdraw) -> Result<(), ErrorCode> {
    match d.presale {
        Some(presale) if presale.admin == ctx.admin.key => {
            if ctx.admin.lamports + d.lamports > u64::MAX {
                Err(ErrorCode::ArithmeticOverflow)
            } else {
                Ok(())
            }
        },
        _ => Err(ErrorCode::Unauthorized),
    }
}

/// The deployment after `withdraw`: the custody account is empty and the
/// ledger's total is zero. The depositors' records stay as they are: a
/// record counts what its owner has put in over time, not its share of what
/// the custody account holds now.
pub open spec fn after_withdraw(d: DeploymentView, ctx: Withdraw) -> DeploymentView {
    match d.presale {
        Some(presale) if withdraw_result(d, ctx) is Ok => DeploymentView {
            presale: Some(Presale { admin: presale.admin, total_deposits: 0 }),
            lamports: 0,
            balances: d.balances,
        },
        _ => d,
    }
}

/// The caller's accounts after `withdraw`: the administrator has received
/// every lamport that the custody account held.
pub open spec fn withdraw_accounts(d: DeploymentView, ctx: Withdraw) -> Withdraw {
    if withdraw_result(d, ctx) is Ok {
        Withdraw {
            admin: Signer { key: ctx.admin.key, lamports: (ctx.admin.lamports + d.lamports) as u64 },
        }
    } else {
        ctx
    }
}

/// Creates the ledger and makes the caller its administrator.
///
/// Fails with `AlreadyInitialized`, and changes nothing, if the ledger
/// exists. No lamports move.
pub fn initialize(deployment: &mut Deployment, ctx: &Initialize) -> (r: Result<(), ErrorCode>)
    ensures
        r == initialize_result(old(deployment)@, *ctx),
        final(deployment)@ == after_initialize(old(deployment)@, *ctx),
        r is Err ==> final(deployment)@ == old(deployment)@,
{
    if deployment.presale.is_some() {
        return Err(ErrorCode::AlreadyInitialized);
    }
    deployment.presale = Some(Presale { admin: ctx.admin.key, total_deposits: 0 });
    Ok(())
}

/// Moves `amount` lamports from the depositor into the custody account and
/// adds them to the depositor's record, which is made on the first deposit,
/// and to the ledger's total.
///
/// Fails, and changes nothing, with `RecordNotFound` if there is no ledger
/// yet, else with `InsufficientFunds` if the depositor holds less than
/// `amount`, else with `ArithmeticOverflow` if the total, the custody
/// account or the record cannot hold the sum.
///
/// A deposit of zero lamports is accepted like any other: it moves nothing,
/// and it makes the depositor's record, with amount zero, if there is none.
pub fn deposit(deployment: &mut Deployment, ctx: &mut Deposit, amount: u64) -> (r: Result<
    (),
    ErrorCode,
>)
    ensures
        r == deposit_result(old(deployment)@, *old(ctx), amount),
        final(deployment)@ == after_deposit(old(deployment)@, *old(ctx), amount),
        *final(ctx) == deposit_accounts(old(deployment)@, *old(ctx), amount),
        r is Err ==> final(deployment)@ == old(deployment)@ && *final(ctx) == *old(ctx),
{
    let presale = match deployment.presale {
        Some(presale) => presale,
        None => {
            return Err(ErrorCode::RecordNotFound);
        },
    };
    if ctx.user.lamports < amount {
        return Err(ErrorCode::InsufficientFunds);
    }
    let total_deposits = match presale.total_deposits.checked_add(amount) {
        Some(sum) => sum,
        None => {
            return Err(ErrorCode::ArithmeticOverflow);
        },
    };
    let lamports = match deployment.lamports.checked_add(amount) {
        Some(sum) => sum,
        None => {
            return Err(ErrorCode::ArithmeticOverflow);
        },
    };
    match deployment.balances.credit(ctx.user.key, amount) {
        Ok(()) => {},
        Err(e) => {
            return Err(e);
        },
    }
    ctx.user.lamports = ctx.user.lamports - amount;
    deployment.lamports = lamports;
    deployment.presale = Some(Presale { admin: presale.admin, total_deposits });
    Ok(())
}

/// The tracked amount of a depositor; zero for an identity that has never
/// deposited. Never fails and changes nothing.
pub fn balance_of(deployment: &Deployment, ctx: &BalanceOf) -> (r: Result<u64, ErrorCode>)
    ensures
        r == Ok::<u64, ErrorCode>(amount_of(deployment@.balances, ctx.user)),
{
    Ok(deployment.balances.amount_of(&ctx.user))
}

/// Moves every lamport of the custody account to the administrator and sets
/// the ledger's total to zero. The depositors' records are kept.
///
/// Fails, and changes nothing, with `Unauthorized` if the caller is not the
/// administrator, else with `ArithmeticOverflow` if the administrator's
/// wallet cannot hold the sum.
pub fn withdraw(deployment: &mut Deployment, ctx: &mut Withdraw) -> (r: Result<(), ErrorCode>)
    ensures
        r == withdraw_result(old(deployment)@, *old(ctx)),
        final(deployment)@ == after_withdraw(old(deployment)@, *old(ctx)),
        *final(ctx) == withdraw_accounts(old(deployment)@, *old(ctx)),
        r is Err ==> final(deployment)@ == old(deployment)@ && *final(ctx) == *old(ctx),
{
    let presale = match deployment.presale {
        Some(presale) => presale,
        None => {
            return Err(ErrorCode::Unauthorized);
        },
    };
    if presale.admin != ctx.admin.key {
        return Err(ErrorCode::Unauthorized);
    }
    let lamports = match ctx.admin.lamports.checked_add(deployment.lamports) {
        Some(sum) => sum,
        None => {
            return Err(ErrorCode::ArithmeticOverflow);
        },
    };
    ctx.admin.lamports = lamports;
    deployment.lamports = 0;
    deployment.presale = Some(Presale { admin: presale.admin, total_deposits: 0 });
    Ok(())
}

} // verus!
