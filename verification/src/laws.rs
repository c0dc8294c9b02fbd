//! What holds of a deployment however it is used.
//!
//! A history is a sequence of operations, each with the accounts its caller
//! brought; `run` plays a history from a given state. The laws below speak
//! of every history, so they hold of every state that a deployment can ever
//! be in.

use vstd::prelude::*;
use crate::accounts::{BalanceOf, Deposit, Initialize, Withdraw};
use crate::deployment::{genesis, DeploymentView};
use crate::error::ErrorCode;
use crate::identity::Identity;
use crate::program::{
    after_deposit,
    after_initialize,
    after_withdraw,
    deposit_accounts,
    deposit_result,
    initialize_result,
    withdraw_accounts,
    withdraw_result,
};
use crate::store::{
    amount_of,
    distinct_owners,
    has_record,
    lemma_credit_keeps_owners_distinct,
    lemma_record_after_credit,
    lemma_total_after_credit,
    total_amount,
};

verus! {

/// One call, with the accounts its caller brought.
pub enum Operation {
    Initialize(Initialize),
    Deposit(Deposit, u64),
    BalanceOf(BalanceOf),
    Withdraw(Withdraw),
}

/// The deployment after one operation, whether it succeeded or not.
pub open spec fn step(d: DeploymentView, op: Operation) -> DeploymentView {
    match op {
        Operation::Initialize(ctx) => after_initialize(d, ctx),
        Operation::Deposit(ctx, amount) => after_deposit(d, ctx, amount),
        Operation::BalanceOf(_) => d,
        Operation::Withdraw(ctx) => after_withdraw(d, ctx),
    }
}

/// The deployment after a history of operations.
pub open spec fn run(d: DeploymentView, ops: Seq<Operation>) -> DeploymentView
    decreases ops.len(),
{
    if ops.len() == 0 {
        d
    } else {
        step(run(d, ops.drop_last()), ops.last())
    }
}

/// The ledger's total: zero while there is no ledger.
pub open spec fn outstanding(d: DeploymentView) -> nat {
    match d.presale {
        Some(presale) => presale.total_deposits as nat,
        None => 0,
    }
}

/// What one operation clears from the ledger's total: the whole total if it
/// is a sweep that succeeds, nothing otherwise.
pub open spec fn cleared(d: DeploymentView, op: Operation) -> nat {
    match op {
        Operation::Withdraw(ctx) if withdraw_result(d, ctx) is Ok => outstanding(d),
        _ => 0,
    }
}

/// What the sweeps of a history have cleared from the ledger's total.
pub open spec fn swept(d: DeploymentView, ops: Seq<Operation>) -> nat
    decreases ops.len(),
{
    if ops.len() == 0 {
        0
    } else {
        swept(d, ops.drop_last()) + cleared(run(d, ops.drop_last()), ops.last())
    }
}

/// The ledger's total is the sum of the depositors' records.
pub open spec fn balanced(d: DeploymentView) -> bool {
    outstanding(d) == total_amount(d.balances)
}

/// The custody account holds at least the ledger's total.
pub open spec fn solvent(d: DeploymentView) -> bool {
    d.lamports >= outstanding(d)
}

/// Every operation of the history is a deposit.
pub open spec fn only_deposits(ops: Seq<Operation>) -> bool {
    forall|i: int| 0 <= i < ops.len() ==> (#[trigger] ops[i]) is Deposit
}

/// One operation adds to the records exactly what it adds to the ledger's
/// total and what it clears from it.
pub proof fn lemma_step_adds_up(d: DeploymentView, op: Operation)
    ensures
        total_amount(step(d, op).balances) + outstanding(d) == total_amount(d.balances)
            + outstanding(step(d, op)) + cleared(d, op),
{
    match op {
        Operation::Deposit(ctx, amount) => {
            if deposit_result(d, ctx, amount) is Ok {
                lemma_total_after_credit(d.balances, ctx.user.key, amount);
            }
        },
        _ => {},
    }
}

/// Over any history, the records grow by what the ledger's total grows and
/// by what sweeps clear from it.
pub proof fn lemma_history_adds_up(d: DeploymentView, ops: Seq<Operation>)
    ensures
        total_amount(run(d, ops).balances) + outstanding(d) == total_amount(d.balances)
            + outstanding(run(d, ops)) + swept(d, ops),
    decreases ops.len(),
{
    if ops.len() > 0 {
        lemma_history_adds_up(d, ops.drop_last());
        lemma_step_adds_up(run(d, ops.drop_last()), ops.last());
    }
}

/// The ledger invariant. In a state reached from a fresh deployment, the
/// ledger's total equals the sum of the depositors' records as long as no
/// sweep has cleared a deposit.
///
/// A sweep sets the total to zero and keeps the records, so from the first
/// sweep that clears something the two differ for good, by what the sweeps
/// have cleared: `lemma_fresh_history_adds_up` gives the difference.
pub proof fn lemma_total_matches_records(reserve: u64, ops: Seq<Operation>)
    requires
        swept(genesis(reserve), ops) == 0,
    ensures
        balanced(run(genesis(reserve), ops)),
{
    lemma_fresh_history_adds_up(reserve, ops);
}

/// In a state reached from a fresh deployment, the depositors' records add
/// up to the ledger's total and what sweeps have cleared from it. The
/// ledger's total therefore equals the sum of the records exactly when no
/// sweep has cleared anything.
pub proof fn lemma_fresh_history_adds_up(reserve: u64, ops: Seq<Operation>)
    ensures
        total_amount(run(genesis(reserve), ops).balances) == outstanding(
            run(genesis(reserve), ops),
        ) + swept(genesis(reserve), ops),
        balanced(run(genesis(reserve), ops)) <==> swept(genesis(reserve), ops) == 0,
{
    lemma_history_adds_up(genesis(reserve), ops);
}

/// The ledger is created once. Whatever the first call to `initialize` met,
/// a second call fails with `AlreadyInitialized` and changes nothing, so
/// the administrator stays who it was.
pub proof fn lemma_initialize_only_once(d: DeploymentView, first: Initialize, second: Initialize)
    ensures
        initialize_result(after_initialize(d, first), second) == Err::<(), ErrorCode>(
            ErrorCode::AlreadyInitialized,
        ),
        after_initialize(after_initialize(d, first), second) == after_initialize(d, first),
{
}

/// Once there is a ledger there always is one, with the same administrator:
/// no history removes it or hands it to someone else, and `initialize`
/// fails from then on.
pub proof fn lemma_administrator_is_permanent(
    d: DeploymentView,
    ops: Seq<Operation>,
    ctx: Initialize,
)
    requires
        d.presale is Some,
    ensures
        run(d, ops).presale is Some,
        run(d, ops).presale->0.admin == d.presale->0.admin,
        initialize_result(run(d, ops), ctx) == Err::<(), ErrorCode>(ErrorCode::AlreadyInitialized),
    decreases ops.len(),
{
    if ops.len() > 0 {
        lemma_administrator_is_permanent(d, ops.drop_last(), ctx);
    }
}

/// No operation takes a record away or lowers its amount.
pub proof fn lemma_step_keeps_records(d: DeploymentView, op: Operation, owner: Identity)
    ensures
        has_record(d.balances, owner) ==> has_record(step(d, op).balances, owner),
        amount_of(step(d, op).balances, owner) >= amount_of(d.balances, owner),
{
    match op {
        Operation::Deposit(ctx, amount) => {
            if deposit_result(d, ctx, amount) is Ok {
                lemma_record_after_credit(d.balances, ctx.user.key, amount, owner);
            }
        },
        _ => {},
    }
}

/// Records are permanent: over any history, a depositor that has a record
/// keeps it, and no tracked amount ever goes down.
pub proof fn lemma_records_are_permanent(d: DeploymentView, ops: Seq<Operation>, owner: Identity)
    ensures
        has_record(d.balances, owner) ==> has_record(run(d, ops).balances, owner),
        amount_of(run(d, ops).balances, owner) >= amount_of(d.balances, owner),
    decreases ops.len(),
{
    if ops.len() > 0 {
        lemma_records_are_permanent(d, ops.drop_last(), owner);
        lemma_step_keeps_records(run(d, ops.drop_last()), ops.last(), owner);
    }
}

/// Deposits are monotonic: over any sequence of deposits, neither a
/// depositor's tracked amount nor the ledger's total goes down.
pub proof fn lemma_deposits_are_monotonic(d: DeploymentView, ops: Seq<Operation>, owner: Identity)
    requires
        only_deposits(ops),
    ensures
        amount_of(run(d, ops).balances, owner) >= amount_of(d.balances, owner),
        outstanding(run(d, ops)) >= outstanding(d),
    decreases ops.len(),
{
    lemma_records_are_permanent(d, ops, owner);
    if ops.len() > 0 {
        assert(ops.last() is Deposit);
        lemma_deposits_are_monotonic(d, ops.drop_last(), owner);
    }
}

/// A sweep that is refused changes nothing: not the custody account, not
/// the ledger, not a single record, and not the caller's wallet.
pub proof fn lemma_refused_withdraw_changes_nothing(d: DeploymentView, ctx: Withdraw)
    requires
        withdraw_result(d, ctx) is Err,
    ensures
        after_withdraw(d, ctx) == d,
        withdraw_accounts(d, ctx) == ctx,
{
}

/// No operation makes or destroys lamports: what a deposit takes from the
/// depositor's wallet enters the custody account, and what a sweep takes
/// from the custody account enters the administrator's wallet.
pub proof fn lemma_lamports_are_conserved(
    d: DeploymentView,
    paying: Deposit,
    amount: u64,
    sweeping: Withdraw,
)
    ensures
        after_deposit(d, paying, amount).lamports + deposit_accounts(d, paying, amount).user.lamports
            == d.lamports + paying.user.lamports,
        after_withdraw(d, sweeping).lamports + withdraw_accounts(d, sweeping).admin.lamports
            == d.lamports + sweeping.admin.lamports,
{
}

/// One operation keeps the custody account covering the ledger's total and
/// gives no depositor a second record.
pub proof fn lemma_step_keeps_sound(d: DeploymentView, op: Operation)
    requires
        solvent(d),
        distinct_owners(d.balances),
    ensures
        solvent(step(d, op)),
        distinct_owners(step(d, op).balances),
{
    match op {
        Operation::Deposit(ctx, amount) => {
            lemma_credit_keeps_owners_distinct(d.balances, ctx.user.key, amount);
        },
        _ => {},
    }
}

/// In every state reached from a fresh deployment, the custody account
/// holds at least the ledger's total, and no depositor has two records.
pub proof fn lemma_fresh_history_is_sound(reserve: u64, ops: Seq<Operation>)
    ensures
        solvent(run(genesis(reserve), ops)),
        distinct_owners(run(genesis(reserve), ops).balances),
    decreases ops.len(),
{
    if ops.len() > 0 {
        lemma_fresh_history_is_sound(reserve, ops.drop_last());
        lemma_step_keeps_sound(run(genesis(reserve), ops.drop_last()), ops.last());
    }
}

} // verus!
