//! What a caller brings to each operation.
//!
//! The host has already checked that the signer of a call controls the key
//! it names, and hands over the signer's spendable balance. An operation
//! that moves lamports writes the signer's new balance back into the same
//! value.

use vstd::prelude::*;
use crate::identity::Identity;

verus! {

/// An authenticated caller and the lamports it can spend.
#[derive(Clone, Copy, Debug, PartialEq, Eq)]
pub struct Signer {
    pub key: Identity,
    pub lamports: u64,
}

/// The accounts of `initialize`: whoever calls becomes the administrator.
#[derive(Clone, Copy, Debug, PartialEq, Eq)]
pub struct Initialize {
    pub admin: Signer,
}

/// The accounts of `deposit`: the depositor, who pays.
#[derive(Clone, Copy, Debug, PartialEq, Eq)]
pub struct Deposit {
    pub user: Signer,
}

/// The accounts of `balance_of`: the depositor asked about. Anyone may ask.
#[derive(Clone, Copy, Debug, PartialEq, Eq)]
pub struct BalanceOf {
    pub user: Identity,
}

/// The accounts of `withdraw`: the caller, who receives the sweep if it is
/// the administrator.
#[derive(Clone, Copy, Debug, PartialEq, Eq)]
pub struct Withdraw {
    pub admin: Signer,
}

} // verus!
