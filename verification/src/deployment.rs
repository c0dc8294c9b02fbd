//! The state of one deployment.

use vstd::prelude::*;
use crate::records::Presale;
use crate::store::{BalanceStore, Entry};

verus! {

/// Everything one deployment holds.
#[derive(Clone, Debug, PartialEq, Eq)]
pub struct Deployment {
    /// The ledger; `None` until `initialize` has created it.
    pub presale: Option<Presale>,
    /// The lamports in the custody account: the outstanding deposits and
    /// whatever reserve the account holds besides.
    pub lamports: u64,
    /// The depositors' records.
    pub balances: BalanceStore,
}

/// A deployment as the contracts see it.
pub struct DeploymentView {
    pub presale: Option<Presale>,
    pub lamports: u64,
    pub balances: Seq<Entry>,
}

impl View for Deployment {
    type V = DeploymentView;

    open spec fn view(&self) -> DeploymentView {
        DeploymentView { presale: self.presale, lamports: self.lamports, balances: self.balances@ }
    }
}

/// A deployment on which nothing has happened yet: no ledger, no records,
/// and `reserve` lamports in the custody account.
pub open spec fn genesis(reserve: u64) -> DeploymentView {
    DeploymentView { presale: None, lamports: reserve, balances: Seq::empty() }
}

impl Deployment {
    /// A fresh deployment whose custody account holds `reserve` lamports.
    pub fn new(reserve: u64) -> (deployment: Deployment)
        ensures
            deployment@ == genesis(reserve),
    {
        Deployment { presale: None, lamports: reserve, balances: BalanceStore::new() }
    }
}

} // verus!
