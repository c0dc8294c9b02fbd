//! A custodial presale ledger: depositors lock lamports into a shared custody
//! account, one administrator may sweep that account, and every depositor's
//! contribution is tracked in a record of its own.

pub mod accounts;
pub mod deployment;
pub mod error;
pub mod identity;
pub mod laws;
pub mod program;
pub mod records;
pub mod store;

pub use accounts::{BalanceOf, Deposit, Initialize, Signer, Withdraw};
pub use deployment::{Deployment, DeploymentView};
pub use error::ErrorCode;
pub use identity::Identity;
pub use program::{balance_of, deposit, initialize, withdraw};
pub use records::{Presale, UserBalance};
pub use store::{BalanceStore, Entry};
