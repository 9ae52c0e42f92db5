//! A custodial vault for one user, held in an account that only the program
//! can spend from: address derivation, the persisted bump record, and the
//! initialize, deposit, withdraw and close operations on the accounts that
//! an instruction names.

pub mod identity;
pub mod error;
pub mod derivation;
pub mod state;
pub mod validation;
pub mod payment;
pub mod initialize;
pub mod close;
pub mod program;
pub mod laws;
