//! The four operations on a vault: for each, the accounts it is given, the
//! constraints on them, and the handler that carries it out.

pub mod deposit;
pub mod initialize;
pub mod toggle_lock;
pub mod withdraw;

pub use deposit::{Deposit, _deposit};
pub use initialize::{InitializeVault, _init_vault};
pub use toggle_lock::{ToggleLock, _toggle_lock};
pub use withdraw::{Withdraw, _withdraw};
