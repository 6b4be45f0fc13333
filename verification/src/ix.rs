//! Instruction handlers of the nest-core program, as state transitions over
//! the accounts they read and write. Token transfers, mints and burns, and
//! cross-program calls, are performed by the caller around them.

pub mod admin;
pub mod setup;
pub mod cdp;
pub mod psm;
pub mod revenue;
pub mod kamino;
pub mod liquidation;
pub mod oracle;
