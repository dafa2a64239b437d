//! One module per instruction.
pub mod deposit;
pub mod withdraw;
pub mod delegate;
pub mod initialize;
pub mod close;
