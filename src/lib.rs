//! Custodial token vault: authorization and accounting core.
//!
//! Every instruction is a pure step over the vault's records. A step that
//! moves funds runs in two phases: `handler` validates, takes the reentrancy
//! lock and hands back the transfer to perform; `settle` runs after the
//! transfer and commits the counters, releases the lock and yields the event.
pub mod errors;
pub mod events;
pub mod state;
pub mod instructions;
pub mod vault;
pub mod laws;
