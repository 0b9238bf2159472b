//! Gas-sponsorship ledger for a stable-asset paymaster: per-account
//! balances, price conversion with surcharge, and the two-phase
//! reserve-then-settle authorization protocol.

pub mod address;
pub mod error;
pub mod gate;
pub mod laws;
pub mod ledger;
pub mod paymaster;
pub mod price;
pub mod state;
pub mod uint;
