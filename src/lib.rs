//! A bonding-curve token launcher: a constant-product pricing engine with a
//! virtual reserve, the lifecycle of each curve (open, pending, closed), the
//! migration of its reserves to a liquidity pool, and the factory that
//! creates curves and keeps an indexed registry of them.
//!
//! Every operation is a function from the stored state and the facts read
//! from the chain (balances, the sender, the funds sent) to the new state and
//! the messages to dispatch. The host glue that loads state, queries balances
//! and turns actions into chain messages lives outside this crate.
pub mod math;
pub mod types;
pub mod curve;
pub mod registry;
pub mod factory;
pub mod laws;
