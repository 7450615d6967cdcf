//! Proof-of-existence registries: a store for one optional number, a
//! registry of claims (byte strings) owned by accounts, and a market in
//! which owned claims carry a price and can be bought.
//!
//! Every dispatchable call is a verified function from the registry's
//! state, the caller's origin and the call's arguments to the next state
//! and the call's result. What the chain supplies (the current block
//! number, the outcome of an account lookup or of a currency transfer)
//! is handed in as an argument.

pub mod dispatch;
pub mod table;
pub mod something;
pub mod proofs;
pub mod market;
