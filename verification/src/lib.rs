//! An on-chain data oracle with a cross-chain relay.
//!
//! The crate holds the consensus-side rules of the oracle as plain state
//! transitions: the ledger of requested data, the off-chain worker's plan
//! for one tick, the classification of an HTTP exchange, and the two hops
//! of the relay between sibling parachains. Whatever touches the outside
//! world (storage, HTTP, the keystore, the message transport) is performed
//! by the caller, which hands the outcome back as a plain value.

pub mod origin;
pub mod event;
pub mod pallet;
pub mod fetch;
pub mod call;
pub mod relay;
pub mod worker;
pub mod dispatch;
pub mod laws;
