//! The configuration of a StackerDB, as its controlling smart contract states it.
//!
//! A StackerDB is a replicated store whose writers, bounds and replicas are set by a smart
//! contract. `load` says what to ask a node for, and in what order; `contract` checks that the
//! contract has the functions that it must have; `slots` and `config` read what they return; `laws`
//! states what each of these gives for what goes in.

pub mod config;
pub mod contract;
pub mod laws;
pub mod load;
pub mod names;
pub mod signature;
pub mod slots;
pub mod text;
pub mod types;
pub mod value;
