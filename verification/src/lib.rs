//! Construction of fee-acceleration transaction packages.
//!
//! Given a spendable output and a fee schedule, the builders in this crate
//! assemble the unsigned transaction drafts of one of three fixed topologies:
//! a replacement pair, a parent with a fee-paying child, or a transaction
//! carrying an anyone-can-spend anchor together with the draft that spends
//! it. A tracker classifies what later becomes of the drafts.

pub mod amount;
pub mod anchor;
pub mod builder;
pub mod draft;
pub mod error;
pub mod package;
pub mod sequence;
pub mod tracker;
pub mod wire;
