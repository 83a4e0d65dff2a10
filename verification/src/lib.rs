//! Dispatch layer for confidential computations that run on an execution
//! cluster.
//!
//! A caller hands in encrypted operands under a correlation identifier; the
//! request goes to the cluster; later one callback brings either the encrypted
//! result or an abort. The modules, leaves first:
//!
//! - [`catalog`]: the closed set of operations with their argument and result
//!   schemas;
//! - [`slot`]: the slot key under which an operation's definition is stored;
//! - [`registry`]: the definitions, one per registered operation;
//! - [`ledger`]: the correlation identifiers in use and their states;
//! - [`dispatcher`]: from operands to the request that is submitted;
//! - [`events`]: the typed records of results;
//! - [`router`]: from a completion event to its one delivery;
//! - [`program`]: the entry points of each operation;
//! - [`circuits`]: what each operation computes, on plain values.
//!
//! The library decides and records; it performs no submission and calls no
//! sink. What it hands back says what is to be done.

pub mod catalog;
pub mod circuits;
pub mod dispatcher;
pub mod events;
pub mod ledger;
pub mod program;
pub mod registry;
pub mod router;
pub mod slot;
