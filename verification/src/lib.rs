//! Reputation-gated lending.
//!
//! Three services work together. The delegation registry
//! ([`agent_manager`]) records what an owner lets an agent do. The
//! reputation ledger ([`reputation_manager`]) keeps a score between 0 and
//! 100 for each agent. The lending engine ([`lending_demo`]) asks both
//! before it grants a loan, and moves the borrower's score by how the loan
//! is repaid.
//!
//! The services hold their records in memory and take as arguments what
//! only their surroundings know: who authorized the call ([`address::Auth`]),
//! the time, and the balances of the accounts involved. Where value has to
//! move, the engine hands back an order ([`lending_demo::Transfer`]) for the
//! caller to carry out. A refused operation changes nothing.
//!
//! The rules that the services apply ([`tiers`], [`loan`], and the slot-level
//! functions of the registry and the ledger) take plain values, so that a
//! deployment that keeps the records elsewhere can decide by them too.
//! [`laws`] states what follows for any sequence of calls.

pub mod address;
pub mod address_map;
pub mod agent_manager;
pub mod error;
pub mod laws;
pub mod lending_demo;
pub mod loan;
pub mod reputation_manager;
pub mod tiers;
