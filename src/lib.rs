//! A capability-gated account ledger: deterministic slot addresses,
//! authorization checks, overflow-safe value moves, storage slots that are
//! created once and closed with a refund, and the handlers built on them (a
//! vault, a message board, a small social feed and a fortune teller), each
//! with a verified contract. A checked calculator with a history and a few
//! small text and number helpers stand beside them.

pub mod address;
pub mod errors;
pub mod guard;
pub mod transfer;
pub mod ledger;
pub mod vault;
pub mod board;
pub mod twitter;
pub mod calculator;
pub mod basics;
pub mod fortune;
