//! An access-controlled shared counter.
//!
//! A counter holds one unsigned 64-bit value that saturates at both ends.
//! The controlled variant lets a principal raise the value only while an
//! authorization registry grants that principal the counter role, and has
//! the role revoked as soon as a raise would carry the value past the
//! threshold.

pub mod address;
pub mod contract;
pub mod cross_contract;
pub mod error;
pub mod host;
pub mod laws;
pub mod protocol;
pub mod registry;
