//! Intent-based order settlement engine.
//!
//! An owner commits a sell/buy intent whose acceptable buy amount decays
//! linearly over an auction window (a Dutch auction); any solver may later
//! settle it against an external venue, subject to a slippage guarantee, and
//! the owner may cancel it. The record of a committed intent is stored at an
//! address derived from the owner and a cryptographic commitment to the
//! intent's canonical byte encoding, so the storage location itself binds the
//! content of the order.

pub mod accounts;
pub mod codec;
pub mod commitment;
pub mod decay;
pub mod error;
pub mod instruction;
pub mod lifecycle;
pub mod order;
pub mod processor;
