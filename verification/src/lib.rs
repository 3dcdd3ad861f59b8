//! Zero-knowledge range assertion over a signed attribute.
//!
//! A holder of a signed attribute vector proves, without revealing the
//! attribute, that one of its entries lies strictly between two public
//! bounds, and that the very same value sits behind an independent
//! signature proof of knowledge.  The crate verifies the protocol's
//! decision logic over plain integer representatives of field elements;
//! the elliptic-curve and pairing arithmetic that realises the circuit
//! lives outside the verified core.

pub mod aggregate;
pub mod circuit;
pub mod composition;
pub mod errors;
pub mod prover;
pub mod snark;
pub mod vecs;
