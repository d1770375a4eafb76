//! Verified core of a trade-event recorder for a ledger runtime.
//!
//! The recorder validates that the caller is an authorized signer, builds a typed
//! trade record verbatim from the instruction arguments, and appends its
//! wire encoding to an append-only event log together with a diagnostic
//! trace entry. The wire format (a fixed schema tag, length-prefixed UTF-8
//! text fields, a closed discriminant, little-endian integers) is specified
//! and proved invertible, so an off-chain consumer reading the log recovers
//! every field exactly.

pub mod codec;
pub mod recorder;
pub mod text;
pub mod trade;
