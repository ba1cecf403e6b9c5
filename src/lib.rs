//! Escrow and reputation engine for multi-party agreements.
//!
//! Parties anchor a [`contract::Contract`], fund deliverables as
//! [`escrow::EscrowMilestone`]s held in custody, release them on multi-party
//! approval, and accumulate vendor-side and client-side reputation in
//! [`reputation::UserReputation`] records.
//!
//! Every operation validates its preconditions against the records it is
//! handed and then applies all of its mutations, or returns an [`error::ErrorCode`]
//! and leaves every record and balance untouched.
pub mod contract;
pub mod error;
pub mod escrow;
pub mod identity;
pub mod laws;
pub mod reputation;
