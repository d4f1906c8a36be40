//! Membership of a permissioned validator set, decided by proposal and vote.
//!
//! Current validators propose that an account joins or leaves the set. Once
//! the votes for a proposal reach the threshold, anyone may resolve it, and
//! the change is written to the validator directory and mirrored into the
//! authority registry that the consensus engine reads. An administrative
//! path makes the same change without a vote.
//!
//! Every operation is atomic: it either commits its whole transition or
//! leaves all state as it was, and its contract says which of the two
//! happens on which input.

pub mod assoc;
pub mod chain_spec;
pub mod directory;
pub mod laws;
pub mod registry;
pub mod tracker;
pub mod types;
pub mod validator_set;
