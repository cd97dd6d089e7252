//! A governance engine for single-choice proposals that are created, voted on
//! and executed in one call.
//!
//! A proposal is submitted together with a batch of votes that members signed
//! off chain. The engine tallies the batch per signed message hash, turns every
//! verified signature into a ballot, recomputes the proposal's status from its
//! tally, the block and the veto settings, and dispatches the payload once the
//! proposal has passed.
//!
//! The modules go from the leaves up: block-relative time, the vote tally, the
//! threshold policies, the status and veto overlay, the proposal with its
//! ballots, the hook subscribers, the signature resolver and, on top, the
//! module state with its commands and queries.

pub mod time;
pub mod votes;
pub mod threshold;
pub mod status;
pub mod veto;
pub mod error;
pub mod proposal;
pub mod ballot;
pub mod reply;
pub mod msg;
pub mod hooks;
pub mod crypto;
pub mod electorate;
pub mod instant;
pub mod poll;
pub mod state;
pub mod contract;
pub mod propose;
pub mod admin;
pub mod query;
pub mod migrate;
pub mod dispatch;
