//! A two-party state handoff protocol.
//!
//! A source contract irrevocably hands control and a snapshot of its data to a
//! target contract.  The source's owner requests the migration; the source
//! freezes itself and pushes a one-time secret to the target over the
//! authenticated message channel; the target's owner then pulls the exported
//! data by presenting that secret on the source's otherwise unauthenticated
//! query path.
//!
//! The modules hold the pure protocol logic: state records, transition
//! functions and their contracts.  Loading and saving the records, wire
//! encoding and the actual cross-contract calls are host concerns and live
//! outside this crate.

pub mod error;
pub mod first_contract;
pub mod first_export;
pub mod protocol;
pub mod second_contract;
