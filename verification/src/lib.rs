//! Capability-gated invocation of named functions exposed by a host
//! application to sandboxed guest code.
//!
//! A guest call is identified by a [`call::ZomeFnCall`] descriptor. The
//! bridge in [`bridge`] builds the descriptor from the guest's record and
//! rejects malformed or recursive input before anything is dispatched. The
//! single-writer reducer in [`reducer`] validates an admitted descriptor
//! against the loaded application descriptor ([`dna::Dna`]), records the
//! outcome in the pending call table of [`state`], and, when the
//! capability's membrane ([`capability`]) admits the caller, hands the
//! target function off for execution. The observer registry in [`observer`]
//! turns "poll the table" into "notify the waiting caller" once the terminal
//! value arrives.

pub mod bridge;
pub mod call;
pub mod capability;
pub mod dna;
pub mod error;
pub mod observer;
pub mod reducer;
pub mod state;
