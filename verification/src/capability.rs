//! Capabilities and the membrane policy.
//!
//! A capability classifies who may invoke the functions it guards. The
//! classification is its membrane: `Public` admits every caller; the three
//! remaining classes are recognised but not yet enforced, and deny every
//! caller (a documented placeholder policy, pending real grant checks).

use vstd::prelude::*;

verus! {

/// Who may invoke a capability.
#[derive(Clone, Copy, PartialEq, Eq, Structural, Debug)]
pub enum Membrane {
    /// Anyone may call.
    Public,
    /// Caller must belong to the same zome. Not yet enforced: always denies.
    Zome,
    /// Caller must hold an agent-level grant. Not yet enforced: always denies.
    Agent,
    /// Caller must present an API-key grant. Not yet enforced: always denies.
    ApiKey,
}

/// The classification attached to one capability.
#[derive(Clone, Copy, PartialEq, Eq, Structural, Debug)]
pub struct CapabilityType {
    pub membrane: Membrane,
}

/// A named grant exposed by a zome: exactly one membrane classification.
#[derive(Clone, Copy, PartialEq, Eq, Structural, Debug)]
pub struct Capability {
    pub cap_type: CapabilityType,
}

impl Capability {
    /// A fresh capability; its membrane defaults to the agent class, which
    /// the current policy denies, so a capability admits callers only after
    /// it is made `Public` on purpose.
    pub fn new() -> (c: Capability)
        ensures
            c.cap_type.membrane == Membrane::Agent,
    {
        Capability { cap_type: CapabilityType { membrane: Membrane::Agent } }
    }
}

/// The membrane policy: may a call cross this membrane?
///
/// Only `Public` admits; the unenforced classes deny every caller.
pub open spec fn spec_membrane_allows(m: Membrane) -> bool {
    m == Membrane::Public
}

/// Decide the membrane policy for one capability.
pub fn membrane_allows(cap: &Capability) -> (allowed: bool)
    ensures
        allowed == spec_membrane_allows(cap.cap_type.membrane),
{
    match cap.cap_type.membrane {
        Membrane::Public => true,
        Membrane::Zome => false,
        Membrane::Agent => false,
        Membrane::ApiKey => false,
    }
}

/// The membrane decision is a pure function of the membrane alone: every
/// class other than `Public` is denied, whoever the caller is.
pub proof fn lemma_non_public_always_denied(m: Membrane)
    requires
        m != Membrane::Public,
    ensures
        !spec_membrane_allows(m),
{
}

} // verus!
