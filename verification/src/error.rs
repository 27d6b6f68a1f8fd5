//! The failure taxonomy for dispatched calls.
//!
//! Every capability or lookup failure is funnelled into the same terminal
//! value slot that success uses, so a single code path turns table entries
//! into guest-visible outcomes. Only malformed input and recursion are
//! rejected before any state mutation (see [`crate::bridge`]).

use vstd::prelude::*;

verus! {

/// Failures while resolving a call against the application descriptor.
#[derive(Debug)]
pub enum DnaError {
    /// The named zome does not exist; carries a human-readable message.
    ZomeNotFound(String),
    /// The zome exists but the named capability does not; carries a message.
    CapabilityNotFound(String),
}

/// Mathematical model of a [`DnaError`]: the same shape over `Seq<char>`.
pub ghost enum DnaErrorView {
    ZomeNotFound(Seq<char>),
    CapabilityNotFound(Seq<char>),
}

impl View for DnaError {
    type V = DnaErrorView;

    open spec fn view(&self) -> DnaErrorView {
        match self {
            DnaError::ZomeNotFound(m) => DnaErrorView::ZomeNotFound(m@),
            DnaError::CapabilityNotFound(m) => DnaErrorView::CapabilityNotFound(m@),
        }
    }
}

/// The terminal failure kinds recorded in the pending call table.
#[derive(Debug)]
pub enum HolochainError {
    /// No application descriptor is loaded.
    DnaMissing,
    /// A lookup in the application descriptor missed.
    Dna(DnaError),
    /// The capability's membrane denies the caller.
    DoesNotHaveCapabilityToken,
}

/// Mathematical model of a [`HolochainError`].
pub ghost enum HolochainErrorView {
    DnaMissing,
    Dna(DnaErrorView),
    DoesNotHaveCapabilityToken,
}

impl View for HolochainError {
    type V = HolochainErrorView;

    open spec fn view(&self) -> HolochainErrorView {
        match self {
            HolochainError::DnaMissing => HolochainErrorView::DnaMissing,
            HolochainError::Dna(e) => HolochainErrorView::Dna(e@),
            HolochainError::DoesNotHaveCapabilityToken => (
                HolochainErrorView::DoesNotHaveCapabilityToken
            ),
        }
    }
}

impl Clone for DnaError {
    fn clone(&self) -> (c: DnaError)
        ensures
            c@ == self@,
    {
        match self {
            DnaError::ZomeNotFound(m) => DnaError::ZomeNotFound(m.clone()),
            DnaError::CapabilityNotFound(m) => DnaError::CapabilityNotFound(m.clone()),
        }
    }
}

impl Clone for HolochainError {
    fn clone(&self) -> (c: HolochainError)
        ensures
            c@ == self@,
    {
        match self {
            HolochainError::DnaMissing => HolochainError::DnaMissing,
            HolochainError::Dna(e) => HolochainError::Dna(e.clone()),
            HolochainError::DoesNotHaveCapabilityToken => (
                HolochainError::DoesNotHaveCapabilityToken
            ),
        }
    }
}

impl PartialEq for DnaError {
    fn eq(&self, other: &DnaError) -> (r: bool) {
        match (self, other) {
            (DnaError::ZomeNotFound(a), DnaError::ZomeNotFound(b)) => *a == *b,
            (DnaError::CapabilityNotFound(a), DnaError::CapabilityNotFound(b)) => *a == *b,
            _ => false,
        }
    }
}

impl vstd::std_specs::cmp::PartialEqSpecImpl for DnaError {
    open spec fn obeys_eq_spec() -> bool {
        true
    }

    open spec fn eq_spec(&self, other: &DnaError) -> bool {
        self@ == other@
    }
}

impl PartialEq for HolochainError {
    fn eq(&self, other: &HolochainError) -> (r: bool) {
        match (self, other) {
            (HolochainError::DnaMissing, HolochainError::DnaMissing) => true,
            (HolochainError::Dna(a), HolochainError::Dna(b)) => *a == *b,
            (
                HolochainError::DoesNotHaveCapabilityToken,
                HolochainError::DoesNotHaveCapabilityToken,
            ) => true,
            _ => false,
        }
    }
}

impl vstd::std_specs::cmp::PartialEqSpecImpl for HolochainError {
    open spec fn obeys_eq_spec() -> bool {
        true
    }

    open spec fn eq_spec(&self, other: &HolochainError) -> bool {
        self@ == other@
    }
}

/// The message recorded when a zome lookup misses.
pub open spec fn spec_zome_not_found_msg(zome_name: Seq<char>) -> Seq<char> {
    "Zome '"@ + zome_name + "' not found"@
}

/// Build the zome-lookup failure for `zome_name`.
pub fn zome_not_found_error(zome_name: &str) -> (e: HolochainError)
    ensures
        e@ == HolochainErrorView::Dna(
            DnaErrorView::ZomeNotFound(spec_zome_not_found_msg(zome_name@)),
        ),
{
    let msg = String::from_str("Zome '").concat(zome_name).concat("' not found");
    HolochainError::Dna(DnaError::ZomeNotFound(msg))
}

/// The message recorded when a capability lookup misses.
pub open spec fn spec_capability_not_found_msg(cap_name: Seq<char>, zome_name: Seq<char>) -> Seq<
    char,
> {
    "Capability '"@ + cap_name + "' not found in Zome '"@ + zome_name + "'"@
}

/// Build the capability-lookup failure for `cap_name` in `zome_name`.
pub fn capability_not_found_error(cap_name: &str, zome_name: &str) -> (e: HolochainError)
    ensures
        e@ == HolochainErrorView::Dna(
            DnaErrorView::CapabilityNotFound(spec_capability_not_found_msg(cap_name@, zome_name@)),
        ),
{
    let msg = String::from_str("Capability '").concat(cap_name).concat(
        "' not found in Zome '",
    ).concat(zome_name).concat("'");
    HolochainError::Dna(DnaError::CapabilityNotFound(msg))
}

} // verus!
