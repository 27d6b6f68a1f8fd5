//! The guest-facing side of call dispatch.
//!
//! The bridge accepts the guest's serialized record (already decoded into
//! [`ZomeFnCallArgs`], or nothing when decoding failed), builds the call
//! descriptor, and applies the recursion guard before anything is dispatched:
//! a descriptor that addresses the very function currently executing in this
//! guest context is rejected at once, with no action dispatched and no table
//! entry created. After completion it translates the terminal value into the
//! guest-visible encoding: the payload on success, a distinguished error code
//! on failure.

use vstd::prelude::*;

use crate::call::{spec_same_fn, CallId, ZomeFnCall, ZomeFnCallArgs};
use crate::error::{HolochainError, HolochainErrorView};
use crate::state::{result_view, ZomeFnResult};

verus! {

/// The distinguished error codes a guest can receive.
#[derive(Clone, Copy, PartialEq, Eq, Structural, Debug)]
pub enum RibosomeErrorCode {
    /// The call payload did not decode into the four-field record.
    ArgumentDeserializationFailed,
    /// The descriptor addresses the function currently executing.
    RecursiveCallForbidden,
    /// No application descriptor was loaded.
    DnaMissing,
    /// The named zome does not exist.
    ZomeNotFound,
    /// The named capability does not exist in its zome.
    CapabilityNotFound,
    /// The capability's membrane denied the call.
    DoesNotHaveCapabilityToken,
}

impl RibosomeErrorCode {
    /// The small-integer encoding handed across the sandbox boundary; zero is
    /// reserved for success.
    pub open spec fn spec_code(self) -> u32 {
        match self {
            RibosomeErrorCode::ArgumentDeserializationFailed => 1,
            RibosomeErrorCode::RecursiveCallForbidden => 2,
            RibosomeErrorCode::DnaMissing => 3,
            RibosomeErrorCode::ZomeNotFound => 4,
            RibosomeErrorCode::CapabilityNotFound => 5,
            RibosomeErrorCode::DoesNotHaveCapabilityToken => 6,
        }
    }

    /// The guest-visible integer for this code.
    pub fn code(&self) -> (c: u32)
        ensures
            c == self.spec_code(),
            c != 0,
    {
        match self {
            RibosomeErrorCode::ArgumentDeserializationFailed => 1,
            RibosomeErrorCode::RecursiveCallForbidden => 2,
            RibosomeErrorCode::DnaMissing => 3,
            RibosomeErrorCode::ZomeNotFound => 4,
            RibosomeErrorCode::CapabilityNotFound => 5,
            RibosomeErrorCode::DoesNotHaveCapabilityToken => 6,
        }
    }
}

/// The code that stands for each terminal failure kind.
pub open spec fn spec_code_for_error(e: HolochainErrorView) -> RibosomeErrorCode {
    match e {
        HolochainErrorView::DnaMissing => RibosomeErrorCode::DnaMissing,
        HolochainErrorView::Dna(inner) => match inner {
            crate::error::DnaErrorView::ZomeNotFound(_) => RibosomeErrorCode::ZomeNotFound,
            crate::error::DnaErrorView::CapabilityNotFound(_) => (
                RibosomeErrorCode::CapabilityNotFound
            ),
        },
        HolochainErrorView::DoesNotHaveCapabilityToken => (
            RibosomeErrorCode::DoesNotHaveCapabilityToken
        ),
    }
}

/// Map a terminal failure to its guest-visible code.
pub fn code_for_error(e: &HolochainError) -> (c: RibosomeErrorCode)
    ensures
        c == spec_code_for_error(e@),
{
    match e {
        HolochainError::DnaMissing => RibosomeErrorCode::DnaMissing,
        HolochainError::Dna(inner) => match inner {
            crate::error::DnaError::ZomeNotFound(_) => RibosomeErrorCode::ZomeNotFound,
            crate::error::DnaError::CapabilityNotFound(_) => RibosomeErrorCode::CapabilityNotFound,
        },
        HolochainError::DoesNotHaveCapabilityToken => (
            RibosomeErrorCode::DoesNotHaveCapabilityToken
        ),
    }
}

/// The bridge's pre-dispatch decision on the decoded guest record: reject
/// undecodable input, reject a recursive call, otherwise admit the
/// descriptor.
pub open spec fn spec_validate_call(current: CallId, input: Option<CallId>) -> Result<
    CallId,
    RibosomeErrorCode,
> {
    match input {
        None => Err(RibosomeErrorCode::ArgumentDeserializationFailed),
        Some(args) => if spec_same_fn(args, current) {
            Err(RibosomeErrorCode::RecursiveCallForbidden)
        } else {
            Ok(args)
        },
    }
}

/// Build and admit the descriptor for one guest call, or reject it before
/// any action is dispatched. `current` is the call executing in this guest
/// context; `input` is the decoded record, or `None` when decoding failed.
/// This touches no state: a rejected call creates no table entry.
pub fn validate_call(current: &ZomeFnCall, input: Option<ZomeFnCallArgs>) -> (r: Result<
    ZomeFnCall,
    RibosomeErrorCode,
>)
    ensures
        match r {
            Ok(c) => input matches Some(args) && spec_validate_call(current@, Some(args@)) == Ok::<
                CallId,
                RibosomeErrorCode,
            >(c@),
            Err(code) => spec_validate_call(
                current@,
                match input {
                    None => None,
                    Some(args) => Some(args@),
                },
            ) == Err::<CallId, RibosomeErrorCode>(code),
        },
{
    match input {
        None => Err(RibosomeErrorCode::ArgumentDeserializationFailed),
        Some(args) => {
            let zome_call = ZomeFnCall::from_args(args);
            if zome_call.same_fn_as(current) {
                Err(RibosomeErrorCode::RecursiveCallForbidden)
            } else {
                Ok(zome_call)
            }
        },
    }
}

/// Translate a call's terminal value into the guest-visible encoding:
/// success carries the payload back, failure carries the distinguished code.
pub fn translate_result(result: &ZomeFnResult) -> (r: Result<String, RibosomeErrorCode>)
    ensures
        match r {
            Ok(payload) => result_view(*result) matches Ok(s) && payload@ == s,
            Err(code) => result_view(*result) matches Err(e) && code == spec_code_for_error(e),
        },
{
    match result {
        Ok(payload) => Ok(payload.clone()),
        Err(e) => Err(code_for_error(e)),
    }
}

/// Law: a descriptor that addresses the same function as the one currently
/// executing is always rejected with `RecursiveCallForbidden`; the bridge
/// dispatches nothing for it, so it can create no table entry.
pub proof fn lemma_recursive_call_rejected(current: CallId, args: CallId)
    requires
        spec_same_fn(args, current),
    ensures
        spec_validate_call(current, Some(args)) == Err::<CallId, RibosomeErrorCode>(
            RibosomeErrorCode::RecursiveCallForbidden,
        ),
{
}

/// Law: a record that did not decode is always rejected with
/// `ArgumentDeserializationFailed`, before any state change.
pub proof fn lemma_undecodable_input_rejected(current: CallId)
    ensures
        spec_validate_call(current, None) == Err::<CallId, RibosomeErrorCode>(
            RibosomeErrorCode::ArgumentDeserializationFailed,
        ),
{
}

} // verus!
