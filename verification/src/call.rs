//! The call descriptor: the identity of one invocation request.
//!
//! A descriptor names which function is invoked (zome, capability, function)
//! and with which serialized argument payload. It is immutable once built,
//! compared structurally, and used as the pending call table's key and for
//! recursion detection.

use vstd::prelude::*;

verus! {

/// The four-field record a guest hands across the bridge.
#[derive(Debug)]
pub struct ZomeFnCallArgs {
    pub zome_name: String,
    pub cap_name: String,
    pub fn_name: String,
    pub fn_args: String,
}

/// Identity of one invocation: which function, by whom, with which arguments.
#[derive(Debug)]
pub struct ZomeFnCall {
    pub zome_name: String,
    pub cap_name: String,
    pub fn_name: String,
    pub parameters: String,
}

/// Mathematical identity of a call: the four fields as character sequences.
pub ghost struct CallId {
    pub zome_name: Seq<char>,
    pub cap_name: Seq<char>,
    pub fn_name: Seq<char>,
    pub parameters: Seq<char>,
}

impl View for ZomeFnCall {
    type V = CallId;

    open spec fn view(&self) -> CallId {
        CallId {
            zome_name: self.zome_name@,
            cap_name: self.cap_name@,
            fn_name: self.fn_name@,
            parameters: self.parameters@,
        }
    }
}

impl View for ZomeFnCallArgs {
    type V = CallId;

    open spec fn view(&self) -> CallId {
        CallId {
            zome_name: self.zome_name@,
            cap_name: self.cap_name@,
            fn_name: self.fn_name@,
            parameters: self.fn_args@,
        }
    }
}

/// Two descriptors address the same function: equal zome, capability and
/// function names. The argument payload does not take part; this is the
/// identity the recursion guard compares.
pub open spec fn spec_same_fn(a: CallId, b: CallId) -> bool {
    a.zome_name == b.zome_name && a.cap_name == b.cap_name && a.fn_name == b.fn_name
}

impl ZomeFnCall {
    /// Build a descriptor from its four fields.
    pub fn new(zome_name: &str, cap_name: &str, fn_name: &str, parameters: &str) -> (c: ZomeFnCall)
        ensures
            c@ == (CallId {
                zome_name: zome_name@,
                cap_name: cap_name@,
                fn_name: fn_name@,
                parameters: parameters@,
            }),
    {
        ZomeFnCall {
            zome_name: String::from_str(zome_name),
            cap_name: String::from_str(cap_name),
            fn_name: String::from_str(fn_name),
            parameters: String::from_str(parameters),
        }
    }

    /// Build a descriptor from the record the guest handed over.
    pub fn from_args(args: ZomeFnCallArgs) -> (c: ZomeFnCall)
        ensures
            c@ == args@,
    {
        ZomeFnCall {
            zome_name: args.zome_name,
            cap_name: args.cap_name,
            fn_name: args.fn_name,
            parameters: args.fn_args,
        }
    }

    /// Does this descriptor address the same function as `fn_call`?
    pub fn same_fn_as(&self, fn_call: &ZomeFnCall) -> (r: bool)
        ensures
            r == spec_same_fn(self@, fn_call@),
    {
        self.zome_name == fn_call.zome_name && self.cap_name == fn_call.cap_name && self.fn_name
            == fn_call.fn_name
    }
}

impl Clone for ZomeFnCall {
    fn clone(&self) -> (c: ZomeFnCall)
        ensures
            c@ == self@,
    {
        ZomeFnCall {
            zome_name: self.zome_name.clone(),
            cap_name: self.cap_name.clone(),
            fn_name: self.fn_name.clone(),
            parameters: self.parameters.clone(),
        }
    }
}

impl PartialEq for ZomeFnCall {
    fn eq(&self, other: &ZomeFnCall) -> (r: bool) {
        self.zome_name == other.zome_name && self.cap_name == other.cap_name && self.fn_name
            == other.fn_name && self.parameters == other.parameters
    }
}

impl vstd::std_specs::cmp::PartialEqSpecImpl for ZomeFnCall {
    open spec fn obeys_eq_spec() -> bool {
        true
    }

    open spec fn eq_spec(&self, other: &ZomeFnCall) -> bool {
        self@ == other@
    }
}

} // verus!
