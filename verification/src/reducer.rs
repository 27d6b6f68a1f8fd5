//! The single-writer reducer: one action applied to the nucleus state.
//!
//! Dispatching `Call` validates the descriptor against the loaded
//! application descriptor in order — no application, zome lookup, capability
//! lookup, membrane policy — and short-circuits on the first failure,
//! recording it as the call's terminal value. A call that passes every check
//! is marked pending and handed off as a [`LaunchZomeFnCall`]: the caller of
//! the reducer launches it in an independent execution context and later
//! feeds the outcome back as `ReturnZomeFunctionResult`, which fills the
//! pending slot. A terminal value, once written, is never replaced.

use vstd::prelude::*;

use crate::call::{CallId, ZomeFnCall};
use crate::capability::{membrane_allows, spec_membrane_allows, Capability, Membrane};
use crate::dna::{find_zome, get_capability_with_zome_call, spec_resolve_capability, DnaView};
use crate::error::{HolochainError, HolochainErrorView};
use crate::state::{result_view, table_get, NucleusState, NucleusStateView, ZomeFnResult};

verus! {

/// The terminal value an execution context reports for a dispatched call.
pub struct ExecuteZomeFnResponse {
    pub call: ZomeFnCall,
    pub result: ZomeFnResult,
}

/// A state transition request, applied by the single reducer.
pub enum Action {
    /// Dispatch one invocation identified by the descriptor.
    Call(ZomeFnCall),
    /// Record the terminal value an execution context produced.
    ReturnZomeFunctionResult(ExecuteZomeFnResponse),
}

/// An action as carried on the action channel.
pub struct ActionWrapper {
    pub action: Action,
}

impl ActionWrapper {
    pub fn new(action: Action) -> (w: ActionWrapper)
        ensures
            w.action == action,
    {
        ActionWrapper { action }
    }
}

/// The hand-off the reducer returns for a call that passed every check: the
/// target zome's code, the descriptor, and the application's name. The
/// receiver runs it in an independent execution context; the reducer itself
/// never blocks on it.
pub struct LaunchZomeFnCall {
    pub fn_call: ZomeFnCall,
    pub code: Vec<u8>,
    pub dna_name: String,
}

/// Mathematical model of a [`LaunchZomeFnCall`].
pub ghost struct LaunchZomeFnCallView {
    pub fn_call: CallId,
    pub code: Seq<u8>,
    pub dna_name: Seq<char>,
}

impl View for LaunchZomeFnCall {
    type V = LaunchZomeFnCallView;

    open spec fn view(&self) -> LaunchZomeFnCallView {
        LaunchZomeFnCallView {
            fn_call: self.fn_call@,
            code: self.code@,
            dna_name: self.dna_name@,
        }
    }
}

pub open spec fn spec_launch_view(launch: Option<LaunchZomeFnCall>) -> Option<
    LaunchZomeFnCallView,
> {
    match launch {
        None => None,
        Some(l) => Some(l@),
    }
}

/// The value `Call(c)` records in the table: a terminal failure after the
/// first failed check, or an empty (pending) slot when every check passes.
pub open spec fn spec_call_record(dna: Option<DnaView>, c: CallId) -> Option<
    Result<Seq<char>, HolochainErrorView>,
> {
    match dna {
        None => Some(Err(HolochainErrorView::DnaMissing)),
        Some(d) => match spec_resolve_capability(d, c) {
            Err(e) => Some(Err(e)),
            Ok(cap) => if spec_membrane_allows(cap.cap_type.membrane) {
                None
            } else {
                Some(Err(HolochainErrorView::DoesNotHaveCapabilityToken))
            },
        },
    }
}

/// `Call(c)` hands the call off to execution exactly when its recorded slot
/// is the empty, pending one.
pub open spec fn spec_call_launches(dna: Option<DnaView>, c: CallId) -> bool {
    spec_call_record(dna, c) is None
}

/// How a `Call(c)` transition relates the state before to the state after:
/// the application descriptor is unchanged, `c` now keys the slot the checks
/// decided, and every other key's slot is untouched.
pub open spec fn call_reduced(pre: NucleusStateView, post: NucleusStateView, c: CallId) -> bool {
    &&& post.dna == pre.dna
    &&& table_get(post.zome_calls, c) == Some(spec_call_record(pre.dna, c))
    &&& forall|k: CallId|
        k != c ==> #[trigger] table_get(post.zome_calls, k) == table_get(pre.zome_calls, k)
}

/// What the reducer hands off for `Call(c)`: nothing unless every check
/// passed; otherwise the target zome's code and the application's name.
pub open spec fn launch_matches(
    pre: NucleusStateView,
    c: CallId,
    launch: Option<LaunchZomeFnCallView>,
) -> bool {
    match launch {
        Some(l) => {
            &&& spec_call_launches(pre.dna, c)
            &&& l.fn_call == c
            &&& match pre.dna {
                Some(d) => {
                    &&& l.dna_name == d.name
                    &&& match find_zome(d.zomes, c.zome_name) {
                        Some(z) => l.code == z.code,
                        None => false,
                    }
                },
                None => false,
            }
        },
        None => !spec_call_launches(pre.dna, c),
    }
}

/// How a `ReturnZomeFunctionResult` transition relates the states: the slot
/// under the call's key becomes terminal with the reported value — unless it
/// already was terminal, in which case the table is left exactly as it was
/// (write-once per key). Every other key's slot is untouched.
pub open spec fn result_returned(
    pre: NucleusStateView,
    post: NucleusStateView,
    c: CallId,
    r: Result<Seq<char>, HolochainErrorView>,
) -> bool {
    &&& post.dna == pre.dna
    &&& forall|k: CallId|
        k != c ==> #[trigger] table_get(post.zome_calls, k) == table_get(pre.zome_calls, k)
    &&& match table_get(pre.zome_calls, c) {
        Some(Some(prior)) => post.zome_calls == pre.zome_calls,
        _ => table_get(post.zome_calls, c) == Some(Some(r)),
    }
}

/// Duplicate a code blob byte for byte.
fn clone_bytes(src: &Vec<u8>) -> (r: Vec<u8>)
    ensures
        r@ == src@,
{
    let mut r: Vec<u8> = Vec::new();
    let n = src.len();
    let mut i: usize = 0;
    proof {
        assert(src@.take(0) =~= r@);
    }
    while i < n
        invariant
            i <= n,
            n == src.len(),
            r@ == src@.take(i as int),
        decreases n - i,
    {
        r.push(src[i]);
        proof {
            assert(src@.take(i + 1) =~= src@.take(i as int).push(src@[i as int]));
        }
        i = i + 1;
    }
    proof {
        assert(src@.take(n as int) =~= src@);
    }
    r
}

/// Reduce a `Call` action: run the checks in order, record the outcome, and
/// hand a passing call off for execution.
pub fn reduce_call(state: &mut NucleusState, fn_call: ZomeFnCall) -> (launch: Option<
    LaunchZomeFnCall,
>)
    requires
        old(state).wf(),
    ensures
        final(state).wf(),
        call_reduced(old(state)@, final(state)@, fn_call@),
        launch_matches(old(state)@, fn_call@, spec_launch_view(launch)),
{
    if state.dna.is_none() {
        state.put_zome_call(fn_call, Some(Err(HolochainError::DnaMissing)));
        return None;
    }
    let dna = state.dna.as_ref().unwrap();
    let maybe_cap = get_capability_with_zome_call(dna, &fn_call);
    match maybe_cap {
        Err(e) => {
            state.put_zome_call(fn_call, Some(Err(e)));
            None
        },
        Ok(cap) => {
            if membrane_allows(&cap) {
                let dna = state.dna.as_ref().unwrap();
                let maybe_code = dna.get_wasm_from_zome_name(&fn_call.zome_name);
                proof {
                    assert(find_zome(dna@.zomes, fn_call@.zome_name) is Some);
                }
                let code = clone_bytes(maybe_code.unwrap());
                let dna_name = dna.name.clone();
                let launch_call = fn_call.clone();
                state.put_zome_call(fn_call, None);
                Some(LaunchZomeFnCall { fn_call: launch_call, code, dna_name })
            } else {
                state.put_zome_call(
                    fn_call,
                    Some(Err(HolochainError::DoesNotHaveCapabilityToken)),
                );
                None
            }
        },
    }
}

/// Reduce a `ReturnZomeFunctionResult` action: fill the call's pending slot
/// with the reported terminal value. A slot that is already terminal is left
/// as it is: a terminal value is written at most once.
pub fn reduce_return_zome_function_result(
    state: &mut NucleusState,
    response: ExecuteZomeFnResponse,
)
    requires
        old(state).wf(),
    ensures
        final(state).wf(),
        result_returned(old(state)@, final(state)@, response.call@, result_view(response.result)),
{
    let done = state.zome_call_result(&response.call).is_some();
    if !done {
        state.put_zome_call(response.call, Some(response.result));
    }
}

/// Law: with no application descriptor loaded, every dispatched call is
/// recorded as the terminal failure `DnaMissing` — synchronously, with no
/// hand-off to execution.
pub proof fn lemma_no_dna_records_missing(c: CallId)
    ensures
        spec_call_record(None, c) == Some(Err::<Seq<char>, HolochainErrorView>(
            HolochainErrorView::DnaMissing,
        )),
        !spec_call_launches(None, c),
{
}

/// Law: a call that resolves to a capability whose membrane is `Public` is
/// handed off to execution, and its table slot is the empty, pending one.
pub proof fn lemma_public_capability_dispatches(dna: DnaView, c: CallId, cap: Capability)
    requires
        spec_resolve_capability(dna, c) == Ok::<Capability, HolochainErrorView>(cap),
        cap.cap_type.membrane == Membrane::Public,
    ensures
        spec_call_record(Some(dna), c) is None,
        spec_call_launches(Some(dna), c),
{
}

/// Law: a call that resolves to a capability whose membrane is any class
/// other than `Public` is denied with `DoesNotHaveCapabilityToken`, whoever
/// the caller is, and nothing is handed off to execution.
pub proof fn lemma_non_public_capability_denied(dna: DnaView, c: CallId, cap: Capability)
    requires
        spec_resolve_capability(dna, c) == Ok::<Capability, HolochainErrorView>(cap),
        cap.cap_type.membrane != Membrane::Public,
    ensures
        spec_call_record(Some(dna), c) == Some(Err::<Seq<char>, HolochainErrorView>(
            HolochainErrorView::DoesNotHaveCapabilityToken,
        )),
        !spec_call_launches(Some(dna), c),
{
}

/// Law: one dispatch, one terminal value. A dispatched call that was handed
/// off to execution holds the pending slot; the first reported outcome
/// becomes its terminal value, and a later report leaves that value exactly
/// as it was.
pub proof fn lemma_single_terminal_value(
    s0: NucleusStateView,
    s1: NucleusStateView,
    s2: NucleusStateView,
    s3: NucleusStateView,
    c: CallId,
    r1: Result<Seq<char>, HolochainErrorView>,
    r2: Result<Seq<char>, HolochainErrorView>,
)
    requires
        call_reduced(s0, s1, c),
        spec_call_launches(s0.dna, c),
        result_returned(s1, s2, c, r1),
        result_returned(s2, s3, c, r2),
    ensures
        table_get(s1.zome_calls, c) == Some(None::<Result<Seq<char>, HolochainErrorView>>),
        table_get(s2.zome_calls, c) == Some(Some(r1)),
        table_get(s3.zome_calls, c) == Some(Some(r1)),
{
}

/// Law: a call that fails one of the synchronous checks holds its recorded
/// terminal failure at once, and a stray execution report can never replace
/// it.
pub proof fn lemma_failed_call_keeps_its_record(
    s0: NucleusStateView,
    s1: NucleusStateView,
    s2: NucleusStateView,
    c: CallId,
    r: Result<Seq<char>, HolochainErrorView>,
)
    requires
        call_reduced(s0, s1, c),
        !spec_call_launches(s0.dna, c),
        result_returned(s1, s2, c, r),
    ensures
        table_get(s1.zome_calls, c) == Some(spec_call_record(s0.dna, c)),
        table_get(s2.zome_calls, c) == Some(spec_call_record(s0.dna, c)),
{
}

/// Apply one action to the state: the single place every transition of the
/// pending call table happens.
pub fn reduce(state: &mut NucleusState, action_wrapper: ActionWrapper) -> (launch: Option<
    LaunchZomeFnCall,
>)
    requires
        old(state).wf(),
    ensures
        final(state).wf(),
        action_wrapper.action matches Action::Call(fn_call) ==> call_reduced(
            old(state)@,
            final(state)@,
            fn_call@,
        ) && launch_matches(old(state)@, fn_call@, spec_launch_view(launch)),
        action_wrapper.action matches Action::ReturnZomeFunctionResult(response)
            ==> result_returned(
            old(state)@,
            final(state)@,
            response.call@,
            result_view(response.result),
        ) && launch is None,
{
    match action_wrapper.action {
        Action::Call(fn_call) => reduce_call(state, fn_call),
        Action::ReturnZomeFunctionResult(response) => {
            reduce_return_zome_function_result(state, response);
            None
        },
    }
}

} // verus!
