//! Scenario coverage for the dispatch pipeline: the recursion guard, the
//! membrane policy, the write-once pending call table, the observer sweep,
//! and the guest-visible result translation.

use zome_call::bridge::{
    code_for_error, translate_result, validate_call, RibosomeErrorCode,
};
use zome_call::call::{ZomeFnCall, ZomeFnCallArgs};
use zome_call::capability::{membrane_allows, Capability, CapabilityType, Membrane};
use zome_call::dna::{get_capability_with_zome_call, Dna, Zome};
use zome_call::error::{DnaError, HolochainError};
use zome_call::observer::{check_observer, notify_observers, Observer};
use zome_call::reducer::{
    reduce, reduce_call, reduce_return_zome_function_result, Action, ActionWrapper,
    ExecuteZomeFnResponse,
};
use zome_call::state::NucleusState;

fn args(zome: &str, cap: &str, func: &str, payload: &str) -> ZomeFnCallArgs {
    ZomeFnCallArgs {
        zome_name: zome.to_string(),
        cap_name: cap.to_string(),
        fn_name: func.to_string(),
        fn_args: payload.to_string(),
    }
}

fn dna_with_membrane(zome: &str, cap: &str, membrane: Membrane) -> Dna {
    Dna {
        name: "app".to_string(),
        zomes: vec![(
            zome.to_string(),
            Zome {
                capabilities: vec![(
                    cap.to_string(),
                    Capability { cap_type: CapabilityType { membrane } },
                )],
                code: vec![1, 2, 3],
            },
        )],
    }
}

#[test]
fn recursive_call_is_rejected_without_dispatch() {
    let current = ZomeFnCall::new("m", "c", "f", "{\"x\":1}");
    // Same function identity, different argument payload: still recursive.
    let result = validate_call(&current, Some(args("m", "c", "f", "{}")));
    assert_eq!(result, Err(RibosomeErrorCode::RecursiveCallForbidden));
}

#[test]
fn non_recursive_call_is_admitted() {
    let current = ZomeFnCall::new("m", "c", "f", "{}");
    let admitted = validate_call(&current, Some(args("m", "c", "g", "{}")))
        .expect("a different function must be admitted");
    assert_eq!(admitted.fn_name, "g");
    assert!(!admitted.same_fn_as(&current));
}

#[test]
fn undecodable_input_is_rejected() {
    let current = ZomeFnCall::new("m", "c", "f", "{}");
    let result = validate_call(&current, None);
    assert_eq!(result, Err(RibosomeErrorCode::ArgumentDeserializationFailed));
}

#[test]
fn same_fn_as_ignores_arguments() {
    let a = ZomeFnCall::new("m", "c", "f", "{}");
    let b = ZomeFnCall::new("m", "c", "f", "{\"y\":2}");
    let c = ZomeFnCall::new("m", "c", "g", "{}");
    assert!(a.same_fn_as(&b));
    assert!(!a.same_fn_as(&c));
}

#[test]
fn from_args_maps_all_four_fields() {
    let call = ZomeFnCall::from_args(args("m", "c", "f", "{\"k\":true}"));
    assert_eq!(call.zome_name, "m");
    assert_eq!(call.cap_name, "c");
    assert_eq!(call.fn_name, "f");
    assert_eq!(call.parameters, "{\"k\":true}");
}

#[test]
fn no_dna_records_descriptor_missing() {
    let mut state = NucleusState::new();
    let call = ZomeFnCall::new("m", "c", "f", "{}");
    let launch = reduce_call(&mut state, call.clone());
    assert!(launch.is_none());
    let recorded = state.zome_call_result(&call).expect("terminal value owed");
    assert_eq!(*recorded, Err(HolochainError::DnaMissing));
}

#[test]
fn missing_zome_is_a_specific_terminal_failure() {
    // Descriptor {module:"m", cap:"c", fn:"f", args:"{}"} against an
    // application that does not carry module "m".
    let mut state = NucleusState::new();
    state.dna = Some(dna_with_membrane("other", "c", Membrane::Public));
    let call = ZomeFnCall::new("m", "c", "f", "{}");
    let launch = reduce_call(&mut state, call.clone());
    assert!(launch.is_none());
    let recorded = state.zome_call_result(&call).expect("terminal value owed");
    assert_eq!(
        *recorded,
        Err(HolochainError::Dna(DnaError::ZomeNotFound(
            "Zome 'm' not found".to_string(),
        )))
    );
}

#[test]
fn missing_capability_is_a_specific_terminal_failure() {
    let mut state = NucleusState::new();
    state.dna = Some(dna_with_membrane("m", "other", Membrane::Public));
    let call = ZomeFnCall::new("m", "c", "f", "{}");
    assert!(reduce_call(&mut state, call.clone()).is_none());
    let recorded = state.zome_call_result(&call).expect("terminal value owed");
    assert_eq!(
        *recorded,
        Err(HolochainError::Dna(DnaError::CapabilityNotFound(
            "Capability 'c' not found in Zome 'm'".to_string(),
        )))
    );
}

#[test]
fn public_membrane_dispatches_to_execution() {
    let mut state = NucleusState::new();
    state.dna = Some(dna_with_membrane("m", "c", Membrane::Public));
    let call = ZomeFnCall::new("m", "c", "f", "{}");
    let launch = reduce_call(&mut state, call.clone()).expect("public call must launch");
    assert_eq!(launch.code, vec![1, 2, 3]);
    assert_eq!(launch.dna_name, "app");
    assert!(launch.fn_call.same_fn_as(&call));
    // Table transitioned empty -> pending: an entry exists, no terminal value.
    assert_eq!(state.zome_calls.len(), 1);
    assert!(state.zome_call_result(&call).is_none());
}

#[test]
fn non_public_membranes_always_deny() {
    for membrane in [Membrane::Zome, Membrane::Agent, Membrane::ApiKey] {
        let cap = Capability { cap_type: CapabilityType { membrane } };
        assert!(!membrane_allows(&cap));

        let mut state = NucleusState::new();
        state.dna = Some(dna_with_membrane("m", "c", membrane));
        let call = ZomeFnCall::new("m", "c", "f", "{}");
        assert!(reduce_call(&mut state, call.clone()).is_none());
        let recorded = state.zome_call_result(&call).expect("terminal value owed");
        assert_eq!(*recorded, Err(HolochainError::DoesNotHaveCapabilityToken));
    }
    let public = Capability { cap_type: CapabilityType { membrane: Membrane::Public } };
    assert!(membrane_allows(&public));
}

#[test]
fn default_capability_membrane_denies() {
    let cap = Capability::new();
    assert_eq!(cap.cap_type.membrane, Membrane::Agent);
    assert!(!membrane_allows(&cap));
}

#[test]
fn resolution_is_idempotent() {
    let dna = dna_with_membrane("m", "c", Membrane::Public);
    let call = ZomeFnCall::new("m", "c", "f", "{}");
    let first = get_capability_with_zome_call(&dna, &call);
    let second = get_capability_with_zome_call(&dna, &call);
    assert_eq!(first, second);
    let cap = first.expect("capability owed");
    assert_eq!(cap.cap_type.membrane, Membrane::Public);
}

#[test]
fn one_dispatch_yields_exactly_one_entry() {
    let mut state = NucleusState::new();
    let call = ZomeFnCall::new("m", "c", "f", "{}");
    reduce_call(&mut state, call.clone());
    assert_eq!(state.zome_calls.len(), 1);
    // A second dispatch of the very same descriptor overwrites the slot; it
    // never yields a second entry for the same key.
    reduce_call(&mut state, call.clone());
    assert_eq!(state.zome_calls.len(), 1);
}

#[test]
fn terminal_value_is_written_once() {
    let mut state = NucleusState::new();
    state.dna = Some(dna_with_membrane("m", "c", Membrane::Public));
    let call = ZomeFnCall::new("m", "c", "f", "{}");
    reduce_call(&mut state, call.clone());
    assert!(state.zome_call_result(&call).is_none());

    reduce_return_zome_function_result(
        &mut state,
        ExecuteZomeFnResponse { call: call.clone(), result: Ok("first".to_string()) },
    );
    assert_eq!(*state.zome_call_result(&call).expect("filled"), Ok("first".to_string()));

    // A later report must not replace the terminal value.
    reduce_return_zome_function_result(
        &mut state,
        ExecuteZomeFnResponse { call: call.clone(), result: Ok("second".to_string()) },
    );
    assert_eq!(*state.zome_call_result(&call).expect("still filled"), Ok("first".to_string()));
}

#[test]
fn observer_sweep_delivers_and_keeps_in_order() {
    let mut state = NucleusState::new();
    let done = ZomeFnCall::new("m", "c", "f", "{}");
    let waiting = ZomeFnCall::new("m", "c", "g", "{}");
    reduce_call(&mut state, done.clone()); // no application: terminal at once

    let observers = vec![Observer { call: waiting.clone() }, Observer { call: done.clone() }];
    assert!(check_observer(&state, &observers[1]).is_some());
    assert!(check_observer(&state, &observers[0]).is_none());

    let (notifications, remaining) = notify_observers(&state, observers);
    assert_eq!(notifications.len(), 1);
    assert!(notifications[0].call.same_fn_as(&done));
    assert_eq!(notifications[0].result, Err(HolochainError::DnaMissing));
    assert_eq!(remaining.len(), 1);
    assert!(remaining[0].call.same_fn_as(&waiting));
}

#[test]
fn reduce_dispatches_on_the_action_variant() {
    let mut state = NucleusState::new();
    state.dna = Some(dna_with_membrane("m", "c", Membrane::Public));
    let call = ZomeFnCall::new("m", "c", "f", "{}");

    let wrapper = ActionWrapper::new(Action::Call(call.clone()));
    let launch = reduce(&mut state, wrapper).expect("public call must launch");
    assert_eq!(launch.dna_name, "app");

    let response = ExecuteZomeFnResponse { call: call.clone(), result: Ok("{}".to_string()) };
    let wrapper = ActionWrapper::new(Action::ReturnZomeFunctionResult(response));
    assert!(reduce(&mut state, wrapper).is_none());
    assert_eq!(*state.zome_call_result(&call).expect("filled"), Ok("{}".to_string()));
}

#[test]
fn error_codes_are_distinct_and_nonzero() {
    let codes = [
        RibosomeErrorCode::ArgumentDeserializationFailed,
        RibosomeErrorCode::RecursiveCallForbidden,
        RibosomeErrorCode::DnaMissing,
        RibosomeErrorCode::ZomeNotFound,
        RibosomeErrorCode::CapabilityNotFound,
        RibosomeErrorCode::DoesNotHaveCapabilityToken,
    ];
    for (i, a) in codes.iter().enumerate() {
        assert_ne!(a.code(), 0);
        for b in codes.iter().skip(i + 1) {
            assert_ne!(a.code(), b.code());
        }
    }
}

#[test]
fn every_failure_kind_has_its_own_code() {
    assert_eq!(code_for_error(&HolochainError::DnaMissing), RibosomeErrorCode::DnaMissing);
    assert_eq!(
        code_for_error(&HolochainError::Dna(DnaError::ZomeNotFound("m".to_string()))),
        RibosomeErrorCode::ZomeNotFound
    );
    assert_eq!(
        code_for_error(&HolochainError::Dna(DnaError::CapabilityNotFound("c".to_string()))),
        RibosomeErrorCode::CapabilityNotFound
    );
    assert_eq!(
        code_for_error(&HolochainError::DoesNotHaveCapabilityToken),
        RibosomeErrorCode::DoesNotHaveCapabilityToken
    );
}

#[test]
fn translate_result_returns_payload_or_code() {
    let ok = translate_result(&Ok("{\"v\":7}".to_string()));
    assert_eq!(ok, Ok("{\"v\":7}".to_string()));
    let err = translate_result(&Err(HolochainError::DoesNotHaveCapabilityToken));
    assert_eq!(err, Err(RibosomeErrorCode::DoesNotHaveCapabilityToken));
}

#[test]
fn get_wasm_locates_the_zome_code() {
    let dna = dna_with_membrane("m", "c", Membrane::Public);
    let name = "m".to_string();
    assert_eq!(dna.get_wasm_from_zome_name(&name), Some(&vec![1, 2, 3]));
    let absent = "missing".to_string();
    assert_eq!(dna.get_wasm_from_zome_name(&absent), None);
}
