//! The reducer's three canonical outcomes, observed the way a blocked caller
//! sees them: through an observer sweep delivering over a one-shot channel.

use std::sync::mpsc::{channel, RecvTimeoutError};
use std::time::Duration;

use zome_call::call::ZomeFnCall;
use zome_call::capability::{Capability, Membrane};
use zome_call::dna::{Dna, Zome};
use zome_call::error::{DnaError, HolochainError};
use zome_call::observer::{notify_observers, Observer};
use zome_call::reducer::reduce_call;
use zome_call::state::NucleusState;

fn test_zome_name() -> String {
    "test_zome".to_string()
}

fn test_capability() -> String {
    "test_cap".to_string()
}

fn test_wasm() -> Vec<u8> {
    vec![0x00, 0x61, 0x73, 0x6d]
}

/// An application descriptor with one zome under `zome_name` holding one
/// default (non-public) capability under `cap_name`.
fn create_test_dna_with_wat(zome_name: &str, cap_name: &str) -> Dna {
    create_test_dna_with_cap(zome_name, cap_name, &Capability::new(), &test_wasm())
}

/// An application descriptor with one zome under `zome_name` holding
/// `capability` under `cap_name`, with `wasm` as the zome's code.
fn create_test_dna_with_cap(
    zome_name: &str,
    cap_name: &str,
    capability: &Capability,
    wasm: &[u8],
) -> Dna {
    let zome = Zome {
        capabilities: vec![(cap_name.to_string(), *capability)],
        code: wasm.to_vec(),
    };
    Dna {
        name: "test".to_string(),
        zomes: vec![(zome_name.to_string(), zome)],
    }
}

/// Dispatch the canonical test call against `dna`, sweep the registry once,
/// and wait on the observer's one-shot channel the way the bridge does. No
/// execution context runs here, so a call handed off to execution leaves the
/// channel's sender dropped without a send.
fn test_reduce_call(
    dna: Dna,
    expected: Result<Result<String, HolochainError>, RecvTimeoutError>,
) {
    let zome_call = ZomeFnCall::new(&test_zome_name(), &test_capability(), "test", "{}");
    let observer = Observer { call: zome_call.clone() };

    let mut state = NucleusState::new();
    state.dna = Some(dna);
    let _launch = reduce_call(&mut state, zome_call);

    let (sender, receiver) = channel();
    let (notifications, _remaining) = notify_observers(&state, vec![observer]);
    for notification in notifications {
        sender
            .send(notification.result)
            .expect("observer called after done");
    }
    drop(sender);

    let action_result = receiver.recv_timeout(Duration::from_millis(100));
    assert_eq!(expected, action_result);
}

#[test]
fn test_call_no_token() {
    let dna = create_test_dna_with_wat(&test_zome_name(), &test_capability());
    let expected = Ok(Err(HolochainError::DoesNotHaveCapabilityToken));
    test_reduce_call(dna, expected);
}

#[test]
fn test_call_no_zome() {
    let dna = create_test_dna_with_wat("bad_zome", &test_capability());
    let expected = Ok(Err(HolochainError::Dna(DnaError::ZomeNotFound(
        r#"Zome 'test_zome' not found"#.to_string(),
    ))));
    test_reduce_call(dna, expected);
}

#[test]
fn test_call_ok() {
    let wasm = test_wasm();
    let mut capability = Capability::new();
    capability.cap_type.membrane = Membrane::Public;
    let dna = create_test_dna_with_cap(&test_zome_name(), &test_capability(), &capability, &wasm);

    // Expecting disconnection since no execution context runs the call
    let expected = Err(RecvTimeoutError::Disconnected);
    test_reduce_call(dna, expected);
}
