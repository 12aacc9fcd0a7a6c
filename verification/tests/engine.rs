use crosschain_intent::{
    CrossChainError, CrossChainState, IntentRequest, LOCAL_CHAIN_ID, compute_intent_id,
    default_revert_options, encode_intent_payload, get_next_intent_id, initialize, initiate,
    plan_intent,
};

fn request(amount: u64, target_chain: u64, receiver: Vec<u8>, tip: u64, salt: u64) -> IntentRequest {
    IntentRequest { amount, target_chain, receiver, tip, salt }
}

fn fresh_state() -> CrossChainState {
    initialize([0x33u8; 32], [0x44u8; 20])
}

#[test]
fn end_to_end_submission() {
    // A bridge that has already accepted five intents.
    let mut state = fresh_state();
    state.intent_counter = 5;
    let caller = [0xC1u8; 32];
    let asset = [0xA5u8; 32];
    let req = request(1000, 7, vec![0x01u8; 20], 10, 42);

    let outcome = initiate(&mut state, caller, asset, &req, true, true).unwrap();

    // The ID is derived from the pre-call counter, and the counter advanced.
    assert_eq!(outcome.intent_id, compute_intent_id(5, 42));
    assert_eq!(state.intent_counter, 6);
    assert_eq!(outcome.total, 1010);

    // The payload is byte-exact: hash || amount || tip || chain || len || receiver.
    let mut preimage = Vec::new();
    preimage.extend_from_slice(&5u64.to_le_bytes());
    preimage.extend_from_slice(&42u64.to_le_bytes());
    let mut expected = Vec::new();
    expected.extend_from_slice(&solana_program::hash::hash(&preimage).to_bytes());
    expected.extend_from_slice(&1000u64.to_le_bytes());
    expected.extend_from_slice(&10u64.to_le_bytes());
    expected.extend_from_slice(&7u64.to_le_bytes());
    expected.extend_from_slice(&20u32.to_le_bytes());
    expected.extend_from_slice(&[0x01u8; 20]);
    assert_eq!(outcome.payload, expected);

    // The observable event carries the submission's fields.
    assert_eq!(outcome.event.intent_id, outcome.intent_id);
    assert_eq!(outcome.event.asset, asset);
    assert_eq!(outcome.event.amount, 1000);
    assert_eq!(outcome.event.target_chain, 7);
    assert_eq!(outcome.event.receiver, vec![0x01u8; 20]);
    assert_eq!(outcome.event.tip, 10);
    assert_eq!(outcome.event.salt, 42);

    // The revert policy refunds the caller and nothing more.
    assert_eq!(outcome.revert_options.revert_address, caller);
    assert_eq!(outcome.revert_options.abort_address, [0u8; 32]);
    assert!(!outcome.revert_options.call_on_revert);
    assert!(outcome.revert_options.revert_message.is_empty());
    assert_eq!(outcome.revert_options.on_revert_gas_limit, 0);
}

#[test]
fn self_targeting_is_rejected() {
    let mut state = fresh_state();
    let req = request(1000, LOCAL_CHAIN_ID, vec![1, 2, 3], 10, 0);
    let r = initiate(&mut state, [0u8; 32], [0u8; 32], &req, true, true);
    assert_eq!(r.err(), Some(CrossChainError::InvalidTargetChain));
    assert_eq!(state.intent_counter, 0);
}

#[test]
fn amount_plus_tip_overflow_is_rejected() {
    let mut state = fresh_state();
    let req = request(u64::MAX, 7, vec![1, 2, 3], 1, 0);
    let r = initiate(&mut state, [0u8; 32], [0u8; 32], &req, true, true);
    assert_eq!(r.err(), Some(CrossChainError::ArithmeticError));
    assert_eq!(state.intent_counter, 0);
}

#[test]
fn counter_exhaustion_is_rejected() {
    let mut state = fresh_state();
    state.intent_counter = u64::MAX;
    let req = request(1, 7, vec![], 0, 0);
    let r = initiate(&mut state, [0u8; 32], [0u8; 32], &req, true, true);
    assert_eq!(r.err(), Some(CrossChainError::ArithmeticError));
    assert_eq!(state.intent_counter, u64::MAX);
}

#[test]
fn declined_escrow_aborts_without_advancing() {
    let mut state = fresh_state();
    let req = request(5, 7, vec![9], 1, 3);
    let r = initiate(&mut state, [0u8; 32], [0u8; 32], &req, false, true);
    assert_eq!(r.err(), Some(CrossChainError::EscrowRejected));
    assert_eq!(state.intent_counter, 0);
}

#[test]
fn declined_gateway_aborts_without_advancing() {
    let mut state = fresh_state();
    let req = request(5, 7, vec![9], 1, 3);
    let r = initiate(&mut state, [0u8; 32], [0u8; 32], &req, true, false);
    assert_eq!(r.err(), Some(CrossChainError::GatewayRejected));
    assert_eq!(state.intent_counter, 0);
}

#[test]
fn validation_precedes_capability_answers() {
    // A self-targeting request is rejected as such even when both
    // capabilities would decline.
    let mut state = fresh_state();
    let req = request(5, LOCAL_CHAIN_ID, vec![], 1, 3);
    let r = initiate(&mut state, [0u8; 32], [0u8; 32], &req, false, false);
    assert_eq!(r.err(), Some(CrossChainError::InvalidTargetChain));
}

#[test]
fn successive_submissions_use_successive_counters() {
    let mut state = fresh_state();
    let mut ids = Vec::new();
    for salt in [9u64, 9, 9, 1, 2] {
        let req = request(10, 7, vec![8], 0, salt);
        let outcome = initiate(&mut state, [0u8; 32], [0u8; 32], &req, true, true).unwrap();
        ids.push(outcome.intent_id);
    }
    assert_eq!(state.intent_counter, 5);
    for i in 0..ids.len() {
        for j in 0..ids.len() {
            if i != j {
                assert_ne!(ids[i], ids[j]);
            }
        }
    }
}

#[test]
fn preview_matches_the_next_accepted_id() {
    let mut state = fresh_state();
    state.intent_counter = 11;
    let previewed = get_next_intent_id(&state, 77);
    assert_eq!(state.intent_counter, 11);
    let req = request(1, 7, vec![], 0, 77);
    let outcome = initiate(&mut state, [0u8; 32], [0u8; 32], &req, true, true).unwrap();
    assert_eq!(outcome.intent_id, previewed);
}

#[test]
fn plan_is_read_only_and_exact() {
    let mut state = fresh_state();
    state.intent_counter = 4;
    let req = request(100, 9, vec![0xEE], 11, 13);
    let plan = plan_intent(&state, &req).unwrap();
    assert_eq!(state.intent_counter, 4);
    assert_eq!(plan.old_counter, 4);
    assert_eq!(plan.total, 111);
    assert_eq!(plan.intent_id, compute_intent_id(4, 13));
    assert_eq!(
        plan.payload,
        encode_intent_payload(plan.intent_id, 100, 11, 9, &[0xEE]).unwrap()
    );
}

#[test]
fn default_revert_options_refund_the_caller() {
    let caller = [0x77u8; 32];
    let opts = default_revert_options(caller);
    assert_eq!(opts.revert_address, caller);
    assert_eq!(opts.abort_address, [0u8; 32]);
    assert!(!opts.call_on_revert);
    assert!(opts.revert_message.is_empty());
    assert_eq!(opts.on_revert_gas_limit, 0);
}

#[test]
fn error_descriptions_are_distinct() {
    let kinds = [
        CrossChainError::InvalidTargetChain,
        CrossChainError::ArithmeticError,
        CrossChainError::EncodingOverflow,
        CrossChainError::EscrowRejected,
        CrossChainError::GatewayRejected,
    ];
    for i in 0..kinds.len() {
        for j in 0..kinds.len() {
            if i != j {
                assert_ne!(kinds[i].describe(), kinds[j].describe());
            }
        }
    }
    assert_eq!(
        CrossChainError::InvalidTargetChain.describe(),
        "target chain cannot be the current chain"
    );
}
