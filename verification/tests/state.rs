use crosschain_intent::{CrossChainError, CrossChainState, initialize};

#[test]
fn initialize_zeroes_the_counter() {
    let gateway = [0x11u8; 32];
    let router = [0x22u8; 20];
    let state = initialize(gateway, router);
    assert_eq!(state.intent_counter, 0);
    assert_eq!(state.gateway, gateway);
    assert_eq!(state.router, router);
}

#[test]
fn peek_does_not_mutate() {
    let state = initialize([0u8; 32], [0u8; 20]);
    assert_eq!(state.peek_counter(), 0);
    assert_eq!(state.peek_counter(), 0);
    assert_eq!(state.intent_counter, 0);
}

#[test]
fn next_counter_reads_then_advances() {
    let mut state = initialize([0u8; 32], [0u8; 20]);
    assert_eq!(state.next_counter(), Ok(0));
    assert_eq!(state.next_counter(), Ok(1));
    assert_eq!(state.next_counter(), Ok(2));
    assert_eq!(state.peek_counter(), 3);
}

#[test]
fn next_counter_fails_at_the_maximum() {
    let mut state = initialize([0u8; 32], [0u8; 20]);
    state.intent_counter = u64::MAX;
    assert_eq!(state.next_counter(), Err(CrossChainError::ArithmeticError));
    assert_eq!(state.intent_counter, u64::MAX);
}
