use vstd::prelude::*;
use crate::codec::compute_intent_id;
use crate::codec::encode_intent_payload;
use crate::codec::spec_encode_payload;
use crate::codec::spec_intent_id;
use crate::errors::CrossChainError;
use crate::state::CrossChainState;

verus! {

/// Identifier of the chain this bridge instance runs on. A bridge must not
/// route an intent back to its own chain.
pub const LOCAL_CHAIN_ID: u64 = 1;

/// A caller-supplied transfer request, ephemeral and never persisted.
pub struct IntentRequest {
    /// Principal to transfer; escrowed together with the tip.
    pub amount: u64,
    /// Identifier of the destination chain.
    pub target_chain: u64,
    /// Destination address on the target chain, opaque to this layer.
    pub receiver: Vec<u8>,
    /// Additional amount paid to the relay executor.
    pub tip: u64,
    /// Caller-chosen nonce that enters the intent-ID derivation.
    pub salt: u64,
}

/// What the escrow and gateway should do if delivery fails downstream.
/// Constructed by the engine from the caller's identity and passed opaquely
/// to the gateway; never interpreted locally.
pub struct RevertOptions {
    pub revert_address: [u8; 32],
    pub abort_address: [u8; 32],
    pub call_on_revert: bool,
    pub revert_message: Vec<u8>,
    pub on_revert_gas_limit: u64,
}

/// The externally observable record surfaced after an accepted intent.
pub struct IntentInitiated {
    pub intent_id: [u8; 32],
    pub asset: [u8; 32],
    pub amount: u64,
    pub target_chain: u64,
    pub receiver: Vec<u8>,
    pub tip: u64,
    pub salt: u64,
}

/// Everything the engine computes for one submission before the external
/// capabilities are consulted: the counter value the ID is derived from, the
/// total to escrow, the intent ID, and the wire payload.
pub struct IntentPlan {
    pub old_counter: u64,
    pub total: u64,
    pub intent_id: [u8; 32],
    pub payload: Vec<u8>,
}

/// What an accepted submission hands back to the caller and the substrate.
pub struct IntentOutcome {
    pub intent_id: [u8; 32],
    pub payload: Vec<u8>,
    pub total: u64,
    pub revert_options: RevertOptions,
    pub event: IntentInitiated,
}

/// An all-zero 32-byte identity, the default abort address.
pub open spec fn spec_zero_address() -> Seq<u8> {
    Seq::new(32, |i: int| 0u8)
}

/// The first reason, if any, the engine rejects a request before consulting
/// the external capabilities, in validation order: self-targeting, then
/// amount arithmetic, then counter exhaustion, then receiver encodability.
pub open spec fn spec_plan_error(state: CrossChainState, req: IntentRequest) -> Option<
    CrossChainError,
> {
    if req.target_chain == LOCAL_CHAIN_ID {
        Some(CrossChainError::InvalidTargetChain)
    } else if req.amount + req.tip > u64::MAX {
        Some(CrossChainError::ArithmeticError)
    } else if state.intent_counter == u64::MAX {
        Some(CrossChainError::ArithmeticError)
    } else if req.receiver@.len() > u32::MAX {
        Some(CrossChainError::EncodingOverflow)
    } else {
        None
    }
}

/// The first reason, if any, a whole submission fails: a validation error,
/// else a declined escrow, else a declined gateway dispatch.
pub open spec fn spec_submit_error(
    state: CrossChainState,
    req: IntentRequest,
    escrow_accepted: bool,
    gateway_accepted: bool,
) -> Option<CrossChainError> {
    match spec_plan_error(state, req) {
        Some(e) => Some(e),
        None => if !escrow_accepted {
            Some(CrossChainError::EscrowRejected)
        } else if !gateway_accepted {
            Some(CrossChainError::GatewayRejected)
        } else {
            None
        },
    }
}

/// Validates a request against the current state and computes everything an
/// accepted submission needs: the escrow total, the intent ID derived from
/// the current counter, and the wire payload. Read-only; the caller escrows
/// `total` and dispatches `payload` before committing the counter advance.
pub fn plan_intent(state: &CrossChainState, req: &IntentRequest) -> (r: Result<
    IntentPlan,
    CrossChainError,
>)
    ensures
        match r {
            Ok(plan) => {
                &&& spec_plan_error(*state, *req) is None
                &&& plan.old_counter == state.intent_counter
                &&& plan.total == req.amount + req.tip
                &&& plan.intent_id@ == spec_intent_id(state.intent_counter, req.salt)
                &&& plan.payload@ == spec_encode_payload(
                    plan.intent_id@,
                    req.amount,
                    req.tip,
                    req.target_chain,
                    req.receiver@,
                )
            },
            Err(e) => spec_plan_error(*state, *req) == Some(e),
        },
{
    if req.target_chain == LOCAL_CHAIN_ID {
        return Err(CrossChainError::InvalidTargetChain);
    }
    if req.amount > u64::MAX - req.tip {
        return Err(CrossChainError::ArithmeticError);
    }
    let total = req.amount + req.tip;
    if state.intent_counter == u64::MAX {
        return Err(CrossChainError::ArithmeticError);
    }
    let intent_id = compute_intent_id(state.peek_counter(), req.salt);
    match encode_intent_payload(intent_id, req.amount, req.tip, req.target_chain, req.receiver.as_slice()) {
        Ok(payload) => Ok(
            IntentPlan { old_counter: state.peek_counter(), total, intent_id, payload },
        ),
        Err(e) => Err(e),
    }
}

/// The engine's default revert policy: refund to the caller, no abort
/// address, no revert call, empty message, zero gas budget.
pub fn default_revert_options(caller: [u8; 32]) -> (r: RevertOptions)
    ensures
        r.revert_address == caller,
        r.abort_address@ == spec_zero_address(),
        r.call_on_revert == false,
        r.revert_message@ == Seq::<u8>::empty(),
        r.on_revert_gas_limit == 0,
{
    let abort_address: [u8; 32] = [0u8; 32];
    proof {
        assert(abort_address@ =~= spec_zero_address());
    }
    RevertOptions {
        revert_address: caller,
        abort_address,
        call_on_revert: false,
        revert_message: Vec::new(),
        on_revert_gas_limit: 0,
    }
}

/// Submits one intent as a single atomic unit. The request is validated, the
/// total and payload are computed, and the answers of the two external
/// capabilities — the ledger escrow and the gateway dispatch — decide
/// acceptance. On acceptance the counter advances by exactly one and the
/// caller receives the ID, the payload, the revert policy and the observable
/// event; on any failure the state is exactly as it was.
pub fn initiate(
    state: &mut CrossChainState,
    caller: [u8; 32],
    asset: [u8; 32],
    req: &IntentRequest,
    escrow_accepted: bool,
    gateway_accepted: bool,
) -> (r: Result<IntentOutcome, CrossChainError>)
    ensures
        match r {
            Ok(outcome) => {
                &&& spec_submit_error(*old(state), *req, escrow_accepted, gateway_accepted)
                    is None
                &&& final(state).intent_counter == old(state).intent_counter + 1
                &&& final(state).gateway == old(state).gateway
                &&& final(state).router == old(state).router
                &&& outcome.intent_id@ == spec_intent_id(old(state).intent_counter, req.salt)
                &&& outcome.total == req.amount + req.tip
                &&& outcome.payload@ == spec_encode_payload(
                    outcome.intent_id@,
                    req.amount,
                    req.tip,
                    req.target_chain,
                    req.receiver@,
                )
                &&& outcome.revert_options.revert_address == caller
                &&& outcome.revert_options.abort_address@ == spec_zero_address()
                &&& outcome.revert_options.call_on_revert == false
                &&& outcome.revert_options.revert_message@ == Seq::<u8>::empty()
                &&& outcome.revert_options.on_revert_gas_limit == 0
                &&& outcome.event.intent_id == outcome.intent_id
                &&& outcome.event.asset == asset
                &&& outcome.event.amount == req.amount
                &&& outcome.event.target_chain == req.target_chain
                &&& outcome.event.receiver@ == req.receiver@
                &&& outcome.event.tip == req.tip
                &&& outcome.event.salt == req.salt
            },
            Err(e) => {
                &&& spec_submit_error(*old(state), *req, escrow_accepted, gateway_accepted)
                    == Some(e)
                &&& *final(state) == *old(state)
            },
        },
{
    let plan = match plan_intent(state, req) {
        Ok(p) => p,
        Err(e) => {
            return Err(e);
        },
    };
    if !escrow_accepted {
        return Err(CrossChainError::EscrowRejected);
    }
    if !gateway_accepted {
        return Err(CrossChainError::GatewayRejected);
    }
    state.intent_counter = state.intent_counter + 1;
    let revert_options = default_revert_options(caller);
    let event = IntentInitiated {
        intent_id: plan.intent_id,
        asset,
        amount: req.amount,
        target_chain: req.target_chain,
        receiver: vstd::slice::slice_to_vec(req.receiver.as_slice()),
        tip: req.tip,
        salt: req.salt,
    };
    Ok(
        IntentOutcome {
            intent_id: plan.intent_id,
            payload: plan.payload,
            total: plan.total,
            revert_options,
            event,
        },
    )
}

/// A self-targeting request is always rejected as `InvalidTargetChain`,
/// before any other check and whatever the external capabilities answer.
pub proof fn lemma_self_target_rejected(
    state: CrossChainState,
    req: IntentRequest,
    escrow_accepted: bool,
    gateway_accepted: bool,
)
    requires
        req.target_chain == LOCAL_CHAIN_ID,
    ensures
        spec_submit_error(state, req, escrow_accepted, gateway_accepted) == Some(
            CrossChainError::InvalidTargetChain,
        ),
{
}

/// A request whose amount and tip together overflow is always rejected as
/// `ArithmeticError`, whatever the external capabilities answer.
pub proof fn lemma_amount_overflow_rejected(
    state: CrossChainState,
    req: IntentRequest,
    escrow_accepted: bool,
    gateway_accepted: bool,
)
    requires
        req.target_chain != LOCAL_CHAIN_ID,
        req.amount + req.tip > u64::MAX,
    ensures
        spec_submit_error(state, req, escrow_accepted, gateway_accepted) == Some(
            CrossChainError::ArithmeticError,
        ),
{
}

/// Read-only projection: the intent ID the next submission would receive
/// with this salt, accurate provided no other submission intervenes.
pub fn get_next_intent_id(state: &CrossChainState, salt: u64) -> (r: [u8; 32])
    ensures
        r@ == spec_intent_id(state.intent_counter, salt),
{
    compute_intent_id(state.peek_counter(), salt)
}

} // verus!
