//! Transaction-intent layer of a cross-chain asset bridge.
//!
//! A caller escrows tokens on the local chain and registers an *intent*: a
//! request to deliver value to a receiver on a different target chain. This
//! crate holds the verified core of that layer: the per-instance bridge state
//! with its monotonic intent counter, the deterministic intent-ID derivation,
//! the byte-exact wire payload codec, and the validation and arithmetic-safety
//! rules applied before an intent is accepted. Token custody and cross-chain
//! message delivery are external capabilities; their answers enter the engine
//! as plain accept/reject outcomes.

mod codec;
mod engine;
mod errors;
mod state;

pub use codec::DecodedIntent;
pub use codec::compute_intent_id;
pub use codec::decode_intent_payload;
pub use codec::encode_intent_payload;
pub use codec::lemma_distinct_pairs_distinct_preimages;
pub use codec::lemma_intent_id_deterministic;
pub use codec::lemma_payload_round_trip;
pub use codec::lemma_submission_sequence_preimages_distinct;
pub use codec::sha256_of;
pub use codec::spec_decode_payload;
pub use codec::spec_encode_payload;
pub use codec::spec_intent_id;
pub use codec::spec_intent_preimage;
pub use engine::IntentInitiated;
pub use engine::IntentOutcome;
pub use engine::IntentPlan;
pub use engine::IntentRequest;
pub use engine::LOCAL_CHAIN_ID;
pub use engine::RevertOptions;
pub use engine::default_revert_options;
pub use engine::get_next_intent_id;
pub use engine::initiate;
pub use engine::lemma_amount_overflow_rejected;
pub use engine::lemma_self_target_rejected;
pub use engine::plan_intent;
pub use engine::spec_plan_error;
pub use engine::spec_submit_error;
pub use engine::spec_zero_address;
pub use errors::CrossChainError;
pub use state::CrossChainState;
pub use state::initialize;
