use vstd::prelude::*;
use vstd::bytes::*;
use crate::errors::CrossChainError;

verus! {

/// The SHA-256 digest of a byte sequence, as an abstract name: the digest is
/// a function of the input bytes alone, so one name serves every call.
pub uninterp spec fn sha256_of(data: Seq<u8>) -> Seq<u8>;

/// The bytes that an intent ID is derived from: the 8-byte little-endian
/// encoding of the counter followed by that of the salt.
pub open spec fn spec_intent_preimage(counter: u64, salt: u64) -> Seq<u8> {
    spec_u64_to_le_bytes(counter) + spec_u64_to_le_bytes(salt)
}

/// The intent ID that a given counter and salt derive.
pub open spec fn spec_intent_id(counter: u64, salt: u64) -> Seq<u8> {
    sha256_of(spec_intent_preimage(counter, salt))
}

/// Relies on `solana_program::hash::hash`: it returns the SHA-256 digest of
/// the input, a function of those bytes alone, and `Hash::to_bytes` hands the
/// digest out as its 32 bytes.
#[verifier::external_body]
fn sha256_digest(data: &Vec<u8>) -> (r: [u8; 32])
    ensures
        r@ == sha256_of(data@),
{
    solana_program::hash::hash(data.as_slice()).to_bytes()
}

/// Derives the unique intent ID for one submission: the SHA-256 digest of
/// the little-endian counter and salt. Pure and deterministic.
pub fn compute_intent_id(counter: u64, salt: u64) -> (r: [u8; 32])
    ensures
        r@ == spec_intent_id(counter, salt),
{
    let mut data: Vec<u8> = u64_to_le_bytes(counter);
    let mut salt_bytes: Vec<u8> = u64_to_le_bytes(salt);
    data.append(&mut salt_bytes);
    sha256_digest(&data)
}

/// Determinism of intent-ID derivation: any two IDs derived from the same
/// counter and salt are the same 32 bytes.
pub proof fn lemma_intent_id_deterministic(id1: Seq<u8>, id2: Seq<u8>, counter: u64, salt: u64)
    requires
        id1 == spec_intent_id(counter, salt),
        id2 == spec_intent_id(counter, salt),
    ensures
        id1 == id2,
{
}

/// Distinct (counter, salt) pairs are hashed from distinct byte strings, so
/// their intent IDs collide only where SHA-256 itself does. In particular,
/// two submissions that observe different counter values hash different
/// preimages, whatever their salts.
pub proof fn lemma_distinct_pairs_distinct_preimages(c1: u64, s1: u64, c2: u64, s2: u64)
    requires
        c1 != c2 || s1 != s2,
    ensures
        spec_intent_preimage(c1, s1) != spec_intent_preimage(c2, s2),
{
    lemma_auto_spec_u64_to_from_le_bytes();
    let p1 = spec_intent_preimage(c1, s1);
    let p2 = spec_intent_preimage(c2, s2);
    if p1 == p2 {
        assert(spec_u64_to_le_bytes(c1) =~= p1.subrange(0, 8));
        assert(spec_u64_to_le_bytes(s1) =~= p1.subrange(8, 16));
        assert(spec_u64_to_le_bytes(c2) =~= p2.subrange(0, 8));
        assert(spec_u64_to_le_bytes(s2) =~= p2.subrange(8, 16));
        assert(c1 == spec_u64_from_le_bytes(spec_u64_to_le_bytes(c1)));
        assert(s1 == spec_u64_from_le_bytes(spec_u64_to_le_bytes(s1)));
        assert(false);
    }
}

/// Across a sequence of accepted submissions, whose counters are the
/// successive values 0, 1, 2, ..., the hashed preimages are pairwise
/// distinct whatever salts the callers chose — repeated salts included — so
/// any two of the derived intent IDs collide only where SHA-256 itself does.
pub proof fn lemma_submission_sequence_preimages_distinct(salts: Seq<u64>, i: int, j: int)
    requires
        0 <= i < salts.len(),
        0 <= j < salts.len(),
        i != j,
        salts.len() <= u64::MAX + 1,
    ensures
        spec_intent_preimage(i as u64, salts[i]) != spec_intent_preimage(j as u64, salts[j]),
{
    lemma_distinct_pairs_distinct_preimages(i as u64, salts[i], j as u64, salts[j]);
}

/// The wire payload for one intent: a flat concatenation of
/// `intent_id (32) || amount (8, LE) || tip (8, LE) || target_chain (8, LE)
/// || receiver length (4, LE) || receiver`. Any change to field order or
/// width is a breaking protocol change.
pub open spec fn spec_encode_payload(
    intent_id: Seq<u8>,
    amount: u64,
    tip: u64,
    target_chain: u64,
    receiver: Seq<u8>,
) -> Seq<u8> {
    intent_id + spec_u64_to_le_bytes(amount) + spec_u64_to_le_bytes(tip)
        + spec_u64_to_le_bytes(target_chain) + spec_u32_to_le_bytes(receiver.len() as u32)
        + receiver
}

/// Builds the wire payload for one intent. The receiver is variable-length
/// and delimited by a mandatory 4-byte little-endian length prefix, so a
/// receiver whose length does not fit in 32 bits is rejected rather than
/// silently truncated.
pub fn encode_intent_payload(
    intent_id: [u8; 32],
    amount: u64,
    tip: u64,
    target_chain: u64,
    receiver: &[u8],
) -> (r: Result<Vec<u8>, CrossChainError>)
    ensures
        match r {
            Ok(payload) => receiver@.len() <= u32::MAX && payload@ == spec_encode_payload(
                intent_id@,
                amount,
                tip,
                target_chain,
                receiver@,
            ),
            Err(e) => receiver@.len() > u32::MAX && e == CrossChainError::EncodingOverflow,
        },
{
    if receiver.len() > u32::MAX as usize {
        return Err(CrossChainError::EncodingOverflow);
    }
    let receiver_len: u32 = receiver.len() as u32;

    let mut payload: Vec<u8> = Vec::new();
    let mut i: usize = 0;
    while i < 32
        invariant
            0 <= i <= 32,
            payload@ == intent_id@.subrange(0, i as int),
        decreases 32 - i,
    {
        payload.push(intent_id[i]);
        i += 1;
    }
    assert(payload@ =~= intent_id@);

    let mut amount_bytes: Vec<u8> = u64_to_le_bytes(amount);
    payload.append(&mut amount_bytes);
    let mut tip_bytes: Vec<u8> = u64_to_le_bytes(tip);
    payload.append(&mut tip_bytes);
    let mut chain_bytes: Vec<u8> = u64_to_le_bytes(target_chain);
    payload.append(&mut chain_bytes);
    let mut len_bytes: Vec<u8> = u32_to_le_bytes(receiver_len);
    payload.append(&mut len_bytes);
    let mut receiver_bytes: Vec<u8> = vstd::slice::slice_to_vec(receiver);
    payload.append(&mut receiver_bytes);

    assert(payload@ =~= spec_encode_payload(intent_id@, amount, tip, target_chain, receiver@));
    Ok(payload)
}

/// The fields read back from a well-formed wire payload.
pub struct DecodedIntent {
    pub intent_id: Vec<u8>,
    pub amount: u64,
    pub tip: u64,
    pub target_chain: u64,
    pub receiver: Vec<u8>,
}

/// What a conformant decoder reads from a byte string: `None` unless the
/// bytes are exactly one well-formed payload, otherwise its five fields.
pub open spec fn spec_decode_payload(bytes: Seq<u8>) -> Option<(Seq<u8>, u64, u64, u64, Seq<u8>)> {
    if bytes.len() < 60 {
        None
    } else {
        let receiver_len = spec_u32_from_le_bytes(bytes.subrange(56, 60));
        if bytes.len() != 60 + receiver_len {
            None
        } else {
            Some(
                (
                    bytes.subrange(0, 32),
                    spec_u64_from_le_bytes(bytes.subrange(32, 40)),
                    spec_u64_from_le_bytes(bytes.subrange(40, 48)),
                    spec_u64_from_le_bytes(bytes.subrange(48, 56)),
                    bytes.subrange(60, bytes.len() as int),
                ),
            )
        }
    }
}

/// Parses a wire payload back into its fields: the exact inverse of
/// `encode_intent_payload` on well-formed input, `None` on anything else.
pub fn decode_intent_payload(bytes: &[u8]) -> (r: Option<DecodedIntent>)
    ensures
        match r {
            Some(d) => spec_decode_payload(bytes@) == Some(
                (d.intent_id@, d.amount, d.tip, d.target_chain, d.receiver@),
            ),
            None => spec_decode_payload(bytes@) is None,
        },
{
    if bytes.len() < 60 {
        return None;
    }
    let receiver_len: u32 = u32_from_le_bytes(vstd::slice::slice_subrange(bytes, 56, 60));
    if bytes.len() - 60 != receiver_len as usize {
        return None;
    }
    let intent_id: Vec<u8> = vstd::slice::slice_to_vec(vstd::slice::slice_subrange(bytes, 0, 32));
    let amount: u64 = u64_from_le_bytes(vstd::slice::slice_subrange(bytes, 32, 40));
    let tip: u64 = u64_from_le_bytes(vstd::slice::slice_subrange(bytes, 40, 48));
    let target_chain: u64 = u64_from_le_bytes(vstd::slice::slice_subrange(bytes, 48, 56));
    let receiver: Vec<u8> = vstd::slice::slice_to_vec(
        vstd::slice::slice_subrange(bytes, 60, bytes.len()),
    );
    Some(DecodedIntent { intent_id, amount, tip, target_chain, receiver })
}

/// Round trip of the payload codec: decoding an encoded payload yields back
/// exactly the fields that were encoded, for any 32-byte intent ID and any
/// receiver whose length fits the 4-byte length prefix.
pub proof fn lemma_payload_round_trip(
    intent_id: Seq<u8>,
    amount: u64,
    tip: u64,
    target_chain: u64,
    receiver: Seq<u8>,
)
    requires
        intent_id.len() == 32,
        receiver.len() <= u32::MAX,
    ensures
        spec_decode_payload(spec_encode_payload(intent_id, amount, tip, target_chain, receiver))
            == Some((intent_id, amount, tip, target_chain, receiver)),
{
    lemma_auto_spec_u64_to_from_le_bytes();
    lemma_auto_spec_u32_to_from_le_bytes();
    let bytes = spec_encode_payload(intent_id, amount, tip, target_chain, receiver);
    assert(bytes.len() == 60 + receiver.len());
    assert(bytes.subrange(0, 32) =~= intent_id);
    assert(bytes.subrange(32, 40) =~= spec_u64_to_le_bytes(amount));
    assert(bytes.subrange(40, 48) =~= spec_u64_to_le_bytes(tip));
    assert(bytes.subrange(48, 56) =~= spec_u64_to_le_bytes(target_chain));
    assert(bytes.subrange(56, 60) =~= spec_u32_to_le_bytes(receiver.len() as u32));
    assert(bytes.subrange(60, bytes.len() as int) =~= receiver);
}

} // verus!
