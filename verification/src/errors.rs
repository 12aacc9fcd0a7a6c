use vstd::prelude::*;

verus! {

/// Every way a bridge operation can fail. All errors are terminal for the
/// triggering call: no partial state is retained, and each failure surfaces
/// a distinguishable kind to the caller.
#[derive(Clone, Copy, Debug, PartialEq, Eq, Structural)]
pub enum CrossChainError {
    /// The requested target chain equals the local chain's own identifier.
    InvalidTargetChain,
    /// `amount + tip` or the intent counter would overflow a `u64`.
    ArithmeticError,
    /// The receiver address is too long for the 4-byte length prefix.
    EncodingOverflow,
    /// The external ledger declined to escrow the funds.
    EscrowRejected,
    /// The external gateway declined to dispatch the payload.
    GatewayRejected,
}

impl CrossChainError {
    /// A short, stable description of the error kind.
    pub fn describe(&self) -> (r: &'static str)
        ensures
            r@ == match *self {
                CrossChainError::InvalidTargetChain => "target chain cannot be the current chain"@,
                CrossChainError::ArithmeticError => "arithmetic error"@,
                CrossChainError::EncodingOverflow => "receiver length exceeds encodable range"@,
                CrossChainError::EscrowRejected => "escrow transfer rejected"@,
                CrossChainError::GatewayRejected => "gateway dispatch rejected"@,
            },
    {
        match *self {
            CrossChainError::InvalidTargetChain => "target chain cannot be the current chain",
            CrossChainError::ArithmeticError => "arithmetic error",
            CrossChainError::EncodingOverflow => "receiver length exceeds encodable range",
            CrossChainError::EscrowRejected => "escrow transfer rejected",
            CrossChainError::GatewayRejected => "gateway dispatch rejected",
        }
    }
}

} // verus!
