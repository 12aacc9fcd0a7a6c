use vstd::prelude::*;
use crate::errors::CrossChainError;

verus! {

/// The per-instance bridge state: one record per deployed bridge
/// configuration. The gateway identity and router address are fixed at
/// initialization; the intent counter is the source of intent-ID uniqueness
/// and only ever moves up, by exactly one per accepted intent.
pub struct CrossChainState {
    /// Strictly monotonic sequence number of accepted intents.
    pub intent_counter: u64,
    /// Identity of the trusted gateway counterpart on the local chain.
    pub gateway: [u8; 32],
    /// Address of the receiving router on the target chain.
    pub router: [u8; 20],
}

/// One-time bootstrap of a bridge instance: records the gateway identity and
/// the target-chain router address, and zeroes the intent counter.
pub fn initialize(gateway: [u8; 32], router: [u8; 20]) -> (s: CrossChainState)
    ensures
        s.intent_counter == 0,
        s.gateway == gateway,
        s.router == router,
{
    CrossChainState { intent_counter: 0, gateway, router }
}

impl CrossChainState {
    /// Reads the current counter without mutating anything: the value the
    /// next accepted intent will be derived from.
    pub fn peek_counter(&self) -> (c: u64)
        ensures
            c == self.intent_counter,
    {
        self.intent_counter
    }

    /// Atomically reads the current counter and advances it by one. Fails
    /// with `ArithmeticError`, leaving the state unchanged, only when the
    /// counter has reached the largest representable value.
    pub fn next_counter(&mut self) -> (r: Result<u64, CrossChainError>)
        ensures
            match r {
                Ok(c) => old(self).intent_counter < u64::MAX && c == old(self).intent_counter
                    && final(self).intent_counter == old(self).intent_counter + 1,
                Err(e) => old(self).intent_counter == u64::MAX
                    && e == CrossChainError::ArithmeticError && *final(self) == *old(self),
            },
            final(self).gateway == old(self).gateway,
            final(self).router == old(self).router,
    {
        if self.intent_counter == u64::MAX {
            return Err(CrossChainError::ArithmeticError);
        }
        let c = self.intent_counter;
        self.intent_counter = c + 1;
        Ok(c)
    }
}

} // verus!
