//! Continuations as the JIT subsystem sees them: identified frames gathered
//! into chains.
use vstd::prelude::*;

verus! {

/// Unique identifier for continuations
pub type ContinuationId = u64;

/// A continuation prepared for optimization.
#[derive(Debug, Clone, Copy, PartialEq, Eq)]
pub struct OptimizedContinuation {
    /// Identifier of the continuation
    pub id: ContinuationId,
}

impl OptimizedContinuation {
    /// Identifier of the continuation.
    pub fn id(&self) -> (i: ContinuationId)
        ensures
            i == self.id,
    {
        self.id
    }
}

/// A chain of continuations, outermost first.
#[derive(Debug, Clone)]
pub struct ContinuationChain {
    /// Identifier of the chain, when it has one
    pub chain_id: Option<ContinuationId>,
    /// The continuations of the chain
    pub continuations: Vec<OptimizedContinuation>,
}

impl ContinuationChain {
    /// Identifier of the chain, when it has one.
    pub fn id(&self) -> (i: Option<ContinuationId>)
        ensures
            i == self.chain_id,
    {
        self.chain_id
    }

    /// Number of continuations in the chain.
    pub fn len(&self) -> (n: usize)
        ensures
            n == self.continuations@.len(),
    {
        self.continuations.len()
    }
}

} // verus!
