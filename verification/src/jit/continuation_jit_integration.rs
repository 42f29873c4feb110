//! The chain analysis that decides whether a continuation chain is compiled
//! as one unit.
use vstd::prelude::*;
use crate::continuations::OptimizedContinuation;
use crate::error::LambdustError;

verus! {

/// What the analysis of a continuation chain found.
#[derive(Debug, Clone, Copy, PartialEq, Eq, Structural)]
pub struct ChainAnalysis {
    pub chain_length: usize,
    pub has_common_patterns: bool,
    pub has_type_uniformity: bool,
    pub total_hotness: u32,
}

/// Whether an analysed chain is worth optimizing as a whole: longer than
/// three, with common patterns, and hotter than 50.
pub open spec fn worth_chain_optimization(a: ChainAnalysis) -> bool {
    a.chain_length > 3 && a.has_common_patterns && a.total_hotness > 50
}

impl ChainAnalysis {
    /// An analysis of nothing.
    pub fn new() -> (a: Self)
        ensures
            a == (ChainAnalysis {
                chain_length: 0,
                has_common_patterns: false,
                has_type_uniformity: false,
                total_hotness: 0,
            }),
    {
        ChainAnalysis { chain_length: 0, has_common_patterns: false, has_type_uniformity: false, total_hotness: 0 }
    }

    /// Whether the chain should be optimized as a single unit.
    pub fn should_optimize_as_chain(&self) -> (b: bool)
        ensures
            b == worth_chain_optimization(*self),
    {
        self.chain_length > 3 && self.has_common_patterns && self.total_hotness > 50
    }
}

/// Whether the continuations share patterns; every chain is taken to.
pub fn detect_common_patterns(continuations: &[OptimizedContinuation]) -> (b: bool)
    ensures
        b,
{
    true
}

/// Whether the continuations agree in type; every chain is taken to.
pub fn check_type_uniformity(continuations: &[OptimizedContinuation]) -> (b: bool)
    ensures
        b,
{
    true
}

/// Hotness of a chain: ten per continuation.
pub fn calculate_total_hotness(continuations: &[OptimizedContinuation]) -> (h: u32)
    requires
        continuations@.len() * 10 <= u32::MAX,
    ensures
        h == continuations@.len() * 10,
{
    (continuations.len() as u32) * 10
}

/// Analyses a chain of continuations.
pub fn analyze_continuation_chain(continuations: &[OptimizedContinuation]) -> (r: Result<ChainAnalysis, LambdustError>)
    requires
        continuations@.len() * 10 <= u32::MAX,
    ensures
        r == Ok::<ChainAnalysis, LambdustError>(
            ChainAnalysis {
                chain_length: continuations@.len() as usize,
                has_common_patterns: true,
                has_type_uniformity: true,
                total_hotness: (continuations@.len() * 10) as u32,
            },
        ),
{
    let mut analysis = ChainAnalysis::new();
    analysis.chain_length = continuations.len();
    analysis.has_common_patterns = detect_common_patterns(continuations);
    analysis.has_type_uniformity = check_type_uniformity(continuations);
    analysis.total_hotness = calculate_total_hotness(continuations);
    Ok(analysis)
}

/// A chain is optimized as a whole exactly when it holds more than five
/// continuations.
pub proof fn lemma_chain_optimized_iff_longer_than_five(len: nat)
    requires
        len * 10 <= u32::MAX,
    ensures
        worth_chain_optimization(
            ChainAnalysis {
                chain_length: len as usize,
                has_common_patterns: true,
                has_type_uniformity: true,
                total_hotness: (len * 10) as u32,
            },
        ) <==> len > 5,
{
}

} // verus!
