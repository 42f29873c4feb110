//! Data of continuation chain optimization: chain signatures, the kinds of
//! optimization applied to chains, and the results of data-flow analysis.
use vstd::prelude::*;
use std::collections::HashMap;
use std::hash::Hasher;
use crate::continuations::{ContinuationChain, ContinuationId, OptimizedContinuation};
use crate::error::LambdustError;
use crate::time::Duration;

verus! {

broadcast use vstd::std_specs::hash::group_hash_axioms;

/// Structural signature of a chain.
#[derive(Debug, Clone, Copy, Hash, PartialEq, Eq, Structural)]
pub struct ChainSignature {
    pub structural_hash: u64,
    pub dataflow_hash: u64,
    pub size_category: ChainSizeCategory,
}

/// Size category of a chain.
#[derive(Debug, Clone, Copy, Hash, PartialEq, Eq, Structural)]
pub enum ChainSizeCategory {
    /// Fewer than 10 continuations
    Small,
    /// 10 to 100 continuations
    Medium,
    /// More than 100 continuations
    Large,
}

/// Kinds of optimization applied to a chain.
#[derive(Debug, Clone)]
pub enum ChainOptimization {
    RedundancyElimination { targets: Vec<RedundancyTarget> },
    ValuePropagation { propagations: Vec<ValuePropagation> },
    ControlFlowSimplification { simplifications: Vec<ControlFlowSimplification> },
    MemoryAccessOptimization { optimizations: Vec<MemoryAccessOptimization> },
}

/// Redundancy targets.
#[derive(Debug, Clone, Copy, PartialEq, Eq, Structural)]
pub enum RedundancyTarget {
    DuplicateComputations,
    UnusedValues,
    RedundantLoads,
}

/// Kinds of value propagation.
#[derive(Debug, Clone, Copy, PartialEq, Eq, Structural)]
pub enum ValuePropagation {
    ConstantPropagation,
    CopyPropagation,
    ConstantFolding,
}

/// Control-flow simplifications.
#[derive(Debug, Clone, Copy, PartialEq, Eq, Structural)]
pub enum ControlFlowSimplification {
    DeadCodeElimination,
    BranchSimplification,
    LoopUnrolling,
}

/// Memory access optimizations.
#[derive(Debug, Clone, Copy, PartialEq, Eq, Structural)]
pub enum MemoryAccessOptimization {
    CacheLocality,
    PrefetchInsertion,
    MemoryCoalescing,
}

/// Risk tolerance of optimization decisions.
#[derive(Debug, Clone, Copy, PartialEq, Eq, Structural)]
pub enum RiskTolerance {
    Conservative,
    Moderate,
    Aggressive,
}

/// Overall risk of an optimization.
#[derive(Debug, Clone, Copy, PartialEq, Eq, Structural)]
pub enum RiskLevel {
    Low,
    Moderate,
    High,
    Critical,
}

/// Ways to mitigate optimization risk.
#[derive(Debug, Clone, Copy, PartialEq, Eq, Structural)]
pub enum MitigationStrategy {
    ConservativeOptimization,
    IncrementalTesting,
    Fallback,
}

/// Optimization opportunities, each over the continuations it concerns.
#[derive(Debug, Clone)]
pub enum OptimizationOpportunity {
    InlineCandidates(Vec<ContinuationId>),
    LoopOptimization(Vec<ContinuationId>),
    VectorizationOpportunity(Vec<ContinuationId>),
}

/// A redundant operation found by data-flow analysis.
#[derive(Debug, Clone, Copy, PartialEq, Eq, Structural)]
pub enum RedundantOperation {
    UnusedComputation { operation_id: u64 },
    DuplicateLoad { address: u64 },
    UnreachableCode { block_id: u64 },
}

/// A value propagation opportunity found by data-flow analysis.
#[derive(Debug, Clone, Copy, PartialEq, Eq, Structural)]
pub enum ValuePropagationOpportunity {
    ConstantValue { value: i64 },
    CopyValue { source_id: u64 },
    FoldableExpression { expression_id: u64 },
}

/// Data-flow analysis of a single continuation.
#[derive(Debug, Clone, Copy, PartialEq, Eq, Structural)]
pub struct LocalDataFlowAnalysis {}

impl LocalDataFlowAnalysis {
    pub fn new() -> (a: Self)
        ensures
            a == (LocalDataFlowAnalysis {}),
    {
        LocalDataFlowAnalysis {}
    }
}

/// Data-flow analysis across the continuations of a chain.
#[derive(Debug, Clone, Copy, PartialEq, Eq, Structural)]
pub struct InterContinuationDataFlowAnalysis {}

impl InterContinuationDataFlowAnalysis {
    pub fn new() -> (a: Self)
        ensures
            a == (InterContinuationDataFlowAnalysis {}),
    {
        InterContinuationDataFlowAnalysis {}
    }
}

/// Live-variable analysis.
#[derive(Debug, Clone, Copy, PartialEq, Eq, Structural)]
pub struct LiveVariableAnalysis {}

impl LiveVariableAnalysis {
    pub fn new() -> (a: Self)
        ensures
            a == (LiveVariableAnalysis {}),
    {
        LiveVariableAnalysis {}
    }
}

/// Reaching-definitions analysis.
#[derive(Debug, Clone, Copy, PartialEq, Eq, Structural)]
pub struct ReachingDefinitionsAnalysis {}

impl ReachingDefinitionsAnalysis {
    pub fn new() -> (a: Self)
        ensures
            a == (ReachingDefinitionsAnalysis {}),
    {
        ReachingDefinitionsAnalysis {}
    }
}

/// Results of data-flow analysis over one chain.
#[derive(Debug)]
pub struct ContinuationDataFlowAnalysis {
    chain_id: ContinuationId,
    local_analyses: HashMap<ContinuationId, LocalDataFlowAnalysis>,
    inter_continuation_analysis: Option<InterContinuationDataFlowAnalysis>,
    live_variable_analysis: Option<LiveVariableAnalysis>,
    reaching_definitions: Option<ReachingDefinitionsAnalysis>,
}

impl ContinuationDataFlowAnalysis {
    /// The analysed chain.
    pub closed spec fn chain(&self) -> ContinuationId {
        self.chain_id
    }

    /// Local analyses by continuation.
    pub closed spec fn locals(&self) -> Map<ContinuationId, LocalDataFlowAnalysis> {
        self.local_analyses@
    }

    /// The inter-continuation analysis, once set.
    pub closed spec fn inter(&self) -> Option<InterContinuationDataFlowAnalysis> {
        self.inter_continuation_analysis
    }

    /// The live-variable analysis, once set.
    pub closed spec fn live(&self) -> Option<LiveVariableAnalysis> {
        self.live_variable_analysis
    }

    /// The reaching-definitions analysis, once set.
    pub closed spec fn reaching(&self) -> Option<ReachingDefinitionsAnalysis> {
        self.reaching_definitions
    }

    /// An analysis of `chain_id` with nothing recorded yet.
    pub fn new(chain_id: ContinuationId) -> (a: Self)
        ensures
            a.chain() == chain_id,
            a.locals() == Map::<ContinuationId, LocalDataFlowAnalysis>::empty(),
            a.inter() is None,
            a.live() is None,
            a.reaching() is None,
    {
        ContinuationDataFlowAnalysis {
            chain_id,
            local_analyses: HashMap::new(),
            inter_continuation_analysis: None,
            live_variable_analysis: None,
            reaching_definitions: None,
        }
    }

    /// Records the local analysis of `cont_id`, replacing an earlier one.
    pub fn add_local_analysis(&mut self, cont_id: ContinuationId, analysis: LocalDataFlowAnalysis)
        ensures
            final(self).locals() == old(self).locals().insert(cont_id, analysis),
            final(self).chain() == old(self).chain(),
            final(self).inter() == old(self).inter(),
            final(self).live() == old(self).live(),
            final(self).reaching() == old(self).reaching(),
    {
        self.local_analyses.insert(cont_id, analysis);
    }

    /// Sets the inter-continuation analysis.
    pub fn set_inter_continuation_analysis(&mut self, analysis: InterContinuationDataFlowAnalysis)
        ensures
            final(self).inter() == Some(analysis),
            final(self).locals() == old(self).locals(),
            final(self).chain() == old(self).chain(),
            final(self).live() == old(self).live(),
            final(self).reaching() == old(self).reaching(),
    {
        self.inter_continuation_analysis = Some(analysis);
    }

    /// Sets the live-variable analysis.
    pub fn set_live_variable_analysis(&mut self, analysis: LiveVariableAnalysis)
        ensures
            final(self).live() == Some(analysis),
            final(self).locals() == old(self).locals(),
            final(self).chain() == old(self).chain(),
            final(self).inter() == old(self).inter(),
            final(self).reaching() == old(self).reaching(),
    {
        self.live_variable_analysis = Some(analysis);
    }

    /// Sets the reaching-definitions analysis.
    pub fn set_reaching_definitions(&mut self, analysis: ReachingDefinitionsAnalysis)
        ensures
            final(self).reaching() == Some(analysis),
            final(self).locals() == old(self).locals(),
            final(self).chain() == old(self).chain(),
            final(self).inter() == old(self).inter(),
            final(self).live() == old(self).live(),
    {
        self.reaching_definitions = Some(analysis);
    }

    /// Redundant operations of a continuation: the analysis reports the unused
    /// computation with operation id 1 for every continuation and target.
    pub fn get_redundant_operations(
        &self,
        cont_id: ContinuationId,
        target: &RedundancyTarget,
    ) -> (r: Result<Option<Vec<RedundantOperation>>, LambdustError>)
        ensures
            r matches Ok(Some(v)) && v@ == seq![RedundantOperation::UnusedComputation { operation_id: 1 }],
    {
        Ok(Some(vec![RedundantOperation::UnusedComputation { operation_id: 1 }]))
    }

    /// Value propagation opportunities of a continuation: the analysis reports
    /// the constant 42 for every continuation and propagation kind.
    pub fn get_value_propagation_opportunities(
        &self,
        cont_id: ContinuationId,
        propagation: &ValuePropagation,
    ) -> (r: Result<Option<Vec<ValuePropagationOpportunity>>, LambdustError>)
        ensures
            r matches Ok(Some(v)) && v@ == seq![ValuePropagationOpportunity::ConstantValue { value: 42 }],
    {
        Ok(Some(vec![ValuePropagationOpportunity::ConstantValue { value: 42 }]))
    }
}

/// The optimizations to apply to a chain, in order.
#[derive(Debug)]
pub struct ChainOptimizationStrategy {
    pub optimizations: Vec<ChainOptimization>,
}

/// A chain after optimization, with the optimizations applied to it.
#[derive(Debug)]
pub struct OptimizedChainResult {
    /// Identifier of the chain that was optimized, when it has one
    pub original_chain_id: Option<ContinuationId>,
    /// The optimized chain
    pub optimized_chain: ContinuationChain,
    /// The optimizations applied, in order
    pub applied_optimizations: Vec<ChainOptimization>,
}

/// `k` copies of `s`, one after the other.
pub open spec fn repeated(s: Seq<OptimizedContinuation>, k: nat) -> Seq<OptimizedContinuation>
    decreases k,
{
    if k == 0 {
        Seq::empty()
    } else {
        repeated(s, (k - 1) as nat) + s
    }
}

/// Configuration of the chain optimizer.
#[derive(Debug, Clone, Copy)]
pub struct ChainOptimizerConfig {
    /// Capacity of the optimization cache
    pub cache_size: usize,
    /// Whether aggressive optimizations are enabled
    pub enable_aggressive_optimization: bool,
}

impl ChainOptimizerConfig {
    /// A cache of a thousand results, aggressive optimizations enabled.
    pub fn default() -> (c: Self)
        ensures
            c.cache_size == 1000,
            c.enable_aggressive_optimization,
    {
        ChainOptimizerConfig { cache_size: 1000, enable_aggressive_optimization: true }
    }
}

/// Applies chain optimizations.
#[derive(Debug, Clone, Copy)]
pub struct ContinuationChainOptimizer {
    pub config: ChainOptimizerConfig,
}

impl ContinuationChainOptimizer {
    /// An optimizer with the given configuration.
    pub fn new(config: ChainOptimizerConfig) -> (r: Result<Self, LambdustError>)
        ensures
            r matches Ok(o) && o.config == config,
    {
        Ok(ContinuationChainOptimizer { config })
    }

    /// Removes redundant operations from a continuation; the operations are
    /// not represented, so the continuation is kept as it is.
    fn eliminate_redundant_operations(&self, continuation: OptimizedContinuation, ops: &Vec<RedundantOperation>) -> (c: OptimizedContinuation)
        ensures
            c == continuation,
    {
        continuation
    }

    /// Propagates values into a continuation; kept as it is.
    fn apply_value_propagation_to_continuation(&self, continuation: OptimizedContinuation, ops: &Vec<ValuePropagationOpportunity>) -> (c: OptimizedContinuation)
        ensures
            c == continuation,
    {
        continuation
    }

    /// Redundancy elimination over every continuation of the chain, for each
    /// target the data-flow analysis reports redundant operations for.
    fn apply_redundancy_elimination(
        &self,
        chain: &ContinuationChain,
        dataflow: &ContinuationDataFlowAnalysis,
        targets: &Vec<RedundancyTarget>,
    ) -> (r: Result<Vec<OptimizedContinuation>, LambdustError>)
        ensures
            r matches Ok(v) && v@ == chain.continuations@,
    {
        let mut out: Vec<OptimizedContinuation> = Vec::new();
        let mut i: usize = 0;
        while i < chain.continuations.len()
            invariant
                i <= chain.continuations@.len(),
                out@ == chain.continuations@.subrange(0, i as int),
            decreases chain.continuations@.len() - i,
        {
            let mut c = chain.continuations[i];
            let ghost c0 = c;
            let mut t: usize = 0;
            while t < targets.len()
                invariant
                    t <= targets@.len(),
                    c == c0,
                decreases targets@.len() - t,
            {
                match dataflow.get_redundant_operations(c.id(), &targets[t]) {
                    Ok(Some(ops)) => {
                        c = self.eliminate_redundant_operations(c, &ops);
                    },
                    Ok(None) => {},
                    Err(e) => {
                        return Err(e);
                    },
                }
                t = t + 1;
            }
            out.push(c);
            assert(out@ =~= chain.continuations@.subrange(0, i + 1));
            i = i + 1;
        }
        assert(chain.continuations@.subrange(0, i as int) =~= chain.continuations@);
        Ok(out)
    }

    /// Value propagation over every continuation of the chain, for each kind
    /// the data-flow analysis reports opportunities for.
    fn apply_value_propagation(
        &self,
        chain: &ContinuationChain,
        dataflow: &ContinuationDataFlowAnalysis,
        propagations: &Vec<ValuePropagation>,
    ) -> (r: Result<Vec<OptimizedContinuation>, LambdustError>)
        ensures
            r matches Ok(v) && v@ == chain.continuations@,
    {
        let mut out: Vec<OptimizedContinuation> = Vec::new();
        let mut i: usize = 0;
        while i < chain.continuations.len()
            invariant
                i <= chain.continuations@.len(),
                out@ == chain.continuations@.subrange(0, i as int),
            decreases chain.continuations@.len() - i,
        {
            let mut c = chain.continuations[i];
            let ghost c0 = c;
            let mut t: usize = 0;
            while t < propagations.len()
                invariant
                    t <= propagations@.len(),
                    c == c0,
                decreases propagations@.len() - t,
            {
                match dataflow.get_value_propagation_opportunities(c.id(), &propagations[t]) {
                    Ok(Some(ops)) => {
                        c = self.apply_value_propagation_to_continuation(c, &ops);
                    },
                    Ok(None) => {},
                    Err(e) => {
                        return Err(e);
                    },
                }
                t = t + 1;
            }
            out.push(c);
            assert(out@ =~= chain.continuations@.subrange(0, i + 1));
            i = i + 1;
        }
        assert(chain.continuations@.subrange(0, i as int) =~= chain.continuations@);
        Ok(out)
    }

    /// A rewriting that keeps every continuation of the chain as it is:
    /// control-flow simplification and memory access optimization do not
    /// change the represented continuations.
    fn rewrite_each(&self, chain: &ContinuationChain) -> (v: Vec<OptimizedContinuation>)
        ensures
            v@ == chain.continuations@,
    {
        let mut out: Vec<OptimizedContinuation> = Vec::new();
        let mut i: usize = 0;
        while i < chain.continuations.len()
            invariant
                i <= chain.continuations@.len(),
                out@ == chain.continuations@.subrange(0, i as int),
            decreases chain.continuations@.len() - i,
        {
            out.push(chain.continuations[i]);
            assert(out@ =~= chain.continuations@.subrange(0, i + 1));
            i = i + 1;
        }
        assert(chain.continuations@.subrange(0, i as int) =~= chain.continuations@);
        out
    }

    /// Applies the strategy's optimizations in order: each contributes the
    /// chain's continuations as it rewrote them, appended to the optimized
    /// chain, and is recorded as applied.
    pub fn apply_optimizations(
        &self,
        chain: &ContinuationChain,
        dataflow: &ContinuationDataFlowAnalysis,
        strategy: ChainOptimizationStrategy,
    ) -> (r: Result<OptimizedChainResult, LambdustError>)
        ensures
            r matches Ok(res) && {
                &&& res.original_chain_id == chain.chain_id
                &&& res.optimized_chain.chain_id is None
                &&& res.optimized_chain.continuations@ == repeated(chain.continuations@, strategy.optimizations@.len())
                &&& res.applied_optimizations@ == strategy.optimizations@
            },
    {
        let mut optimized: Vec<OptimizedContinuation> = Vec::new();
        let mut j: usize = 0;
        while j < strategy.optimizations.len()
            invariant
                j <= strategy.optimizations@.len(),
                optimized@ == repeated(chain.continuations@, j as nat),
            decreases strategy.optimizations@.len() - j,
        {
            let mut step = match &strategy.optimizations[j] {
                ChainOptimization::RedundancyElimination { targets } => {
                    match self.apply_redundancy_elimination(chain, dataflow, targets) {
                        Ok(v) => v,
                        Err(e) => {
                            return Err(e);
                        },
                    }
                },
                ChainOptimization::ValuePropagation { propagations } => {
                    match self.apply_value_propagation(chain, dataflow, propagations) {
                        Ok(v) => v,
                        Err(e) => {
                            return Err(e);
                        },
                    }
                },
                ChainOptimization::ControlFlowSimplification { simplifications } => self.rewrite_each(chain),
                ChainOptimization::MemoryAccessOptimization { optimizations } => self.rewrite_each(chain),
            };
            optimized.append(&mut step);
            assert(optimized@ =~= repeated(chain.continuations@, (j + 1) as nat));
            j = j + 1;
        }
        Ok(OptimizedChainResult {
            original_chain_id: chain.id(),
            optimized_chain: ContinuationChain { chain_id: None, continuations: optimized },
            applied_optimizations: strategy.optimizations,
        })
    }
}

/// Result of applying optimizations to a chain.
#[derive(Debug)]
pub struct OptimizationApplicationResult {
    pub continuations: Vec<OptimizedContinuation>,
    pub metrics: OptimizationMetrics,
}

/// Counts and time of one optimization pass.
#[derive(Debug, Clone, Copy, PartialEq, Eq, Structural)]
pub struct OptimizationMetrics {
    pub eliminated_operations: usize,
    pub preserved_operations: usize,
    pub optimization_time: Duration,
}

/// Features of an execution pattern.
#[derive(Debug, Clone, Copy, PartialEq, Eq, Structural)]
pub struct PatternFeatures {}

impl PatternFeatures {
    pub fn new() -> (f: Self)
        ensures
            f == (PatternFeatures {}),
    {
        PatternFeatures {}
    }
}

/// Data-flow characteristics of a chain.
#[derive(Debug, Clone, Copy, PartialEq, Eq, Structural)]
pub struct DataFlowCharacteristics {}

impl Default for DataFlowCharacteristics {
    fn default() -> (c: Self)
        ensures
            c == (DataFlowCharacteristics {}),
    {
        DataFlowCharacteristics {}
    }
}

/// Feeds `components` to `hasher` as `Vec<u64>`'s `Hash::hash` does. Which
/// bytes are written is left unstated: std documents that hashed data is not
/// portable across platforms and that `DefaultHasher` may change between
/// releases.
#[verifier::external_body]
fn hash_u64s_into(components: &Vec<u64>, hasher: &mut std::collections::hash_map::DefaultHasher) {
    std::hash::Hash::hash(components, hasher)
}

/// The hash of a list of components: fed to a fresh `DefaultHasher` and
/// finished. Nothing is stated of the value.
fn hash_components(components: &Vec<u64>) -> (h: u64) {
    let mut hasher = std::collections::hash_map::DefaultHasher::new();
    hash_u64s_into(components, &mut hasher);
    hasher.finish()
}

/// Collects the structural and data-flow components of a chain's signature.
#[derive(Debug, Clone)]
pub struct ChainSignatureBuilder {
    pub structural_components: Vec<u64>,
    pub dataflow_components: Vec<u64>,
}

/// The signature of a chain with the given component hashes; chains are
/// filed under the medium size category.
pub fn signature_from_hashes(structural_hash: u64, dataflow_hash: u64) -> (s: ChainSignature)
    ensures
        s == (ChainSignature {
            structural_hash,
            dataflow_hash,
            size_category: ChainSizeCategory::Medium,
        }),
{
    ChainSignature { structural_hash, dataflow_hash, size_category: ChainSizeCategory::Medium }
}

impl ChainSignatureBuilder {
    /// A builder with no components.
    pub fn new() -> (b: Self)
        ensures
            b.structural_components@ == Seq::<u64>::empty(),
            b.dataflow_components@ == Seq::<u64>::empty(),
    {
        ChainSignatureBuilder { structural_components: Vec::new(), dataflow_components: Vec::new() }
    }

    /// Adds a continuation's structural component, which is 12345 for every
    /// continuation.
    pub fn add_continuation_signature(&mut self, continuation: &OptimizedContinuation) -> (r: Result<(), LambdustError>)
        ensures
            r is Ok,
            final(self).structural_components@ == old(self).structural_components@.push(12345),
            final(self).dataflow_components@ == old(self).dataflow_components@,
    {
        self.structural_components.push(12345);
        Ok(())
    }

    /// Adds a data-flow component, which is 67890 for every characteristics value.
    pub fn add_dataflow_characteristics(&mut self, characteristics: &DataFlowCharacteristics)
        ensures
            final(self).dataflow_components@ == old(self).dataflow_components@.push(67890),
            final(self).structural_components@ == old(self).structural_components@,
    {
        self.dataflow_components.push(67890);
    }

    /// The signature: the hash of each list of components, filed under the
    /// medium size category; see `signature_from_hashes`.
    pub fn build(self) -> (s: ChainSignature)
        ensures
            s.size_category == ChainSizeCategory::Medium,
    {
        let structural_hash = hash_components(&self.structural_components);
        let dataflow_hash = hash_components(&self.dataflow_components);
        signature_from_hashes(structural_hash, dataflow_hash)
    }
}

} // verus!
