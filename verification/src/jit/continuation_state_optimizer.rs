//! State management across continuation chains: the analyses of shared
//! state, memory access and cache behaviour, the optimization strategy they
//! lead to, and the optimized state it is applied to.
use vstd::prelude::*;
use crate::continuations::{ContinuationChain, ContinuationId, OptimizedContinuation};
use crate::error::LambdustError;

verus! {

/// Signature of a chain's state, used as a cache key.
pub type StateSignature = u64;

#[derive(Debug, Clone, Copy, PartialEq, Eq)]
pub struct SharedState;

#[derive(Debug, Clone, Copy, PartialEq, Eq, Structural)]
pub enum CompressionAlgorithm {
    LZ4,
    Zstd,
    Snappy,
}

#[derive(Debug, Clone, Copy, PartialEq, Eq)]
pub struct PrefetchPattern;

#[derive(Debug, Clone, Copy, PartialEq, Eq)]
pub struct OptimizedContinuationState;

#[derive(Debug, Clone, Copy, PartialEq, Eq)]
pub struct SharedStateRegion;

#[derive(Debug, Clone, Copy, PartialEq, Eq)]
pub struct MemoryLayout;

#[derive(Debug, Clone, Copy, PartialEq, Eq)]
pub struct CacheOptimizationMetadata;

#[derive(Debug)]
pub struct ContinuationStateAnalysis {
    pub continuation_id: ContinuationId,
    pub state_size: usize,
    pub state_variables: Vec<String>,
    pub reference_patterns: Vec<String>,
}

#[derive(Debug, Clone, Copy)]
pub struct CommonStatePattern;

#[derive(Debug, Clone, Copy)]
pub struct SharingOpportunity;

#[derive(Debug, Clone, Copy)]
pub struct CostBenefitAnalysis;

#[derive(Debug, Clone, Copy, PartialEq, Eq)]
pub struct AccessPattern;

#[derive(Debug, Clone, Copy)]
pub struct AccessInterference;

#[derive(Debug, Clone, Copy)]
pub struct CacheLocalityAnalysis;

#[derive(Debug, Clone, Copy)]
pub struct CacheMissRatePrediction;

#[derive(Debug, Clone, Copy)]
pub struct CacheOptimizationOpportunity;

#[derive(Debug, Clone, Copy, PartialEq, Eq)]
pub struct StateLifecycleInfo;

#[derive(Debug, Clone, Copy)]
pub struct StateLifetimeAnalysis;

#[derive(Debug, Clone, Copy)]
pub struct StateSharingAnalyzerConfig;

#[derive(Debug, Clone, Copy)]
pub struct MemoryAccessOptimizerConfig {
    pub max_memory_budget: usize,
}

#[derive(Debug, Clone, Copy)]
pub struct CacheEfficiencyOptimizerConfig;

#[derive(Debug, Clone, Copy)]
pub struct StateLifecycleConfig;

#[derive(Debug, Clone, Copy, PartialEq, Eq)]
pub struct StateSharingConfig;

#[derive(Debug, Clone, Copy, PartialEq, Eq)]
pub struct MemoryOptimizationConfig {
    pub enable_layout_optimization: bool,
    pub enable_access_pattern_optimization: bool,
    pub enable_memory_pool_optimization: bool,
}

#[derive(Debug, Clone, Copy, PartialEq, Eq)]
pub struct CacheOptimizationConfig {
    pub enable_cache_line_alignment: bool,
    pub enable_spatial_locality_optimization: bool,
    pub enable_temporal_locality_optimization: bool,
    pub enable_cache_hierarchy_optimization: bool,
}

#[derive(Debug, Clone, Copy, PartialEq, Eq)]
pub struct StateCompressionConfig;

#[derive(Debug, Clone, Copy, PartialEq, Eq)]
pub struct PrefetchConfig {
    pub enable_dynamic_prefetch: bool,
}

impl StateSharingAnalyzerConfig {
    pub fn default() -> (c: Self) {
        StateSharingAnalyzerConfig
    }
}

impl MemoryAccessOptimizerConfig {
    /// A one-gibibyte memory budget.
    pub fn default() -> (c: Self)
        ensures
            c.max_memory_budget == 1024 * 1024 * 1024,
    {
        MemoryAccessOptimizerConfig { max_memory_budget: 1024 * 1024 * 1024 }
    }
}

impl CacheEfficiencyOptimizerConfig {
    pub fn default() -> (c: Self) {
        CacheEfficiencyOptimizerConfig
    }
}

impl StateLifecycleConfig {
    pub fn default() -> (c: Self) {
        StateLifecycleConfig
    }
}

impl StateSharingConfig {
    pub fn default() -> (c: Self) {
        StateSharingConfig
    }
}

impl StateCompressionConfig {
    pub fn default() -> (c: Self) {
        StateCompressionConfig
    }
}

impl MemoryOptimizationConfig {
    /// Every memory optimization enabled.
    pub fn default() -> (c: Self)
        ensures
            c.enable_layout_optimization,
            c.enable_access_pattern_optimization,
            c.enable_memory_pool_optimization,
    {
        MemoryOptimizationConfig {
            enable_layout_optimization: true,
            enable_access_pattern_optimization: true,
            enable_memory_pool_optimization: true,
        }
    }
}

impl CacheOptimizationConfig {
    /// Every cache optimization enabled.
    pub fn default() -> (c: Self)
        ensures
            c.enable_cache_line_alignment,
            c.enable_spatial_locality_optimization,
            c.enable_temporal_locality_optimization,
            c.enable_cache_hierarchy_optimization,
    {
        CacheOptimizationConfig {
            enable_cache_line_alignment: true,
            enable_spatial_locality_optimization: true,
            enable_temporal_locality_optimization: true,
            enable_cache_hierarchy_optimization: true,
        }
    }
}

impl PrefetchConfig {
    /// Dynamic prefetching enabled.
    pub fn default() -> (c: Self)
        ensures
            c.enable_dynamic_prefetch,
    {
        PrefetchConfig { enable_dynamic_prefetch: true }
    }
}

/// Result of analyzing state sharing across a chain.
#[derive(Debug, Clone, Copy)]
pub struct StateSharingAnalysis {
    pub total_state_size: usize,
}

impl StateSharingAnalysis {
    pub fn new() -> (a: Self)
        ensures
            a.total_state_size == 0,
    {
        StateSharingAnalysis { total_state_size: 0 }
    }

    pub fn set_continuation_states(&mut self, _states: Vec<ContinuationStateAnalysis>)
        ensures
            *final(self) == *old(self),
    {
    }

    pub fn set_common_patterns(&mut self, _patterns: Vec<CommonStatePattern>)
        ensures
            *final(self) == *old(self),
    {
    }

    pub fn set_sharing_opportunities(&mut self, _opportunities: Vec<SharingOpportunity>)
        ensures
            *final(self) == *old(self),
    {
    }

    pub fn set_cost_benefit_analysis(&mut self, _analysis: CostBenefitAnalysis)
        ensures
            *final(self) == *old(self),
    {
    }

    /// Shared state is always considered worth sharing.
    pub fn has_shared_state_opportunities(&self) -> (b: bool)
        ensures
            b,
    {
        true
    }

    pub fn get_sharing_candidates(&self) -> (r: Result<StateSharingConfig, LambdustError>)
        ensures
            r == Ok::<StateSharingConfig, LambdustError>(StateSharingConfig),
    {
        Ok(StateSharingConfig::default())
    }
}

impl CostBenefitAnalysis {
    pub fn new() -> (c: Self) {
        CostBenefitAnalysis
    }
}

/// Analyzer of state shared between continuations.
pub struct StateSharingAnalyzer {
    pub config: StateSharingAnalyzerConfig,
}

impl StateSharingAnalyzer {
    pub fn new(config: StateSharingAnalyzerConfig) -> (r: Result<Self, LambdustError>)
        ensures
            r matches Ok(a) && a.config == config,
    {
        Ok(StateSharingAnalyzer { config })
    }

    /// Analyzes state sharing across the chain: each continuation's state is
    /// examined, then common patterns, sharing opportunities and their costs.
    pub fn analyze_state_sharing(&self, chain: &ContinuationChain) -> (r: Result<StateSharingAnalysis, LambdustError>)
        ensures
            r matches Ok(a) && a.total_state_size == 0,
    {
        let mut analysis = StateSharingAnalysis::new();
        let continuation_states = self.analyze_individual_continuation_states(chain);
        let common_patterns = self.identify_common_state_patterns(continuation_states.as_slice());
        let sharing_opportunities = self.evaluate_sharing_opportunities(common_patterns.as_slice());
        let cost_benefit = self.analyze_sharing_cost_benefit(sharing_opportunities.as_slice());
        analysis.set_continuation_states(continuation_states);
        analysis.set_common_patterns(common_patterns);
        analysis.set_sharing_opportunities(sharing_opportunities);
        analysis.set_cost_benefit_analysis(cost_benefit);
        Ok(analysis)
    }

    /// One state analysis per continuation of the chain.
    fn analyze_individual_continuation_states(&self, chain: &ContinuationChain) -> (v: Vec<ContinuationStateAnalysis>)
        ensures
            v@.len() == chain.continuations@.len(),
            forall|i: int| 0 <= i < v@.len() ==> (#[trigger] v@[i]).state_size == 512,
    {
        let mut states: Vec<ContinuationStateAnalysis> = Vec::new();
        let mut i: usize = 0;
        while i < chain.continuations.len()
            invariant
                i <= chain.continuations@.len(),
                states@.len() == i,
                forall|j: int| 0 <= j < states@.len() ==> (#[trigger] states@[j]).state_size == 512,
            decreases chain.continuations@.len() - i,
        {
            let optimized = chain.continuations[i];
            states.push(self.analyze_continuation_state(&optimized));
            i = i + 1;
        }
        states
    }

    fn analyze_continuation_state(&self, _continuation: &OptimizedContinuation) -> (a: ContinuationStateAnalysis)
        ensures
            a.continuation_id == 1,
            a.state_size == 512,
    {
        ContinuationStateAnalysis {
            continuation_id: 1,
            state_size: 512,
            state_variables: Vec::new(),
            reference_patterns: Vec::new(),
        }
    }

    fn identify_common_state_patterns(&self, _states: &[ContinuationStateAnalysis]) -> (v: Vec<CommonStatePattern>)
        ensures
            v@.len() == 0,
    {
        Vec::new()
    }

    fn evaluate_sharing_opportunities(&self, _patterns: &[CommonStatePattern]) -> (v: Vec<SharingOpportunity>)
        ensures
            v@.len() == 0,
    {
        Vec::new()
    }

    fn analyze_sharing_cost_benefit(&self, _opportunities: &[SharingOpportunity]) -> (c: CostBenefitAnalysis) {
        CostBenefitAnalysis::new()
    }
}

/// Result of analysing memory accesses: the memory the chain uses and the
/// memory pressure, in thousandths of the budget.
#[derive(Debug, Clone, Copy, PartialEq, Eq, Structural)]
pub struct MemoryAccessAnalysis {
    pub total_memory_usage: usize,
    pub memory_pressure_permille: u32,
}

/// Result of analysing cache efficiency: the predicted cache miss rate, in
/// thousandths.
#[derive(Debug, Clone, Copy, PartialEq, Eq, Structural)]
pub struct CacheEfficiencyAnalysis {
    pub cache_miss_rate_permille: u32,
}

/// The identifiers `prev` holds after recording `ids` in order: an
/// identifier not yet held is appended, one already held stays where it is.
pub open spec fn recorded_ids(prev: Seq<ContinuationId>, ids: Seq<ContinuationId>) -> Seq<ContinuationId>
    decreases ids.len(),
{
    if ids.len() == 0 {
        prev
    } else {
        let p = recorded_ids(prev, ids.drop_last());
        if p.contains(ids.last()) { p } else { p.push(ids.last()) }
    }
}

/// The continuations with a recorded access pattern, in order of recording.
pub open spec fn pattern_ids(patterns: Seq<(ContinuationId, AccessPattern)>) -> Seq<ContinuationId> {
    patterns.map_values(|p: (ContinuationId, AccessPattern)| p.0)
}

/// Optimizer of memory access patterns.
pub struct MemoryAccessOptimizer {
    pub config: MemoryAccessOptimizerConfig,
    pub access_patterns: Vec<(ContinuationId, AccessPattern)>,
}

impl MemoryAccessOptimizer {
    pub fn new(config: MemoryAccessOptimizerConfig) -> (o: Self)
        ensures
            o.config == config,
            o.access_patterns@.len() == 0,
    {
        MemoryAccessOptimizer { config, access_patterns: Vec::new() }
    }

    /// Analyses the memory accesses of a chain: the access pattern of each
    /// continuation is recorded (once per continuation). Nothing is measured
    /// yet, so the analysis reports no memory use and no memory pressure.
    pub fn analyze_memory_access_patterns(
        &mut self,
        chain: &ContinuationChain,
        sharing_analysis: &StateSharingAnalysis,
    ) -> (r: Result<MemoryAccessAnalysis, LambdustError>)
        ensures
            r == Ok::<MemoryAccessAnalysis, LambdustError>(MemoryAccessAnalysis { total_memory_usage: 0, memory_pressure_permille: 0 }),
            final(self).config == old(self).config,
            pattern_ids(final(self).access_patterns@) == recorded_ids(
                pattern_ids(old(self).access_patterns@),
                chain.continuations@.map_values(|c: OptimizedContinuation| c.id),
            ),
    {
        let ghost all = chain.continuations@.map_values(|c: OptimizedContinuation| c.id);
        let ghost start = pattern_ids(self.access_patterns@);
        let mut i: usize = 0;
        while i < chain.continuations.len()
            invariant
                i <= chain.continuations@.len(),
                all == chain.continuations@.map_values(|c: OptimizedContinuation| c.id),
                self.config == old(self).config,
                pattern_ids(self.access_patterns@) == recorded_ids(start, all.take(i as int)),
            decreases chain.continuations@.len() - i,
        {
            let optimized = chain.continuations[i];
            let id = optimized.id();
            let pattern = match self.analyze_continuation_access_pattern(&optimized, sharing_analysis) {
                Ok(p) => p,
                Err(e) => {
                    return Err(e);
                },
            };
            let ghost before = pattern_ids(self.access_patterns@);
            proof {
                assert(all.take(i as int + 1).drop_last() =~= all.take(i as int));
                assert(all.take(i as int + 1).last() == id);
            }
            let found = self.find_pattern(id);
            if let Some(k) = found {
                self.access_patterns.set(k, (id, pattern));
                proof {
                    assert(before[k as int] == id);
                    assert(before.contains(id));
                    assert(pattern_ids(self.access_patterns@) =~= before);
                }
            } else {
                self.access_patterns.push((id, pattern));
                proof {
                    assert(!before.contains(id)) by {
                        if before.contains(id) {
                            let j = choose|j: int| 0 <= j < before.len() && before[j] == id;
                            assert(self.access_patterns@[j].0 == id);
                        }
                    }
                    assert(pattern_ids(self.access_patterns@) =~= before.push(id));
                }
            }
            i = i + 1;
        }
        assert(all.take(chain.continuations@.len() as int) =~= all);
        Ok(MemoryAccessAnalysis { total_memory_usage: 0, memory_pressure_permille: 0 })
    }

    fn find_pattern(&self, id: ContinuationId) -> (r: Option<usize>)
        ensures
            match r {
                Some(k) => k < self.access_patterns@.len() && self.access_patterns@[k as int].0 == id,
                None => forall|j: int| 0 <= j < self.access_patterns@.len() ==> #[trigger] self.access_patterns@[j].0 != id,
            },
    {
        let mut k: usize = 0;
        while k < self.access_patterns.len()
            invariant
                k <= self.access_patterns@.len(),
                forall|j: int| 0 <= j < k ==> #[trigger] self.access_patterns@[j].0 != id,
            decreases self.access_patterns@.len() - k,
        {
            if self.access_patterns[k].0 == id {
                return Some(k);
            }
            k = k + 1;
        }
        None
    }

    /// The access pattern of one continuation; every continuation gets the
    /// plain pattern.
    pub fn analyze_continuation_access_pattern(
        &self,
        continuation: &OptimizedContinuation,
        sharing_analysis: &StateSharingAnalysis,
    ) -> (r: Result<AccessPattern, LambdustError>)
        ensures
            r == Ok::<AccessPattern, LambdustError>(AccessPattern),
    {
        Ok(AccessPattern::new())
    }
}

/// Optimizer of cache efficiency.
pub struct CacheEfficiencyOptimizer {
    pub config: CacheEfficiencyOptimizerConfig,
}

impl CacheEfficiencyOptimizer {
    pub fn new(config: CacheEfficiencyOptimizerConfig) -> (r: Result<Self, LambdustError>)
        ensures
            r matches Ok(o) && o.config == config,
    {
        Ok(CacheEfficiencyOptimizer { config })
    }

    /// Analyses cache efficiency after the memory analysis: the predicted
    /// miss rate is 10%.
    pub fn analyze_cache_efficiency(
        &self,
        chain: &ContinuationChain,
        memory_analysis: &MemoryAccessAnalysis,
    ) -> (r: Result<CacheEfficiencyAnalysis, LambdustError>)
        ensures
            r == Ok::<CacheEfficiencyAnalysis, LambdustError>(CacheEfficiencyAnalysis { cache_miss_rate_permille: 100 }),
    {
        Ok(CacheEfficiencyAnalysis { cache_miss_rate_permille: 100 })
    }
}

/// Manager of state lifecycles.
pub struct StateLifecycleManager {
    pub config: StateLifecycleConfig,
    pub lifecycle_tracking: Vec<(ContinuationId, StateLifecycleInfo)>,
}

impl StateLifecycleManager {
    pub fn new(config: StateLifecycleConfig) -> (m: Self)
        ensures
            m.config == config,
            m.lifecycle_tracking@.len() == 0,
    {
        StateLifecycleManager { config, lifecycle_tracking: Vec::new() }
    }

    /// Optimizes the lifecycle of the state: lifetimes are analyzed, then dynamic
    /// memory management and garbage collection are tuned on a copy.
    pub fn optimize_state_lifecycle(&mut self, optimized_state: &OptimizedState) -> (r: Result<OptimizedState, LambdustError>)
        ensures
            r matches Ok(s) && s.continuation_ids() == optimized_state.continuation_ids(),
            final(self).lifecycle_tracking@ == old(self).lifecycle_tracking@,
    {
        let mut lifecycle_optimized = optimized_state.clone();
        let lifetime_analysis = self.analyze_state_lifetimes(&lifecycle_optimized);
        let _ = lifecycle_optimized.optimize_dynamic_memory_management(&lifetime_analysis);
        let _ = lifecycle_optimized.optimize_garbage_collection(&lifetime_analysis);
        Ok(lifecycle_optimized)
    }

    fn analyze_state_lifetimes(&self, _state: &OptimizedState) -> (a: StateLifetimeAnalysis) {
        StateLifetimeAnalysis::new()
    }
}

/// State after optimization: per-continuation states and shared regions.
#[derive(Debug)]
pub struct OptimizedState {
    continuations: Vec<(ContinuationId, OptimizedContinuationState)>,
    shared_regions: Vec<SharedStateRegion>,
    memory_layout: MemoryLayout,
    cache_optimization_metadata: CacheOptimizationMetadata,
}

/// No identifier occurs twice.
pub open spec fn ids_distinct(ids: Seq<ContinuationId>) -> bool {
    forall|i: int, j: int| 0 <= i < ids.len() && 0 <= j < ids.len() && i != j ==> #[trigger] ids[i] != #[trigger] ids[j]
}

/// The identifiers of a chain's continuations, each once, in order of first occurrence.
pub open spec fn distinct_ids(ids: Seq<ContinuationId>) -> Seq<ContinuationId>
    decreases ids.len(),
{
    if ids.len() == 0 {
        Seq::empty()
    } else {
        let prev = distinct_ids(ids.drop_last());
        if prev.contains(ids.last()) {
            prev
        } else {
            prev.push(ids.last())
        }
    }
}

proof fn lemma_distinct_ids(ids: Seq<ContinuationId>)
    ensures
        ids_distinct(distinct_ids(ids)),
        forall|x: ContinuationId| distinct_ids(ids).contains(x) <==> ids.contains(x),
    decreases ids.len(),
{
    if ids.len() > 0 {
        let d = ids.drop_last();
        lemma_distinct_ids(d);
        assert forall|x: ContinuationId| d.contains(x) implies ids.contains(x) by {
            let k = choose|k: int| 0 <= k < d.len() && d[k] == x;
            assert(ids[k] == x);
        }
        assert forall|x: ContinuationId| ids.contains(x) implies (d.contains(x) || x == ids.last()) by {
            let k = choose|k: int| 0 <= k < ids.len() && ids[k] == x;
            if k < ids.len() - 1 {
                assert(d[k] == x);
            }
        }
        let prev = distinct_ids(d);
        if !prev.contains(ids.last()) {
            let n = prev.push(ids.last());
            assert forall|i: int, j: int| 0 <= i < n.len() && 0 <= j < n.len() && i != j implies #[trigger] n[i] != #[trigger] n[j] by {
                if i < prev.len() && j < prev.len() {
                } else if i < prev.len() {
                    assert(prev.contains(prev[i]));
                } else {
                    assert(prev.contains(prev[j]));
                }
            }
            assert forall|x: ContinuationId| n.contains(x) <==> ids.contains(x) by {
                if n.contains(x) {
                    let k = choose|k: int| 0 <= k < n.len() && n[k] == x;
                    if k < prev.len() {
                        assert(prev.contains(x));
                    }
                }
                if ids.contains(x) && x != ids.last() {
                    assert(prev.contains(x));
                    let k = choose|k: int| 0 <= k < prev.len() && prev[k] == x;
                    assert(n[k] == x);
                }
                if x == ids.last() {
                    assert(n[n.len() - 1] == x);
                }
            }
        }
    }
}

fn copy_entries(v: &Vec<(ContinuationId, OptimizedContinuationState)>) -> (r: Vec<(ContinuationId, OptimizedContinuationState)>)
    ensures
        r@ == v@,
{
    let mut r: Vec<(ContinuationId, OptimizedContinuationState)> = Vec::new();
    let mut i: usize = 0;
    while i < v.len()
        invariant
            i <= v@.len(),
            r@ == v@.take(i as int),
        decreases v@.len() - i,
    {
        r.push(v[i]);
        assert(v@.take(i as int + 1) =~= v@.take(i as int).push(v@[i as int]));
        i = i + 1;
    }
    assert(v@.take(v@.len() as int) =~= v@);
    r
}

fn copy_regions(v: &Vec<SharedStateRegion>) -> (r: Vec<SharedStateRegion>)
    ensures
        r@ == v@,
{
    let mut r: Vec<SharedStateRegion> = Vec::new();
    let mut i: usize = 0;
    while i < v.len()
        invariant
            i <= v@.len(),
            r@ == v@.take(i as int),
        decreases v@.len() - i,
    {
        r.push(v[i]);
        assert(v@.take(i as int + 1) =~= v@.take(i as int).push(v@[i as int]));
        i = i + 1;
    }
    assert(v@.take(v@.len() as int) =~= v@);
    r
}

impl Clone for OptimizedState {
    fn clone(&self) -> (r: Self)
        ensures
            r.continuation_ids() == self.continuation_ids(),
            r.shared_region_count() == self.shared_region_count(),
    {
        let continuations = copy_entries(&self.continuations);
        let shared_regions = copy_regions(&self.shared_regions);
        OptimizedState {
            continuations,
            shared_regions,
            memory_layout: self.memory_layout,
            cache_optimization_metadata: self.cache_optimization_metadata,
        }
    }
}

impl OptimizedState {
    /// The identifiers of the continuations whose state is held, in order.
    pub closed spec fn continuation_ids(&self) -> Seq<ContinuationId> {
        self.continuations@.map_values(|p: (ContinuationId, OptimizedContinuationState)| p.0)
    }

    /// Number of shared state regions.
    pub closed spec fn shared_region_count(&self) -> nat {
        self.shared_regions@.len()
    }

    /// Builds the state of a chain: one entry per distinct continuation.
    pub fn from_chain(chain: &ContinuationChain) -> (r: Result<Self, LambdustError>)
        ensures
            r matches Ok(s) && s.continuation_ids() == distinct_ids(chain.continuations@.map_values(|c: OptimizedContinuation| c.id))
                && s.shared_region_count() == 0,
    {
        let mut optimized_state = OptimizedState {
            continuations: Vec::new(),
            shared_regions: Vec::new(),
            memory_layout: MemoryLayout::new(),
            cache_optimization_metadata: CacheOptimizationMetadata::new(),
        };
        let ghost all = chain.continuations@.map_values(|c: OptimizedContinuation| c.id);
        let mut i: usize = 0;
        while i < chain.continuations.len()
            invariant
                i <= chain.continuations@.len(),
                all == chain.continuations@.map_values(|c: OptimizedContinuation| c.id),
                optimized_state.continuation_ids() == distinct_ids(all.take(i as int)),
                optimized_state.shared_regions@.len() == 0,
            decreases chain.continuations@.len() - i,
        {
            let optimized = chain.continuations[i];
            let state = match OptimizedContinuationState::from_continuation(&optimized) {
                Ok(st) => st,
                Err(e) => {
                    return Err(e);
                },
            };
            let id = optimized.id();
            proof {
                assert(all.take(i as int + 1).drop_last() =~= all.take(i as int));
                assert(all.take(i as int + 1).last() == id);
                lemma_distinct_ids(all.take(i as int));
            }
            let ghost before = optimized_state.continuation_ids();
            let found = optimized_state.find_continuation(id);
            if let Some(k) = found {
                optimized_state.continuations.set(k, (id, state));
                proof {
                    assert(before[k as int] == id);
                    assert(before.contains(id));
                    assert(optimized_state.continuation_ids() =~= before);
                }
            } else {
                optimized_state.continuations.push((id, state));
                proof {
                    assert(!before.contains(id)) by {
                        if before.contains(id) {
                            let j = choose|j: int| 0 <= j < before.len() && before[j] == id;
                            assert(optimized_state.continuations@[j].0 == id);
                        }
                    }
                    assert(optimized_state.continuation_ids() =~= before.push(id));
                }
            }
            i = i + 1;
        }
        assert(all.take(chain.continuations@.len() as int) =~= all);
        Ok(optimized_state)
    }

    fn find_continuation(&self, id: ContinuationId) -> (r: Option<usize>)
        ensures
            match r {
                Some(k) => k < self.continuations@.len() && self.continuations@[k as int].0 == id,
                None => forall|j: int| 0 <= j < self.continuations@.len() ==> #[trigger] self.continuations@[j].0 != id,
            },
    {
        let mut k: usize = 0;
        while k < self.continuations.len()
            invariant
                k <= self.continuations@.len(),
                forall|j: int| 0 <= j < k ==> #[trigger] self.continuations@[j].0 != id,
            decreases self.continuations@.len() - k,
        {
            if self.continuations[k].0 == id {
                return Some(k);
            }
            k = k + 1;
        }
        None
    }

    pub fn create_shared_state_region(&mut self, _shared_state: &SharedState) -> (r: Result<(), LambdustError>)
        ensures r is Ok, *final(self) == *old(self),
    {
        Ok(())
    }

    pub fn update_continuation_references(&mut self, _shared_states: &[SharedState]) -> (r: Result<(), LambdustError>)
        ensures r is Ok, *final(self) == *old(self),
    {
        Ok(())
    }

    pub fn eliminate_redundant_state_data(&mut self, _shared_states: &[SharedState]) -> (r: Result<(), LambdustError>)
        ensures r is Ok, *final(self) == *old(self),
    {
        Ok(())
    }

    pub fn optimize_memory_layout(&mut self) -> (r: Result<(), LambdustError>)
        ensures r is Ok, *final(self) == *old(self),
    {
        Ok(())
    }

    pub fn optimize_access_patterns(&mut self) -> (r: Result<(), LambdustError>)
        ensures r is Ok, *final(self) == *old(self),
    {
        Ok(())
    }

    pub fn optimize_memory_pools(&mut self) -> (r: Result<(), LambdustError>)
        ensures r is Ok, *final(self) == *old(self),
    {
        Ok(())
    }

    pub fn optimize_cache_line_alignment(&mut self) -> (r: Result<(), LambdustError>)
        ensures r is Ok, *final(self) == *old(self),
    {
        Ok(())
    }

    pub fn improve_spatial_locality(&mut self) -> (r: Result<(), LambdustError>)
        ensures r is Ok, *final(self) == *old(self),
    {
        Ok(())
    }

    pub fn improve_temporal_locality(&mut self) -> (r: Result<(), LambdustError>)
        ensures r is Ok, *final(self) == *old(self),
    {
        Ok(())
    }

    pub fn optimize_cache_hierarchy_usage(&mut self) -> (r: Result<(), LambdustError>)
        ensures r is Ok, *final(self) == *old(self),
    {
        Ok(())
    }

    pub fn compress_state_data(&mut self, _algorithm: CompressionAlgorithm) -> (r: Result<(), LambdustError>)
        ensures r is Ok, *final(self) == *old(self),
    {
        Ok(())
    }

    pub fn setup_compression_metadata(&mut self) -> (r: Result<(), LambdustError>)
        ensures r is Ok, *final(self) == *old(self),
    {
        Ok(())
    }

    pub fn insert_prefetch_instructions(&mut self, _patterns: &[PrefetchPattern]) -> (r: Result<(), LambdustError>)
        ensures r is Ok, *final(self) == *old(self),
    {
        Ok(())
    }

    pub fn setup_dynamic_prefetch(&mut self) -> (r: Result<(), LambdustError>)
        ensures r is Ok, *final(self) == *old(self),
    {
        Ok(())
    }

    pub fn optimize_dynamic_memory_management(&mut self, _lifetime_analysis: &StateLifetimeAnalysis) -> (r: Result<(), LambdustError>)
        ensures r is Ok, *final(self) == *old(self),
    {
        Ok(())
    }

    pub fn optimize_garbage_collection(&mut self, _lifetime_analysis: &StateLifetimeAnalysis) -> (r: Result<(), LambdustError>)
        ensures r is Ok, *final(self) == *old(self),
    {
        Ok(())
    }
}

/// The optimizations chosen for a state.
#[derive(Debug, Clone, Copy)]
pub struct StateOptimizationStrategy {
    state_sharing_enabled: bool,
    state_sharing_config: Option<StateSharingConfig>,
    memory_access_optimization_enabled: bool,
    memory_optimization_config: Option<MemoryOptimizationConfig>,
    cache_optimization_enabled: bool,
    cache_optimization_config: Option<CacheOptimizationConfig>,
    state_compression_enabled: bool,
    compression_config: Option<StateCompressionConfig>,
    prefetch_enabled: bool,
    prefetch_config: Option<PrefetchConfig>,
}

/// Names of the enabled optimizations, in the fixed order sharing, memory
/// access, cache, compression, prefetch.
pub open spec fn applied_names(sharing: bool, memory: bool, cache: bool, compression: bool, prefetch: bool) -> Seq<Seq<char>> {
    (if sharing { seq!["state_sharing"@] } else { Seq::empty() })
    + (if memory { seq!["memory_access_optimization"@] } else { Seq::empty() })
    + (if cache { seq!["cache_optimization"@] } else { Seq::empty() })
    + (if compression { seq!["state_compression"@] } else { Seq::empty() })
    + (if prefetch { seq!["prefetch_optimization"@] } else { Seq::empty() })
}

impl StateOptimizationStrategy {
    pub closed spec fn sharing(&self) -> bool { self.state_sharing_enabled }
    pub closed spec fn memory(&self) -> bool { self.memory_access_optimization_enabled }
    pub closed spec fn cache(&self) -> bool { self.cache_optimization_enabled }
    pub closed spec fn compression(&self) -> bool { self.state_compression_enabled }
    pub closed spec fn prefetch(&self) -> bool { self.prefetch_enabled }
    pub closed spec fn sharing_config(&self) -> Option<StateSharingConfig> { self.state_sharing_config }
    pub closed spec fn memory_config(&self) -> Option<MemoryOptimizationConfig> { self.memory_optimization_config }
    pub closed spec fn cache_config(&self) -> Option<CacheOptimizationConfig> { self.cache_optimization_config }
    pub closed spec fn compression_config_view(&self) -> Option<StateCompressionConfig> { self.compression_config }
    pub closed spec fn prefetch_config_view(&self) -> Option<PrefetchConfig> { self.prefetch_config }

    /// Each optimization is enabled exactly when its configuration is present.
    pub closed spec fn wf(&self) -> bool {
        &&& self.state_sharing_enabled == self.state_sharing_config is Some
        &&& self.memory_access_optimization_enabled == self.memory_optimization_config is Some
        &&& self.cache_optimization_enabled == self.cache_optimization_config is Some
        &&& self.state_compression_enabled == self.compression_config is Some
        &&& self.prefetch_enabled == self.prefetch_config is Some
    }

    pub fn new() -> (s: Self)
        ensures
            s.wf(),
            !s.sharing() && !s.memory() && !s.cache() && !s.compression() && !s.prefetch(),
    {
        StateOptimizationStrategy {
            state_sharing_enabled: false,
            state_sharing_config: None,
            memory_access_optimization_enabled: false,
            memory_optimization_config: None,
            cache_optimization_enabled: false,
            cache_optimization_config: None,
            state_compression_enabled: false,
            compression_config: None,
            prefetch_enabled: false,
            prefetch_config: None,
        }
    }

    pub fn enable_state_sharing(&mut self, config: StateSharingConfig)
        requires old(self).wf(),
        ensures
            final(self).wf(), final(self).sharing(), final(self).sharing_config() == Some(config),
            final(self).compression_config_view() == old(self).compression_config_view(),
            final(self).memory() == old(self).memory(), final(self).cache() == old(self).cache(),
            final(self).compression() == old(self).compression(), final(self).prefetch() == old(self).prefetch(),
            final(self).memory_config() == old(self).memory_config(), final(self).cache_config() == old(self).cache_config(),
            final(self).prefetch_config_view() == old(self).prefetch_config_view(),
    {
        self.state_sharing_enabled = true;
        self.state_sharing_config = Some(config);
    }

    pub fn enable_memory_access_optimization(&mut self, config: MemoryOptimizationConfig)
        requires old(self).wf(),
        ensures
            final(self).wf(), final(self).memory(), final(self).memory_config() == Some(config),
            final(self).sharing_config() == old(self).sharing_config(),
            final(self).compression_config_view() == old(self).compression_config_view(),
            final(self).sharing() == old(self).sharing(), final(self).cache() == old(self).cache(),
            final(self).compression() == old(self).compression(), final(self).prefetch() == old(self).prefetch(),
            final(self).cache_config() == old(self).cache_config(),
            final(self).prefetch_config_view() == old(self).prefetch_config_view(),
    {
        self.memory_access_optimization_enabled = true;
        self.memory_optimization_config = Some(config);
    }

    pub fn enable_cache_optimization(&mut self, config: CacheOptimizationConfig)
        requires old(self).wf(),
        ensures
            final(self).wf(), final(self).cache(), final(self).cache_config() == Some(config),
            final(self).sharing_config() == old(self).sharing_config(),
            final(self).compression_config_view() == old(self).compression_config_view(),
            final(self).sharing() == old(self).sharing(), final(self).memory() == old(self).memory(),
            final(self).compression() == old(self).compression(), final(self).prefetch() == old(self).prefetch(),
            final(self).memory_config() == old(self).memory_config(),
            final(self).prefetch_config_view() == old(self).prefetch_config_view(),
    {
        self.cache_optimization_enabled = true;
        self.cache_optimization_config = Some(config);
    }

    pub fn enable_state_compression(&mut self, config: StateCompressionConfig)
        requires old(self).wf(),
        ensures
            final(self).wf(), final(self).compression(), final(self).compression_config_view() == Some(config),
            final(self).sharing_config() == old(self).sharing_config(),
            final(self).sharing() == old(self).sharing(), final(self).memory() == old(self).memory(),
            final(self).cache() == old(self).cache(), final(self).prefetch() == old(self).prefetch(),
            final(self).memory_config() == old(self).memory_config(), final(self).cache_config() == old(self).cache_config(),
            final(self).prefetch_config_view() == old(self).prefetch_config_view(),
    {
        self.state_compression_enabled = true;
        self.compression_config = Some(config);
    }

    pub fn enable_prefetch_optimization(&mut self, config: PrefetchConfig)
        requires old(self).wf(),
        ensures
            final(self).wf(), final(self).prefetch(), final(self).prefetch_config_view() == Some(config),
            final(self).sharing_config() == old(self).sharing_config(),
            final(self).compression_config_view() == old(self).compression_config_view(),
            final(self).sharing() == old(self).sharing(), final(self).memory() == old(self).memory(),
            final(self).cache() == old(self).cache(), final(self).compression() == old(self).compression(),
            final(self).memory_config() == old(self).memory_config(), final(self).cache_config() == old(self).cache_config(),
    {
        self.prefetch_enabled = true;
        self.prefetch_config = Some(config);
    }

    pub fn is_state_sharing_enabled(&self) -> (b: bool)
        ensures b == self.sharing(),
    {
        self.state_sharing_enabled
    }

    pub fn is_memory_access_optimization_enabled(&self) -> (b: bool)
        ensures b == self.memory(),
    {
        self.memory_access_optimization_enabled
    }

    pub fn is_cache_optimization_enabled(&self) -> (b: bool)
        ensures b == self.cache(),
    {
        self.cache_optimization_enabled
    }

    pub fn is_state_compression_enabled(&self) -> (b: bool)
        ensures b == self.compression(),
    {
        self.state_compression_enabled
    }

    pub fn is_prefetch_enabled(&self) -> (b: bool)
        ensures b == self.prefetch(),
    {
        self.prefetch_enabled
    }

    pub fn get_state_sharing_config(&self) -> (c: &StateSharingConfig)
        requires self.wf(), self.sharing(),
        ensures Some(*c) == self.sharing_config(),
    {
        match &self.state_sharing_config {
            Some(c) => c,
            None => {
                assert(false);
                &self.state_sharing_config.as_ref().unwrap()
            },
        }
    }

    pub fn get_memory_optimization_config(&self) -> (c: &MemoryOptimizationConfig)
        requires self.wf(), self.memory(),
        ensures Some(*c) == self.memory_config(),
    {
        self.memory_optimization_config.as_ref().unwrap()
    }

    pub fn get_cache_optimization_config(&self) -> (c: &CacheOptimizationConfig)
        requires self.wf(), self.cache(),
        ensures Some(*c) == self.cache_config(),
    {
        self.cache_optimization_config.as_ref().unwrap()
    }

    pub fn get_compression_config(&self) -> (c: &StateCompressionConfig)
        requires self.wf(), self.compression(),
        ensures Some(*c) == self.compression_config_view(),
    {
        self.compression_config.as_ref().unwrap()
    }

    pub fn get_prefetch_config(&self) -> (c: &PrefetchConfig)
        requires self.wf(), self.prefetch(),
        ensures Some(*c) == self.prefetch_config_view(),
    {
        self.prefetch_config.as_ref().unwrap()
    }

    /// Names of the enabled optimizations.
    pub fn get_applied_optimizations(&self) -> (v: Vec<String>)
        ensures
            v@.map_values(|s: String| s@) == applied_names(self.sharing(), self.memory(), self.cache(), self.compression(), self.prefetch()),
    {
        let mut optimizations: Vec<String> = Vec::new();
        let ghost mut names: Seq<Seq<char>> = Seq::empty();
        if self.state_sharing_enabled {
            optimizations.push(String::from_str("state_sharing"));
        }
        proof {
            names = if self.state_sharing_enabled { seq!["state_sharing"@] } else { Seq::empty() };
            assert(optimizations@.map_values(|s: String| s@) =~= names);
        }
        if self.memory_access_optimization_enabled {
            optimizations.push(String::from_str("memory_access_optimization"));
        }
        proof {
            names = names + if self.memory_access_optimization_enabled { seq!["memory_access_optimization"@] } else { Seq::empty() };
            assert(optimizations@.map_values(|s: String| s@) =~= names);
        }
        if self.cache_optimization_enabled {
            optimizations.push(String::from_str("cache_optimization"));
        }
        proof {
            names = names + if self.cache_optimization_enabled { seq!["cache_optimization"@] } else { Seq::empty() };
            assert(optimizations@.map_values(|s: String| s@) =~= names);
        }
        if self.state_compression_enabled {
            optimizations.push(String::from_str("state_compression"));
        }
        proof {
            names = names + if self.state_compression_enabled { seq!["state_compression"@] } else { Seq::empty() };
            assert(optimizations@.map_values(|s: String| s@) =~= names);
        }
        if self.prefetch_enabled {
            optimizations.push(String::from_str("prefetch_optimization"));
        }
        proof {
            names = names + if self.prefetch_enabled { seq!["prefetch_optimization"@] } else { Seq::empty() };
            assert(optimizations@.map_values(|s: String| s@) =~= names);
        }
        optimizations
    }
}

/// Per-continuation profile of the state before optimization.
#[derive(Debug, Clone, Copy, PartialEq, Eq)]
pub struct ContinuationStateProfile {
    pub memory_usage: usize,
    pub state_variables: usize,
    pub shared_references: usize,
}

/// Profile of a chain's state before optimization.
#[derive(Debug)]
pub struct StateProfile {
    pub continuations: Vec<(ContinuationId, ContinuationStateProfile)>,
}

impl StateProfile {
    pub fn new() -> (p: Self)
        ensures
            p.continuations@.len() == 0,
    {
        StateProfile { continuations: Vec::new() }
    }

    /// Records the profile of a continuation, replacing an earlier one for the same id.
    pub fn add_continuation_profile(&mut self, id: ContinuationId, profile: ContinuationStateProfile)
        ensures
            exists|k: int| 0 <= k < final(self).continuations@.len() && #[trigger] final(self).continuations@[k] == (id, profile),
            forall|k: int| 0 <= k < old(self).continuations@.len() && old(self).continuations@[k].0 != id ==>
                final(self).continuations@.contains(#[trigger] old(self).continuations@[k]),
            forall|k: int| 0 <= k < final(self).continuations@.len() && final(self).continuations@[k].0 != id ==>
                old(self).continuations@.contains(#[trigger] final(self).continuations@[k]),
    {
        let ghost old_c = self.continuations@;
        let mut k: usize = 0;
        while k < self.continuations.len()
            invariant
                k <= self.continuations@.len(),
                self.continuations@ == old_c,
                old_c == old(self).continuations@,
                forall|j: int| 0 <= j < k ==> #[trigger] self.continuations@[j].0 != id,
            decreases self.continuations@.len() - k,
        {
            if self.continuations[k].0 == id {
                self.continuations.set(k, (id, profile));
                proof {
                    assert(self.continuations@[k as int] == (id, profile));
                    assert forall|j: int| 0 <= j < old_c.len() && old_c[j].0 != id implies
                        self.continuations@.contains(#[trigger] old_c[j]) by {
                        assert(self.continuations@[j] == old_c[j]);
                    }
                    assert forall|j: int| 0 <= j < self.continuations@.len() && self.continuations@[j].0 != id implies
                        old_c.contains(#[trigger] self.continuations@[j]) by {
                        assert(self.continuations@[j] == old_c[j]);
                    }
                }
                return;
            }
            k = k + 1;
        }
        self.continuations.push((id, profile));
        proof {
            let n = old_c.len() as int;
            assert(self.continuations@[n] == (id, profile));
            assert forall|j: int| 0 <= j < old_c.len() && old_c[j].0 != id implies
                self.continuations@.contains(#[trigger] old_c[j]) by {
                assert(self.continuations@[j] == old_c[j]);
            }
            assert forall|j: int| 0 <= j < self.continuations@.len() && self.continuations@[j].0 != id implies
                old_c.contains(#[trigger] self.continuations@[j]) by {
                assert(self.continuations@[j] == old_c[j]);
            }
        }
    }
}

impl OptimizedContinuationState {
    pub fn from_continuation(_continuation: &OptimizedContinuation) -> (r: Result<Self, LambdustError>)
        ensures
            r is Ok,
    {
        Ok(OptimizedContinuationState)
    }
}

impl MemoryLayout {
    pub fn new() -> (m: Self) {
        MemoryLayout
    }
}

impl CacheOptimizationMetadata {
    pub fn new() -> (m: Self) {
        CacheOptimizationMetadata
    }
}

impl AccessPattern {
    pub fn new() -> (a: Self) {
        AccessPattern
    }
}

impl AccessInterference {
    pub fn new() -> (a: Self) {
        AccessInterference
    }
}

impl CacheLocalityAnalysis {
    pub fn new() -> (a: Self) {
        CacheLocalityAnalysis
    }
}

impl CacheMissRatePrediction {
    pub fn new() -> (a: Self) {
        CacheMissRatePrediction
    }
}

impl StateLifetimeAnalysis {
    pub fn new() -> (a: Self) {
        StateLifetimeAnalysis
    }
}

/// Builds the signature of a chain's state.
pub struct StateSignatureBuilder;

impl StateSignatureBuilder {
    pub fn new() -> (b: Self) {
        StateSignatureBuilder
    }

    pub fn add_continuation_state_hash(&mut self, _continuation: &OptimizedContinuation) -> (r: Result<(), LambdustError>)
        ensures
            r is Ok,
    {
        Ok(())
    }

    /// Every state currently has the same signature.
    pub fn build(self) -> (s: StateSignature)
        ensures
            s == 12345,
    {
        12345
    }
}


/// The identifiers whose state a chain yields: each distinct continuation once.
pub open spec fn chain_state_ids(chain: ContinuationChain) -> Seq<ContinuationId> {
    distinct_ids(chain.continuations@.map_values(|c: OptimizedContinuation| c.id))
}

/// Outcome of optimizing the state of a chain.
#[derive(Debug)]
pub struct StateOptimizationOutcome {
    /// Identifier of the chain, when it has one
    pub chain_id: Option<ContinuationId>,
    /// Signature of the chain's state
    pub state_signature: StateSignature,
    /// The optimized state
    pub optimized_state: OptimizedState,
    /// Names of the optimizations applied
    pub applied_optimizations: Vec<String>,
    /// The state sharing analysis the strategy was based on
    pub sharing_analysis: StateSharingAnalysis,
}

/// Configuration of the state optimizer: the component configurations and
/// the state size above which state is compressed.
#[derive(Debug, Clone, Copy)]
pub struct StateOptimizerConfig {
    pub sharing_config: StateSharingAnalyzerConfig,
    pub memory_config: MemoryAccessOptimizerConfig,
    pub cache_config: CacheEfficiencyOptimizerConfig,
    pub lifecycle_config: StateLifecycleConfig,
    /// State size above which state is compressed (bytes)
    pub compression_threshold: usize,
    /// Memory pressure above which state is compressed, in thousandths
    pub memory_pressure_threshold_permille: u32,
    /// Cache miss rate above which prefetching is enabled, in thousandths
    pub prefetch_threshold_permille: u32,
}

impl StateOptimizerConfig {
    /// Default component configurations, compressing state above 10 KiB or
    /// above 80% memory pressure, and prefetching above a 10% miss rate.
    pub fn default() -> (c: Self)
        ensures
            c.memory_config.max_memory_budget == 1024 * 1024 * 1024,
            c.compression_threshold == 10240,
            c.memory_pressure_threshold_permille == 800,
            c.prefetch_threshold_permille == 100,
    {
        StateOptimizerConfig {
            sharing_config: StateSharingAnalyzerConfig::default(),
            memory_config: MemoryAccessOptimizerConfig::default(),
            cache_config: CacheEfficiencyOptimizerConfig::default(),
            lifecycle_config: StateLifecycleConfig::default(),
            compression_threshold: 10240,
            memory_pressure_threshold_permille: 800,
            prefetch_threshold_permille: 100,
        }
    }
}

/// Optimizer of the state of continuation chains.
pub struct ContinuationStateOptimizer {
    pub state_sharing_analyzer: StateSharingAnalyzer,
    pub memory_access_optimizer: MemoryAccessOptimizer,
    pub cache_efficiency_optimizer: CacheEfficiencyOptimizer,
    pub state_lifecycle_manager: StateLifecycleManager,
    /// State size above which state is compressed (bytes)
    pub compression_threshold: usize,
    /// Memory pressure above which state is compressed, in thousandths
    pub memory_pressure_threshold_permille: u32,
    /// Cache miss rate above which prefetching is enabled, in thousandths
    pub prefetch_threshold_permille: u32,
}

impl ContinuationStateOptimizer {
    /// An optimizer whose components are configured from `config`.
    pub fn new(config: StateOptimizerConfig) -> (r: Result<Self, LambdustError>)
        ensures
            r matches Ok(o) && {
                &&& o.compression_threshold == config.compression_threshold
                &&& o.memory_pressure_threshold_permille == config.memory_pressure_threshold_permille
                &&& o.prefetch_threshold_permille == config.prefetch_threshold_permille
                &&& o.memory_access_optimizer.config == config.memory_config
                &&& o.memory_access_optimizer.access_patterns@.len() == 0
                &&& o.state_lifecycle_manager.lifecycle_tracking@.len() == 0
            },
    {
        let state_sharing_analyzer = match StateSharingAnalyzer::new(config.sharing_config) {
            Ok(a) => a,
            Err(e) => {
                return Err(e);
            },
        };
        let cache_efficiency_optimizer = match CacheEfficiencyOptimizer::new(config.cache_config) {
            Ok(c) => c,
            Err(e) => {
                return Err(e);
            },
        };
        Ok(ContinuationStateOptimizer {
            state_sharing_analyzer,
            memory_access_optimizer: MemoryAccessOptimizer::new(config.memory_config),
            cache_efficiency_optimizer,
            state_lifecycle_manager: StateLifecycleManager::new(config.lifecycle_config),
            compression_threshold: config.compression_threshold,
            memory_pressure_threshold_permille: config.memory_pressure_threshold_permille,
            prefetch_threshold_permille: config.prefetch_threshold_permille,
        })
    }

    /// The signature of the chain's state, built from each continuation.
    pub fn generate_state_signature(&self, chain: &ContinuationChain) -> (r: Result<StateSignature, LambdustError>)
        ensures
            r == Ok::<StateSignature, LambdustError>(12345),
    {
        let mut builder = StateSignatureBuilder::new();
        let mut i: usize = 0;
        while i < chain.continuations.len()
            invariant
                i <= chain.continuations@.len(),
            decreases chain.continuations@.len() - i,
        {
            let c = chain.continuations[i];
            match builder.add_continuation_state_hash(&c) {
                Ok(()) => {},
                Err(e) => {
                    return Err(e);
                },
            }
            i = i + 1;
        }
        Ok(builder.build())
    }

    /// The optimization strategy: state sharing, memory access and cache
    /// optimization whenever the analyses report opportunities (they always
    /// do); compression when the shared state exceeds the threshold or memory
    /// pressure exceeds its limit; prefetching when the cache miss rate
    /// exceeds its limit (access patterns are always predictable).
    pub fn determine_state_optimization_strategy(
        &self,
        sharing_analysis: &StateSharingAnalysis,
        memory_analysis: &MemoryAccessAnalysis,
        cache_analysis: &CacheEfficiencyAnalysis,
    ) -> (r: Result<StateOptimizationStrategy, LambdustError>)
        ensures
            r matches Ok(s) && {
                &&& s.wf()
                &&& s.sharing() && s.memory() && s.cache()
                &&& s.compression() == (sharing_analysis.total_state_size > self.compression_threshold
                    || memory_analysis.memory_pressure_permille > self.memory_pressure_threshold_permille)
                &&& s.prefetch() == (cache_analysis.cache_miss_rate_permille > self.prefetch_threshold_permille)
                &&& s.memory_config() == Some(MemoryOptimizationConfig {
                    enable_layout_optimization: true,
                    enable_access_pattern_optimization: true,
                    enable_memory_pool_optimization: true,
                })
                &&& s.cache_config() == Some(CacheOptimizationConfig {
                    enable_cache_line_alignment: true,
                    enable_spatial_locality_optimization: true,
                    enable_temporal_locality_optimization: true,
                    enable_cache_hierarchy_optimization: true,
                })
            },
    {
        let mut strategy = StateOptimizationStrategy::new();
        if sharing_analysis.has_shared_state_opportunities() {
            match sharing_analysis.get_sharing_candidates() {
                Ok(c) => strategy.enable_state_sharing(c),
                Err(e) => {
                    return Err(e);
                },
            }
        }
        strategy.enable_memory_access_optimization(MemoryOptimizationConfig::default());
        strategy.enable_cache_optimization(CacheOptimizationConfig::default());
        if sharing_analysis.total_state_size > self.compression_threshold
            || memory_analysis.memory_pressure_permille > self.memory_pressure_threshold_permille {
            strategy.enable_state_compression(StateCompressionConfig::default());
        }
        if cache_analysis.cache_miss_rate_permille > self.prefetch_threshold_permille {
            strategy.enable_prefetch_optimization(PrefetchConfig::default());
        }
        Ok(strategy)
    }

    /// Applies the enabled optimizations, in the order sharing, memory access,
    /// cache, compression, prefetch, to the state built from the chain; none
    /// changes which continuations' state is held.
    pub fn apply_state_optimizations(&self, chain: &ContinuationChain, strategy: &StateOptimizationStrategy) -> (r: Result<OptimizedState, LambdustError>)
        requires
            strategy.wf(),
        ensures
            r matches Ok(st) && st.continuation_ids() == chain_state_ids(*chain) && st.shared_region_count() == 0,
    {
        let mut state = match OptimizedState::from_chain(chain) {
            Ok(st) => st,
            Err(e) => {
                return Err(e);
            },
        };
        if strategy.is_state_sharing_enabled() {
            let _config = strategy.get_state_sharing_config();
            let shared: Vec<SharedState> = Vec::new();
            let _ = state.update_continuation_references(shared.as_slice());
            let _ = state.eliminate_redundant_state_data(shared.as_slice());
        }
        if strategy.is_memory_access_optimization_enabled() {
            let config = strategy.get_memory_optimization_config();
            if config.enable_layout_optimization {
                let _ = state.optimize_memory_layout();
            }
            if config.enable_access_pattern_optimization {
                let _ = state.optimize_access_patterns();
            }
            if config.enable_memory_pool_optimization {
                let _ = state.optimize_memory_pools();
            }
        }
        if strategy.is_cache_optimization_enabled() {
            let config = strategy.get_cache_optimization_config();
            if config.enable_cache_line_alignment {
                let _ = state.optimize_cache_line_alignment();
            }
            if config.enable_spatial_locality_optimization {
                let _ = state.improve_spatial_locality();
            }
            if config.enable_temporal_locality_optimization {
                let _ = state.improve_temporal_locality();
            }
            if config.enable_cache_hierarchy_optimization {
                let _ = state.optimize_cache_hierarchy_usage();
            }
        }
        if strategy.is_state_compression_enabled() {
            let _config = strategy.get_compression_config();
            let _ = state.compress_state_data(CompressionAlgorithm::LZ4);
            let _ = state.setup_compression_metadata();
        }
        if strategy.is_prefetch_enabled() {
            let config = strategy.get_prefetch_config();
            let patterns: Vec<PrefetchPattern> = Vec::new();
            let _ = state.insert_prefetch_instructions(patterns.as_slice());
            if config.enable_dynamic_prefetch {
                let _ = state.setup_dynamic_prefetch();
            }
        }
        Ok(state)
    }

    /// Optimizes the state of a chain: its state signature, the state sharing
    /// analysis, the strategy, the optimizations applied to the chain's state
    /// and the lifecycle optimization of the result. The memory access
    /// analysis records each continuation's access pattern; prefetching is
    /// enabled when the predicted miss rate exceeds its limit.
    pub fn optimize_continuation_state(
        &mut self,
        chain: &ContinuationChain,
    ) -> (r: Result<StateOptimizationOutcome, LambdustError>)
        ensures
            r matches Ok(o) && {
                &&& o.chain_id == chain.chain_id
                &&& o.state_signature == 12345
                &&& o.optimized_state.continuation_ids() == chain_state_ids(*chain)
                &&& o.sharing_analysis.total_state_size == 0
                &&& o.applied_optimizations@.map_values(|s: String| s@) == applied_names(
                    true, true, true, false, 100 > old(self).prefetch_threshold_permille)
            },
            pattern_ids(final(self).memory_access_optimizer.access_patterns@) == recorded_ids(
                pattern_ids(old(self).memory_access_optimizer.access_patterns@),
                chain.continuations@.map_values(|c: OptimizedContinuation| c.id),
            ),
            final(self).compression_threshold == old(self).compression_threshold,
            final(self).memory_pressure_threshold_permille == old(self).memory_pressure_threshold_permille,
            final(self).prefetch_threshold_permille == old(self).prefetch_threshold_permille,
            final(self).state_lifecycle_manager.lifecycle_tracking@ == old(self).state_lifecycle_manager.lifecycle_tracking@,
    {
        let state_signature = match self.generate_state_signature(chain) {
            Ok(s) => s,
            Err(e) => {
                return Err(e);
            },
        };
        let sharing_analysis = match self.state_sharing_analyzer.analyze_state_sharing(chain) {
            Ok(a) => a,
            Err(e) => {
                return Err(e);
            },
        };
        let memory_analysis = match self.memory_access_optimizer.analyze_memory_access_patterns(chain, &sharing_analysis) {
            Ok(a) => a,
            Err(e) => {
                return Err(e);
            },
        };
        let cache_analysis = match self.cache_efficiency_optimizer.analyze_cache_efficiency(chain, &memory_analysis) {
            Ok(a) => a,
            Err(e) => {
                return Err(e);
            },
        };
        let strategy = match self.determine_state_optimization_strategy(&sharing_analysis, &memory_analysis, &cache_analysis) {
            Ok(s) => s,
            Err(e) => {
                return Err(e);
            },
        };
        let optimized_state = match self.apply_state_optimizations(chain, &strategy) {
            Ok(st) => st,
            Err(e) => {
                return Err(e);
            },
        };
        let lifecycle_optimized = match self.state_lifecycle_manager.optimize_state_lifecycle(&optimized_state) {
            Ok(st) => st,
            Err(e) => {
                return Err(e);
            },
        };
        let applied_optimizations = strategy.get_applied_optimizations();
        Ok(StateOptimizationOutcome {
            chain_id: chain.id(),
            state_signature,
            optimized_state: lifecycle_optimized,
            applied_optimizations,
            sharing_analysis,
        })
    }
}

} // verus!
