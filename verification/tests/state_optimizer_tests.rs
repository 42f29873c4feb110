use lambdust::jit::continuation_state_optimizer::{
    CacheEfficiencyOptimizer, CacheEfficiencyOptimizerConfig, MemoryAccessOptimizer,
    MemoryAccessOptimizerConfig, StateLifecycleConfig, StateLifecycleManager,
    StateOptimizationStrategy, StateSharingAnalyzer, StateSharingAnalyzerConfig,
    StateSharingConfig,
};

#[test]
fn test_optimization_strategy() {
    let mut strategy = StateOptimizationStrategy::new();
    assert!(!strategy.is_state_sharing_enabled());

    strategy.enable_state_sharing(StateSharingConfig::default());
    assert!(strategy.is_state_sharing_enabled());

    let optimizations = strategy.get_applied_optimizations();
    assert!(optimizations.contains(&"state_sharing".to_string()));
}

#[test]
fn test_state_sharing_analyzer() {
    let config = StateSharingAnalyzerConfig::default();
    let analyzer = StateSharingAnalyzer::new(config);
    assert!(analyzer.is_ok());
}

#[test]
fn test_memory_access_optimizer() {
    let config = MemoryAccessOptimizerConfig::default();
    let optimizer = MemoryAccessOptimizer::new(config);
    assert_eq!(optimizer.access_patterns.len(), 0);
    assert_eq!(optimizer.config.max_memory_budget, 1024 * 1024 * 1024);
}

#[test]
fn test_cache_efficiency_optimizer() {
    let config = CacheEfficiencyOptimizerConfig::default();
    let optimizer = CacheEfficiencyOptimizer::new(config);
    assert!(optimizer.is_ok());
}

#[test]
fn test_state_lifecycle_manager() {
    let config = StateLifecycleConfig::default();
    let manager = StateLifecycleManager::new(config);
    assert_eq!(manager.lifecycle_tracking.len(), 0);
}

use lambdust::continuations::{ContinuationChain, OptimizedContinuation};
use lambdust::jit::continuation_state_optimizer::{
    CacheEfficiencyAnalysis, ContinuationStateOptimizer, MemoryAccessAnalysis, StateOptimizerConfig, StateSharingAnalysis,
};

#[test]
fn state_optimization_runs_the_pipeline() {
    let mut optimizer = ContinuationStateOptimizer::new(StateOptimizerConfig::default()).unwrap();
    let chain = ContinuationChain {
        chain_id: None,
        continuations: vec![OptimizedContinuation { id: 4 }, OptimizedContinuation { id: 4 }, OptimizedContinuation { id: 5 }],
    };
    assert_eq!(optimizer.generate_state_signature(&chain).unwrap(), 12345);
    // The predicted miss rate (10%) does not exceed the default limit (10%).
    let outcome = optimizer.optimize_continuation_state(&chain).unwrap();
    assert_eq!(outcome.chain_id, None);
    assert_eq!(outcome.applied_optimizations, vec!["state_sharing", "memory_access_optimization", "cache_optimization"]);
    assert_eq!(outcome.sharing_analysis.total_state_size, 0);
    // Each continuation's access pattern is recorded once.
    let ids: Vec<u64> = optimizer.memory_access_optimizer.access_patterns.iter().map(|p| p.0).collect();
    assert_eq!(ids, vec![4, 5]);
    // With a lower limit the miss rate enables prefetching.
    let mut config = StateOptimizerConfig::default();
    config.prefetch_threshold_permille = 50;
    let mut eager = ContinuationStateOptimizer::new(config).unwrap();
    let outcome = eager.optimize_continuation_state(&chain).unwrap();
    assert_eq!(
        outcome.applied_optimizations,
        vec!["state_sharing", "memory_access_optimization", "cache_optimization", "prefetch_optimization"]
    );
}

#[test]
fn compression_follows_state_size_or_memory_pressure() {
    let optimizer = ContinuationStateOptimizer::new(StateOptimizerConfig::default()).unwrap();
    let small = StateSharingAnalysis { total_state_size: 100 };
    let big = StateSharingAnalysis { total_state_size: 20000 };
    let calm = MemoryAccessAnalysis { total_memory_usage: 0, memory_pressure_permille: 0 };
    let pressed = MemoryAccessAnalysis { total_memory_usage: 0, memory_pressure_permille: 900 };
    let hits = CacheEfficiencyAnalysis { cache_miss_rate_permille: 100 };
    let misses = CacheEfficiencyAnalysis { cache_miss_rate_permille: 300 };
    assert!(!optimizer.determine_state_optimization_strategy(&small, &calm, &hits).unwrap().is_state_compression_enabled());
    assert!(optimizer.determine_state_optimization_strategy(&big, &calm, &hits).unwrap().is_state_compression_enabled());
    assert!(optimizer.determine_state_optimization_strategy(&small, &pressed, &hits).unwrap().is_state_compression_enabled());
    assert!(!optimizer.determine_state_optimization_strategy(&small, &calm, &hits).unwrap().is_prefetch_enabled());
    assert!(optimizer.determine_state_optimization_strategy(&small, &calm, &misses).unwrap().is_prefetch_enabled());
}

#[test]
fn test_state_optimizer_creation() {
    let config = StateOptimizerConfig::default();
    let optimizer = ContinuationStateOptimizer::new(config);
    assert!(optimizer.is_ok());
}
