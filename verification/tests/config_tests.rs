use lambdust::jit::config::{
    CompilationStrategy, EvictionPolicy, MemoryConfig, OptimizationConfig,
    ProfileGuidedOptimizerConfig, SecurityConfig,
};

#[test]
fn test_eviction_policy_display() {
    assert_eq!(EvictionPolicy::LRU.to_string(), "lru");
    assert_eq!(EvictionPolicy::AdaptiveLRU.to_string(), "adaptive_lru");
}

#[test]
fn test_compilation_strategy_display() {
    assert_eq!(CompilationStrategy::Lazy.to_string(), "lazy");
    assert_eq!(CompilationStrategy::Adaptive.to_string(), "adaptive");
}

#[test]
fn test_optimization_config_presets() {
    let dev_config = OptimizationConfig::development();
    let prod_config = OptimizationConfig::production();
    let aggressive_config = OptimizationConfig::aggressive();

    assert!(dev_config.optimization_level < prod_config.optimization_level);
    assert!(prod_config.optimization_level < aggressive_config.optimization_level);
    assert!(dev_config.max_inline_size < prod_config.max_inline_size);
    assert!(prod_config.max_inline_size < aggressive_config.max_inline_size);
}

#[test]
fn remaining_policy_and_strategy_names() {
    assert_eq!(EvictionPolicy::LFU.to_string(), "lfu");
    assert_eq!(EvictionPolicy::FIFO.to_string(), "fifo");
    assert_eq!(EvictionPolicy::Random.to_string(), "random");
    assert_eq!(CompilationStrategy::Eager.to_string(), "eager");
    assert_eq!(CompilationStrategy::Background.to_string(), "background");
    assert_eq!(CompilationStrategy::default(), CompilationStrategy::Adaptive);
}

#[test]
fn profile_presets() {
    let dev = ProfileGuidedOptimizerConfig::development();
    assert_eq!(dev.min_profile_executions, 50);
    assert!(!dev.enable_branch_profiling);
    assert_eq!(dev.profile_retention_time.as_secs(), 1800);
    let prod = ProfileGuidedOptimizerConfig::production();
    assert_eq!(prod.profile_collection_duration.as_secs(), 120);
    assert!(prod.enable_memory_profiling);
    let aggr = ProfileGuidedOptimizerConfig::aggressive();
    assert_eq!(aggr.min_profile_executions, 500);
    assert_eq!(aggr.profile_retention_time.as_secs(), 14400);
    let def = ProfileGuidedOptimizerConfig::default();
    assert_eq!(def.profile_collection_duration.as_secs(), 60);
    assert!(!def.enable_memory_profiling);
}

#[test]
fn memory_and_security_defaults() {
    let m = MemoryConfig::default();
    assert_eq!(m.initial_code_buffer_size, 64 * 1024);
    assert_eq!(m.code_gc_interval.as_secs(), 300);
    let s = SecurityConfig::default();
    assert!(s.enable_stack_protection);
    assert!(!s.enable_sandboxing);
    assert_eq!(s.max_executable_memory, 64 * 1024 * 1024);
    let o = OptimizationConfig::default();
    assert_eq!(o.optimization_level, 1);
    assert_eq!(o.max_inline_depth, 3);
}

#[test]
fn jit_cache_config_converts_to_code_cache_config() {
    let config = lambdust::jit::config::CacheConfig::default();
    assert_eq!(config.max_entries, 2000);
    let cache = config.to_code_cache_config();
    assert_eq!(cache.max_memory_bytes, 128 * 1024 * 1024);
    assert_eq!(cache.max_entries, 2000);
    assert_eq!(cache.memory_pressure_threshold_percent, 80);
    assert!(cache.enable_lru_eviction);
    assert_eq!(cache.compaction_interval.as_secs(), 60);
    assert_eq!(cache.min_execution_count_for_retention, 5);
    let mut fifo = lambdust::jit::config::CacheConfig::default();
    fifo.eviction_policy = lambdust::jit::config::EvictionPolicy::FIFO;
    assert!(!fifo.to_code_cache_config().enable_lru_eviction);
}
