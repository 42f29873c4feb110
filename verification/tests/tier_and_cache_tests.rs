use lambdust::jit::code_cache::{select_evictions, CacheConfig, CacheEntry, CachePriority, CodeCache};
use lambdust::value::Expr;
use lambdust::jit::code_generator::{
    CodeMetadata, FunctionSignature, MemoryLayout, MemoryRequirements, NativeCode, SchemeType,
};
use lambdust::jit::compilation_tiers::{CompilationTier, PerformanceTrend, TierConfig, TierManager, TieredCode};
use lambdust::time::{Duration, Instant};

fn create_test_native_code() -> NativeCode {
    NativeCode {
        machine_code: vec![0x90; 16],
        entry_point: 0,
        metadata: CodeMetadata {
            source_expr: "test".to_string(),
            compilation_tier: CompilationTier::JitBasic,
            safe_points: Vec::new(),
            variable_locations: Vec::new(),
            inlined_functions: Vec::new(),
        },
        signature: FunctionSignature {
            parameter_count: 0,
            is_variadic: false,
            return_type: SchemeType::Any,
            parameter_types: Vec::new(),
        },
        memory_layout: MemoryLayout {
            stack_frame_size: 64,
            gc_roots: Vec::new(),
            memory_requirements: MemoryRequirements { stack_bytes: 64, heap_bytes: 0, temp_bytes: 32 },
        },
    }
}

#[test]
fn test_compilation_tier_ordering() {
    assert!(CompilationTier::Interpreter < CompilationTier::Bytecode);
    assert!(CompilationTier::Bytecode < CompilationTier::JitBasic);
    assert!(CompilationTier::JitBasic < CompilationTier::JitOptimized);
}

#[test]
fn test_tiered_code() {
    let mut code = TieredCode::new(CompilationTier::Bytecode);
    assert_eq!(code.execution_count, 0);

    code.record_execution(Duration::from_micros(100));
    assert_eq!(code.execution_count, 1);
}

#[test]
fn test_cache_entry_creation() {
    let code = create_test_native_code();
    let entry = CacheEntry::new("test".to_string(), code);

    assert_eq!(entry.key, "test");
    assert_eq!(entry.access_count, 0);
    assert_eq!(entry.execution_count, 0);
}

#[test]
fn test_cache_entry_access() {
    let code = create_test_native_code();
    let mut entry = CacheEntry::new("test".to_string(), code);

    entry.record_access();
    assert_eq!(entry.access_count, 1);

    entry.record_execution(Duration::from_micros(100));
    assert_eq!(entry.execution_count, 1);
    assert_eq!(entry.avg_execution_time, Duration::from_micros(100));
}

#[test]
fn tier_names_times_and_successors() {
    assert_eq!(CompilationTier::Interpreter.name(), "Interpreter");
    assert_eq!(CompilationTier::JitBasic.name(), "JIT Basic");
    assert_eq!(CompilationTier::JitOptimized.name(), "JIT Optimized");
    assert_eq!(CompilationTier::Interpreter.compilation_time(), Duration::zero());
    assert_eq!(CompilationTier::Bytecode.compilation_time().as_nanos(), 100_000);
    assert_eq!(CompilationTier::JitBasic.compilation_time().as_nanos(), 5_000_000);
    assert_eq!(CompilationTier::JitOptimized.compilation_time().as_nanos(), 50_000_000);
    assert_eq!(CompilationTier::Interpreter.next_tier(), Some(CompilationTier::Bytecode));
    assert_eq!(CompilationTier::JitBasic.next_tier(), Some(CompilationTier::JitOptimized));
    assert_eq!(CompilationTier::JitOptimized.next_tier(), None);
}

#[test]
fn tiered_code_average_and_total() {
    let mut code = TieredCode::new(CompilationTier::JitBasic);
    code.record_execution(Duration::from_micros(100));
    code.record_execution(Duration::from_micros(300));
    assert_eq!(code.execution_count, 2);
    assert_eq!(code.total_execution_time, Duration::from_micros(400));
    assert_eq!(code.avg_execution_time, Duration::from_micros(200));
}

#[test]
fn trend_needs_ten_samples() {
    let mut code = TieredCode::new(CompilationTier::Bytecode);
    for _ in 0..9 {
        code.record_execution(Duration::from_micros(100));
    }
    assert_eq!(code.performance_trend(), PerformanceTrend::Insufficient);
    code.record_execution(Duration::from_micros(100));
    assert_eq!(code.performance_trend(), PerformanceTrend::Stable);
}

#[test]
fn trend_detects_improvement_and_degradation() {
    let mut faster = TieredCode::new(CompilationTier::Bytecode);
    for i in 0..10u64 {
        let t = if i < 5 { 1000 } else { 800 };
        faster.record_execution(Duration::from_nanos(t));
    }
    assert_eq!(faster.performance_trend(), PerformanceTrend::Improving);

    let mut slower = TieredCode::new(CompilationTier::Bytecode);
    for i in 0..10u64 {
        let t = if i < 5 { 1000 } else { 1200 };
        slower.record_execution(Duration::from_nanos(t));
    }
    assert_eq!(slower.performance_trend(), PerformanceTrend::Degrading);

    let mut zero_first = TieredCode::new(CompilationTier::Bytecode);
    for i in 0..10u64 {
        let t = if i < 5 { 0 } else { 5 };
        zero_first.record_execution(Duration::from_nanos(t));
    }
    assert_eq!(zero_first.performance_trend(), PerformanceTrend::Degrading);
}

#[test]
fn trend_window_keeps_last_twenty() {
    let mut code = TieredCode::new(CompilationTier::Bytecode);
    // Ten slow runs followed by twenty fast ones: the slow runs leave the window.
    for _ in 0..10 {
        code.record_execution(Duration::from_micros(900));
    }
    for _ in 0..20 {
        code.record_execution(Duration::from_micros(100));
    }
    assert_eq!(code.performance_trend(), PerformanceTrend::Stable);
}

#[test]
fn cache_entry_records_at_given_time() {
    let start = Instant::from_epoch_nanos(1_000);
    let later = Instant::from_epoch_nanos(5_000);
    let mut entry = CacheEntry::new_at("k".to_string(), create_test_native_code(), start);
    assert_eq!(entry.created_at, start);
    assert_eq!(entry.priority, CachePriority::Normal);
    assert_eq!(entry.memory_usage, 16 + std::mem::size_of::<CacheEntry>());
    entry.record_access_at(later);
    assert_eq!(entry.last_accessed, later);
    assert_eq!(entry.created_at, start);
    assert_eq!(entry.access_count, 1);
}

#[test]
fn cache_priority_order() {
    assert!(CachePriority::Low < CachePriority::Normal);
    assert!(CachePriority::High < CachePriority::Critical);
}

#[test]
fn test_cache_config_default() {
    let config = CacheConfig::default();
    assert_eq!(config.max_memory_bytes, 64 * 1024 * 1024);
    assert_eq!(config.max_entries, 10000);
    assert!(config.enable_lru_eviction);
}

fn entry(key: &str, priority: CachePriority, executions: u64) -> (String, CacheEntry) {
    let mut e = CacheEntry::new_at(key.to_string(), create_test_native_code(), Instant::from_epoch_nanos(0));
    e.priority = priority;
    e.execution_count = executions;
    e.memory_usage = 100;
    (key.to_string(), e)
}

#[test]
fn eviction_walks_lru_order_skipping_retained_entries() {
    let entries = vec![
        entry("a", CachePriority::Low, 0),
        entry("b", CachePriority::High, 0),
        entry("c", CachePriority::Normal, 500),
        entry("d", CachePriority::Normal, 0),
        entry("e", CachePriority::Low, 0),
    ];
    let lru: Vec<String> = ["a", "b", "missing", "c", "d", "e"].iter().map(|k| k.to_string()).collect();
    let config = CacheConfig::default();
    // Enough memory is freed after two evictions.
    assert_eq!(select_evictions(&entries, &lru, 150, &config), vec!["a".to_string(), "d".to_string()]);
    // Nothing to free: nothing is evicted.
    assert!(select_evictions(&entries, &lru, 0, &config).is_empty());
    // Without execution-based retention, the frequently executed entry goes too.
    let mut no_retention = config;
    no_retention.execution_based_retention = false;
    assert_eq!(
        select_evictions(&entries, &lru, 1000, &no_retention),
        vec!["a".to_string(), "c".to_string(), "d".to_string(), "e".to_string()]
    );
}

#[test]
fn code_cache_store_get_invalidate_clear() {
    let mut cache = CodeCache::new(CacheConfig::default()).unwrap();
    let x = Expr::Variable("x".to_string());
    let y = Expr::Variable("y".to_string());
    cache.store(Expr::Variable("x".to_string()), create_test_native_code()).unwrap();
    assert_eq!(cache.size().unwrap(), 1);
    assert_eq!(cache.memory_usage().unwrap(), 16 + std::mem::size_of::<CacheEntry>());
    let hit = cache.get(&x).unwrap();
    assert_eq!(hit.map(|c| c.machine_code.len()), Some(16));
    assert!(cache.get(&y).unwrap().is_none());
    let stats = cache.stats().unwrap();
    assert_eq!((stats.entries_stored, stats.current_entries, stats.cache_hits, stats.cache_misses), (1, 1, 1, 1));
    cache.record_execution(&x, Duration::from_millis(4)).unwrap();
    cache.invalidate(&x).unwrap();
    assert_eq!(cache.size().unwrap(), 0);
    assert_eq!(cache.memory_usage().unwrap(), 0);
    let stats = cache.stats().unwrap();
    assert_eq!((stats.entries_evicted, stats.current_entries), (1, 0));
    // Invalidating code that is not cached still counts an eviction.
    cache.invalidate(&y).unwrap();
    assert_eq!(cache.stats().unwrap().entries_evicted, 2);
    cache.store(Expr::Variable("y".to_string()), create_test_native_code()).unwrap();
    cache.clear().unwrap();
    assert_eq!(cache.size().unwrap(), 0);
    assert_eq!(cache.memory_usage().unwrap(), 0);
    assert_eq!(cache.stats().unwrap().current_entries, 0);
    assert!(cache.get(&y).unwrap().is_none());
}

#[test]
fn code_cache_store_under_pressure_evicts_least_recent() {
    let mut config = CacheConfig::default();
    config.max_memory_bytes = 100;
    let mut cache = CodeCache::new(config).unwrap();
    let a = Expr::Variable("a".to_string());
    let b = Expr::Variable("b".to_string());
    let m = 16 + std::mem::size_of::<CacheEntry>();
    // Over the limit at once, but the LRU order is still empty: nothing is selected.
    cache.store(Expr::Variable("a".to_string()), create_test_native_code()).unwrap();
    assert_eq!(cache.stats().unwrap().entries_evicted, 0);
    assert_eq!(cache.memory_usage().unwrap(), m);
    // Now "a" is the least recently used key: it is evicted and its memory freed.
    cache.store(Expr::Variable("b".to_string()), create_test_native_code()).unwrap();
    let stats = cache.stats().unwrap();
    assert_eq!(stats.entries_evicted, 1);
    assert_eq!(stats.current_entries, 1);
    assert_eq!(stats.entries_stored, 2);
    assert_eq!(cache.size().unwrap(), 1);
    assert!(cache.get(&a).unwrap().is_none());
    assert!(cache.get(&b).unwrap().is_some());
    assert_eq!(cache.memory_usage().unwrap(), m);
}

#[test]
fn cache_entry_access_times_never_decrease() {
    let mut entry = CacheEntry::new("k".to_string(), create_test_native_code());
    let first = entry.last_accessed.nanos_since_epoch();
    entry.record_access();
    let second = entry.last_accessed.nanos_since_epoch();
    entry.record_access();
    let third = entry.last_accessed.nanos_since_epoch();
    assert!(first <= second && second <= third);
    assert_eq!(entry.access_count, 2);
}

#[test]
fn code_cache_eviction_spares_retained_entries() {
    let mut config = CacheConfig::default();
    config.max_memory_bytes = 100;
    let mut cache = CodeCache::new(config).unwrap();
    let p = Expr::Variable("p".to_string());
    let a = Expr::Variable("a".to_string());
    let m = 16 + std::mem::size_of::<CacheEntry>();
    cache.store(Expr::Variable("p".to_string()), create_test_native_code()).unwrap();
    cache.set_priority(&p, CachePriority::Critical);
    assert_eq!(cache.cached_entry(&p).map(|e| e.priority), Some(CachePriority::Critical));
    // Under pressure, but the only key in the LRU order is retained: nothing is evicted.
    cache.store(Expr::Variable("a".to_string()), create_test_native_code()).unwrap();
    assert_eq!(cache.stats().unwrap().entries_evicted, 0);
    assert_eq!(cache.size().unwrap(), 2);
    // Next time the retained entry is skipped and "a" is evicted.
    cache.store(Expr::Variable("b".to_string()), create_test_native_code()).unwrap();
    assert_eq!(cache.stats().unwrap().entries_evicted, 1);
    assert!(cache.cached_entry(&p).is_some());
    assert!(cache.cached_entry(&a).is_none());
    assert_eq!(cache.size().unwrap(), 2);
    assert_eq!(cache.memory_usage().unwrap(), 2 * m);
}

#[test]
fn test_tier_manager() {
    let mut manager = TierManager::new(TierConfig::default()).unwrap();
    let expr = Expr::Literal(lambdust::value::Value::Number(lambdust::value::SchemeNumber::Integer(42)));
    // A fresh profile: no executions yet.
    let tier = manager.select_tier(&expr, 0, Duration::zero()).unwrap();
    assert_eq!(tier, CompilationTier::Interpreter);
}

#[test]
fn tier_manager_initial_tiers_tier_up_and_deoptimization() {
    let mut manager = TierManager::new(TierConfig::default()).unwrap();
    let e = Expr::Variable("f".to_string());
    assert_eq!(manager.select_tier(&e, 5, Duration::zero()).unwrap(), CompilationTier::Bytecode);
    assert_eq!(manager.select_tier(&e, 50, Duration::from_millis(2)).unwrap(), CompilationTier::JitBasic);
    assert_eq!(manager.select_tier(&e, 50, Duration::from_micros(500)).unwrap(), CompilationTier::Bytecode);
    manager.record_compiled_code(&e, CompilationTier::Bytecode, None, Duration::from_micros(3)).unwrap();
    assert_eq!(manager.stats().compilations_by_tier, vec![(CompilationTier::Bytecode, 1)]);
    // Recorded code keeps its tier until it has run often and long enough.
    assert_eq!(manager.select_tier(&e, 0, Duration::zero()).unwrap(), CompilationTier::Bytecode);
    for _ in 0..60 {
        manager.record_execution(&e, Duration::from_millis(1)).unwrap();
    }
    // Bytecode to basic JIT is an 8/3 speedup, above the twofold threshold.
    assert_eq!(manager.select_tier(&e, 0, Duration::zero()).unwrap(), CompilationTier::JitBasic);
    // Deoptimization falls back one tier; unknown code is at the interpreter.
    assert_eq!(manager.deoptimize(&e, "guard failed".to_string()).unwrap(), CompilationTier::Interpreter);
    assert_eq!(manager.deoptimize(&Expr::Variable("g".to_string()), "x".to_string()).unwrap(), CompilationTier::Interpreter);
    // Speculation needs a promising score, more than twenty runs and stable performance.
    assert_eq!(manager.speculative_compile(&e, false).unwrap(), None);
}

#[test]
fn tier_manager_refuses_deoptimization_when_disabled() {
    let mut config = TierConfig::default();
    config.enable_deoptimization = false;
    let mut manager = TierManager::new(config).unwrap();
    assert!(manager.deoptimize(&Expr::Variable("f".to_string()), "x".to_string()).is_err());
}
