use lambdust::jit::code_generator::{
    CodeMetadata, FunctionSignature, MemoryLayout, MemoryRequirements, NativeCode, SchemeType,
};
use lambdust::jit::compilation_tiers::CompilationTier;
use lambdust::jit::continuation_support::{ContinuationAware, ContinuationConfig, StackScanStrategy};
use lambdust::jit::dependent_hotspot_detector::SpecializationTier;
use lambdust::jit::hot_continuation_detector::{
    add_execution_to_history, calculate_observation_period, DetectorSystemStats, ExecutionEvent,
};
use lambdust::jit::jit_runtime::JitRuntimeStats;
use lambdust::time::{Duration, Instant};
use lambdust::value::{Environment, Value};

fn native_code() -> NativeCode {
    NativeCode {
        machine_code: vec![0x90; 4],
        entry_point: 0,
        metadata: CodeMetadata {
            source_expr: "x".to_string(),
            compilation_tier: CompilationTier::JitOptimized,
            safe_points: Vec::new(),
            variable_locations: Vec::new(),
            inlined_functions: Vec::new(),
        },
        signature: FunctionSignature {
            parameter_count: 0,
            is_variadic: false,
            return_type: SchemeType::Any,
            parameter_types: Vec::new(),
        },
        memory_layout: MemoryLayout {
            stack_frame_size: 32,
            gc_roots: Vec::new(),
            memory_requirements: MemoryRequirements { stack_bytes: 32, heap_bytes: 0, temp_bytes: 16 },
        },
    }
}

#[test]
fn runtime_stats_split_compiled_and_interpreted() {
    let mut stats = JitRuntimeStats::new();

    stats.record_execution("test_fn", Duration::from_millis(10), false);
    assert_eq!(stats.interpreted_executions, 1);
    assert_eq!(stats.compiled_executions, 0);
    assert!(stats.compiled_functions.is_empty());

    stats.record_execution("test_fn", Duration::from_millis(5), true);
    assert_eq!(stats.interpreted_executions, 1);
    assert_eq!(stats.compiled_executions, 1);
    assert_eq!(stats.total_executions, 2);
    assert_eq!(stats.total_execution_time, Duration::from_millis(15));
    assert_eq!(stats.compiled_execution_time, Duration::from_millis(5));
    assert_eq!(stats.compiled_functions.len(), 1);
}

#[test]
fn runtime_stats_keep_first_compiled_time() {
    let mut stats = JitRuntimeStats::new();
    let t1 = Instant::from_epoch_nanos(100);
    let t2 = Instant::from_epoch_nanos(200);
    stats.record_execution_at("f", Duration::from_nanos(1), true, t1);
    stats.record_execution_at("f", Duration::from_nanos(1), true, t2);
    stats.record_execution_at("g", Duration::from_nanos(1), true, t2);
    assert_eq!(stats.compiled_functions.len(), 2);
    assert_eq!(stats.compiled_functions[0].0, "f");
    assert_eq!(stats.compiled_functions[0].1, t1);
    assert_eq!(stats.compiled_functions[1].1, t2);
    assert_eq!(stats.compiled_executions, 3);
}

#[test]
fn native_code_runs_to_unspecified() {
    let code = native_code();
    let mut env = Environment::new();
    assert!(matches!(code.execute(&mut env), Ok(Value::Unspecified)));
    assert_eq!(code.code_size(), 4);
    assert!(code.supports_continuations());
    assert!(code.can_optimize_callcc());
    assert!(code.get_continuation_metadata().is_none());
}

#[test]
fn continuation_config_defaults() {
    let c = ContinuationConfig::default();
    assert_eq!(c.max_stack_depth, 10000);
    assert_eq!(c.max_active_continuations, 1000);
    assert!(!c.enable_delimited_continuations);
    assert_eq!(c.stack_scan_strategy, StackScanStrategy::Conservative);
}

#[test]
fn specialization_tiers_map_to_compilation_tiers() {
    assert_eq!(SpecializationTier::BasicOptimization.to_compilation_tier(), CompilationTier::Bytecode);
    assert_eq!(SpecializationTier::TypeSpecialization.to_compilation_tier(), CompilationTier::JitBasic);
    assert_eq!(SpecializationTier::ProofSpecialization.to_compilation_tier(), CompilationTier::JitOptimized);
    assert_eq!(SpecializationTier::FullSpecialization.to_compilation_tier(), CompilationTier::JitOptimized);
    assert!(SpecializationTier::BasicOptimization < SpecializationTier::FullSpecialization);
}

#[test]
fn detector_stats_start_empty() {
    let now = Instant::from_epoch_nanos(7);
    let s = DetectorSystemStats::new_at(now);
    assert_eq!(s.total_profiling_calls, 0);
    assert_eq!(s.last_threshold_adjustment, now);
    assert_eq!(DetectorSystemStats::new().total_profiling_time, Duration::zero());
}

#[test]
fn test_specialization_tier_ordering() {
    assert!(SpecializationTier::BasicOptimization < SpecializationTier::TypeSpecialization);
    assert!(SpecializationTier::TypeSpecialization < SpecializationTier::ProofSpecialization);
    assert!(SpecializationTier::ProofSpecialization < SpecializationTier::FullSpecialization);
}

fn event(id: u64, at: u64) -> ExecutionEvent {
    ExecutionEvent {
        continuation_id: id,
        execution_time: Duration::from_micros(5),
        timestamp: Instant::from_epoch_nanos(at),
    }
}

#[test]
fn execution_history_keeps_latest_within_capacity() {
    let mut history = Vec::new();
    for i in 0..5u64 {
        add_execution_to_history(&mut history, 3, event(i, 100 * i));
    }
    let ids: Vec<u64> = history.iter().map(|e| e.continuation_id).collect();
    assert_eq!(ids, vec![2, 3, 4]);
    // The observation period spans the oldest and newest kept events.
    assert_eq!(calculate_observation_period(&history).as_nanos(), 200);
    assert_eq!(calculate_observation_period(&history[..1].to_vec()).as_nanos(), 0);
    // With no room at all the history still keeps the newest event.
    let mut tiny = Vec::new();
    add_execution_to_history(&mut tiny, 0, event(7, 0));
    add_execution_to_history(&mut tiny, 0, event(8, 0));
    assert_eq!(tiny.len(), 1);
    assert_eq!(tiny[0].continuation_id, 8);
}

#[test]
fn detector_profiling_average() {
    let mut stats = DetectorSystemStats::new_at(Instant::from_epoch_nanos(0));
    stats.record_profiling(Duration::from_nanos(100));
    stats.record_profiling(Duration::from_nanos(201));
    assert_eq!(stats.total_profiling_calls, 2);
    assert_eq!(stats.total_profiling_time.as_nanos(), 301);
    assert_eq!(stats.average_profiling_time.as_nanos(), 150);
}
