use lambdust::jit::code_generator::{
    CodegenConfig, GcRoot, InstructionBuffer, MemoryLayout, MemoryLayoutOptimizer,
    MemoryRequirements, OptimizationLevel, RegisterPool, SIMDOptimizer, SchemeType,
    TargetFeatures, TypeInfo,
};
use lambdust::value::{Expr, SchemeNumber, Value};

fn features(avx512: bool, avx2: bool) -> TargetFeatures {
    TargetFeatures { avx512, avx2, bmi2: false, fma: false, neon: false }
}

#[test]
fn test_scheme_types() {
    assert_eq!(SchemeType::Integer, SchemeType::Integer);
    assert_ne!(SchemeType::Integer, SchemeType::Real);
}

#[test]
fn register_pool_hands_out_least_used_register() {
    let mut pool = RegisterPool::new();
    // All sixteen registers are unused: the lowest index wins.
    assert_eq!(pool.allocate_int_register(), Some(0));
    assert_eq!(pool.allocate_int_register(), Some(1));
    pool.deallocate_register(0, false);
    // Register 0 has been used once, registers 2.. never: 2 is least used.
    assert_eq!(pool.allocate_int_register(), Some(2));
    assert_eq!(pool.find_lru_register(0b1), 0);
    assert_eq!(pool.find_lru_register(0b1001), 3);
}

#[test]
fn register_pool_runs_dry_after_sixteen() {
    let mut pool = RegisterPool::new();
    for i in 0..16u8 {
        assert_eq!(pool.allocate_int_register(), Some(i));
    }
    assert_eq!(pool.allocate_int_register(), None);
    pool.deallocate_register(5, false);
    assert_eq!(pool.allocate_int_register(), Some(5));
}

#[test]
fn register_unchecked_reports_prior_state() {
    let mut pool = RegisterPool::new();
    assert!(pool.allocate_register_unchecked(3));
    assert!(!pool.allocate_register_unchecked(3));
    assert!(!pool.allocate_register_unchecked(20));
}

#[test]
fn instruction_buffer_rounds_capacity_and_appends() {
    let mut buf = InstructionBuffer::new_aligned(100);
    assert!(buf.as_bytes().is_empty());
    buf.emit_bytes(&[1, 2, 3]);
    buf.emit_bytes(&[4]);
    assert_eq!(buf.as_bytes(), &[1, 2, 3, 4]);
}

#[test]
fn instruction_buffer_grows_and_keeps_bytes() {
    let mut buf = InstructionBuffer::new_aligned(1);
    let big = vec![7u8; 200];
    buf.emit_bytes(&[9]);
    buf.emit_bytes(&big);
    assert_eq!(buf.as_bytes().len(), 201);
    assert_eq!(buf.as_bytes()[0], 9);
    assert_eq!(buf.as_bytes()[200], 7);
    let a: &[u8] = &[1, 2];
    let b: &[u8] = &[];
    let c: &[u8] = &[3];
    buf.emit_bulk_instructions(&[a, b, c]);
    assert_eq!(&buf.as_bytes()[201..], &[1, 2, 3]);
}

#[test]
fn simd_width_and_encodings() {
    let avx = SIMDOptimizer::new(features(false, true));
    let mut buf = InstructionBuffer::new_aligned(64);
    avx.generate_vectorized_add(&mut buf).unwrap();
    assert_eq!(buf.as_bytes(), &[0xC5, 0xF5, 0xFE, 0xC1]);

    let scalar = SIMDOptimizer::new(features(false, false));
    let mut buf2 = InstructionBuffer::new_aligned(64);
    scalar.generate_vectorized_add(&mut buf2).unwrap();
    assert_eq!(buf2.as_bytes(), &[0x48, 0x01, 0xC1]);
}

#[test]
fn layout_alignment_and_stable_sort() {
    let opt = MemoryLayoutOptimizer::new();
    let mut layout = MemoryLayout {
        stack_frame_size: 65,
        gc_roots: vec![
            GcRoot { stack_offset: 17, root_type: SchemeType::Pair },
            GcRoot { stack_offset: -5, root_type: SchemeType::Integer },
            GcRoot { stack_offset: 17, root_type: SchemeType::String },
            GcRoot { stack_offset: 8, root_type: SchemeType::Any },
        ],
        memory_requirements: MemoryRequirements { stack_bytes: 0, heap_bytes: 0, temp_bytes: 0 },
    };
    opt.optimize_layout(&mut layout);
    assert_eq!(layout.stack_frame_size, 128);
    assert_eq!(
        layout.gc_roots,
        vec![
            GcRoot { stack_offset: 0, root_type: SchemeType::Integer },
            GcRoot { stack_offset: 8, root_type: SchemeType::Any },
            GcRoot { stack_offset: 24, root_type: SchemeType::Pair },
            GcRoot { stack_offset: 24, root_type: SchemeType::String },
        ]
    );
}

#[test]
fn type_inference_of_literals() {
    let info = TypeInfo::new();
    assert_eq!(info.infer_expr_type(&Expr::Literal(Value::Number(SchemeNumber::Integer(3)))), SchemeType::Integer);
    assert_eq!(info.infer_expr_type(&Expr::Literal(Value::Boolean(true))), SchemeType::Boolean);
    assert_eq!(info.infer_expr_type(&Expr::Literal(Value::String("s".to_string()))), SchemeType::String);
    assert_eq!(info.infer_expr_type(&Expr::Variable("x".to_string())), SchemeType::Any);
    assert_eq!(info.get_variable_type("x"), None);
}

#[test]
fn codegen_config_defaults() {
    let c = CodegenConfig::with_target_features(features(true, true));
    assert_eq!(c.optimization_level, OptimizationLevel::Balanced);
    assert!(c.bounds_checking && c.overflow_checking && c.simd_optimizations);
    assert!(!c.debug_info);
}

use lambdust::jit::algorithmic_optimizations::{SpaceComplexity, TimeComplexity};

#[test]
fn test_time_complexity_combination() {
    let c1 = TimeComplexity::Constant(5);
    let c2 = TimeComplexity::Linear(10);

    let combined = c1.combine_max(c2);
    assert!(matches!(combined, TimeComplexity::Linear(10)));
}

#[test]
fn complexity_sums_and_ties() {
    assert_eq!(TimeComplexity::Constant(2).combine_sum(TimeComplexity::Constant(3)), TimeComplexity::Constant(5));
    assert_eq!(TimeComplexity::Linear(2).combine_sum(TimeComplexity::Linear(3)), TimeComplexity::Linear(5));
    // Quadratic(1) weighs 100, Linear(10) weighs 100: the first wins the tie.
    assert_eq!(TimeComplexity::Quadratic(1).combine_sum(TimeComplexity::Linear(10)), TimeComplexity::Quadratic(1));
    assert_eq!(TimeComplexity::Unknown.combine_max(TimeComplexity::Constant(51)), TimeComplexity::Constant(51));
    assert_eq!(TimeComplexity::Exponential(1).as_big_o_factor(), 10000);
    assert_eq!(SpaceComplexity::Constant(4).add_constant(3), SpaceComplexity::Constant(7));
    assert_eq!(SpaceComplexity::Linear(4).add_constant(3), SpaceComplexity::Linear(4));
    assert_eq!(SpaceComplexity::Logarithmic(30).combine_max(SpaceComplexity::Unknown), SpaceComplexity::Logarithmic(30));
}
