use lambdust::jit::generic_primitives::{
    ArithmeticOperation, ArithmeticPrimitive, CacheBehavior, ListOperation, ListPrimitive,
    MemoryProfile, PrimitiveCategory, UnifiedGenericPrimitive,
};

fn create_add_primitive() -> UnifiedGenericPrimitive {
    UnifiedGenericPrimitive::Arithmetic(ArithmeticPrimitive { name: "+", operation: ArithmeticOperation::Add })
}

#[test]
fn test_primitive_configuration() {
    let add = create_add_primitive();

    assert_eq!(add.name(), "+");
    assert!(add.config().is_commutative);
    assert!(add.config().is_associative);
    assert!(!add.config().has_side_effects);
}

#[test]
fn category_profiles_and_names() {
    let profile = PrimitiveCategory::Arithmetic.default_performance_profile();
    assert_eq!(profile.memory_profile, MemoryProfile::NoAllocation);
    assert_eq!(profile.cache_behavior, CacheBehavior::Excellent);
    let list = PrimitiveCategory::List.default_performance_profile();
    assert_eq!(list.avg_execution_ns, 80);
    assert_eq!(list.memory_profile, MemoryProfile::SmallFixed(16));
    assert!(!list.parallelizable);
    assert_eq!(PrimitiveCategory::TypePredicate.name(), "type_predicate");
    assert_eq!(PrimitiveCategory::Comparison.name(), "comparison");
}

#[test]
fn every_primitive_shares_the_add_metadata() {
    let car = UnifiedGenericPrimitive::List(ListPrimitive { name: "car", operation: ListOperation::Car });
    assert_eq!(car.name(), "+");
    assert_eq!(car.config().arity_max, None);
    assert_eq!(car.performance_profile().avg_execution_ns, 25);
}

#[test]
fn category_semantic_requirements() {
    let arithmetic = PrimitiveCategory::Arithmetic.default_semantic_requirements();
    assert!(arithmetic.requires_exact_arithmetic && arithmetic.requires_number_tower);
    assert!(!arithmetic.requires_boolean_semantics && !arithmetic.requires_tail_calls);
    let comparison = PrimitiveCategory::Comparison.default_semantic_requirements();
    assert!(comparison.requires_exact_arithmetic && comparison.requires_number_tower && comparison.requires_boolean_semantics);
    let list = PrimitiveCategory::List.default_semantic_requirements();
    assert!(list.requires_tail_calls && !list.requires_exact_arithmetic && !list.requires_boolean_semantics);
    let predicate = PrimitiveCategory::TypePredicate.default_semantic_requirements();
    assert!(predicate.requires_boolean_semantics && !predicate.requires_tail_calls);
    assert!(!predicate.requires_continuations && !predicate.requires_symbol_identity && !predicate.requires_r7rs_errors);
}
