use lambdust::error::LambdustError;
use lambdust::jit::jit_primitives::{
    apply_type_predicate, JitCompilationStrategy, JitPrimitiveRegistry, PrimitiveKind,
};
use lambdust::value::{SchemeNumber, Value};

fn integer(n: i64) -> Value {
    Value::Number(SchemeNumber::Integer(n))
}

const CORE_NAMES: [&str; 42] = [
    "+", "-", "*", "/", "quotient", "remainder", "modulo", "abs", "gcd", "lcm", "floor", "ceiling",
    "=", "<", ">", "<=", ">=", "max", "cons", "car", "cdr", "null?", "pair?", "list", "length",
    "append", "number?", "string?", "symbol?", "boolean?", "procedure?", "vector?", "eq?", "eqv?",
    "equal?", "not", "apply", "call/cc", "values", "display", "newline", "read",
];

#[test]
fn test_jit_primitive_registry_creation() {
    let registry = JitPrimitiveRegistry::new();
    assert!(registry.is_ok());

    let registry = registry.unwrap();
    assert_eq!(registry.get_primitive_names().len(), 42);

    for &prim_name in &CORE_NAMES {
        assert!(registry.get_primitive(prim_name).is_some(), "Missing primitive: {prim_name}");
    }
}

#[test]
fn test_list_primitives() {
    let registry = JitPrimitiveRegistry::new().unwrap();

    let cons_prim = registry.get_primitive("cons").unwrap();
    let result = cons_prim.call_interpreted(&[integer(1), integer(2)]);
    assert!(result.is_ok());

    let pair = Value::Pair(Box::new(integer(1)), Box::new(integer(2)));

    let car_prim = registry.get_primitive("car").unwrap();
    let result = car_prim.call_interpreted(&[pair.clone()]);
    assert!(result.is_ok());
    assert!(matches!(result.unwrap(), Value::Number(SchemeNumber::Integer(1))));

    let cdr_prim = registry.get_primitive("cdr").unwrap();
    let result = cdr_prim.call_interpreted(&[pair]);
    assert!(result.is_ok());
    assert!(matches!(result.unwrap(), Value::Number(SchemeNumber::Integer(2))));
}

#[test]
fn test_type_predicates() {
    let registry = JitPrimitiveRegistry::new().unwrap();

    let number_pred = registry.get_primitive("number?").unwrap();
    let result = number_pred.call_interpreted(&[integer(42)]);
    assert!(result.is_ok());
    assert!(matches!(result.unwrap(), Value::Boolean(true)));

    let result = number_pred.call_interpreted(&[Value::String("hello".to_string())]);
    assert!(result.is_ok());
    assert!(matches!(result.unwrap(), Value::Boolean(false)));
}

#[test]
fn test_jit_strategies() {
    let registry = JitPrimitiveRegistry::new().unwrap();

    let add_prim = registry.get_primitive("+").unwrap();
    assert!(matches!(add_prim.jit_strategy, JitCompilationStrategy::Inline { .. }));

    let callcc_prim = registry.get_primitive("call/cc").unwrap();
    assert!(matches!(callcc_prim.jit_strategy, JitCompilationStrategy::Custom { .. }));

    let display_prim = registry.get_primitive("display").unwrap();
    assert!(matches!(display_prim.jit_strategy, JitCompilationStrategy::InterpreterFallback));
}

#[test]
fn registered_entries_carry_their_descriptions() {
    let registry = JitPrimitiveRegistry::new().unwrap();
    let add = registry.get_primitive("+").unwrap();
    assert_eq!(add.arity_min, 0);
    assert_eq!(add.arity_max, None);
    assert_eq!(add.kind, PrimitiveKind::Add);
    assert_eq!(add.type_specializations.len(), 2);
    assert_eq!(add.type_specializations[1].benefit_factor_milli, 1500);
    let abs = registry.get_primitive("abs").unwrap();
    assert_eq!((abs.arity_min, abs.arity_max), (1, Some(2)));
    assert!(registry.get_primitive("frobnicate").is_none());
}

#[test]
fn interpreted_list_operations_and_errors() {
    let registry = JitPrimitiveRegistry::new().unwrap();
    let list = registry.get_primitive("list").unwrap().call_interpreted(&[integer(1), integer(2), integer(3)]).unwrap();
    let length = registry.get_primitive("length").unwrap().call_interpreted(&[list]).unwrap();
    assert!(matches!(length, Value::Number(SchemeNumber::Integer(3))));
    match registry.get_primitive("cons").unwrap().call_interpreted(&[integer(1)]) {
        Err(LambdustError::RuntimeError { message }) => assert_eq!(message, "cons expects 2 arguments, got 1"),
        other => panic!("unexpected {:?}", other),
    }
    match registry.get_primitive("car").unwrap().call_interpreted(&[integer(1)]) {
        Err(LambdustError::RuntimeError { message }) => assert_eq!(message, "car expects a pair"),
        other => panic!("unexpected {:?}", other),
    }
    let not = registry.get_primitive("not").unwrap();
    assert!(matches!(not.call_interpreted(&[Value::Boolean(false)]).unwrap(), Value::Boolean(true)));
    assert!(matches!(not.call_interpreted(&[integer(0)]).unwrap(), Value::Boolean(false)));
}

#[test]
fn type_predicate_arity_and_unknown_names() {
    match apply_type_predicate("string?", &[]) {
        Err(LambdustError::RuntimeError { message }) => assert_eq!(message, "string? expects 1 argument"),
        other => panic!("unexpected {:?}", other),
    }
    assert!(matches!(apply_type_predicate("frob?", &[]).unwrap(), Value::Boolean(false)));
    assert!(matches!(apply_type_predicate("symbol?", &[Value::Symbol("x".to_string())]).unwrap(), Value::Boolean(true)));
    assert!(matches!(apply_type_predicate("vector?", &[integer(1)]).unwrap(), Value::Boolean(false)));
}
