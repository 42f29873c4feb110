use lambdust::host::{FunctionSignature, ValueType};
use lambdust::value::{SchemeNumber, Value};

#[test]
fn test_value_type_matching() {
    assert!(ValueType::Boolean.matches(&Value::Boolean(true)));
    assert!(ValueType::Number.matches(&Value::Number(SchemeNumber::Integer(42))));
    assert!(ValueType::String.matches(&Value::String("test".to_string())));
    assert!(ValueType::Any.matches(&Value::Boolean(true)));
    assert!(!ValueType::Boolean.matches(&Value::String("test".to_string())));
}

#[test]
fn test_function_signature_validation() {
    let sig = FunctionSignature::new(
        vec![ValueType::Number, ValueType::String],
        ValueType::Boolean,
    );

    // Valid arguments
    let valid_args = vec![
        Value::Number(SchemeNumber::Integer(42)),
        Value::String("test".to_string()),
    ];
    assert!(sig.validate_args(&valid_args).is_ok());

    // Invalid arity
    let invalid_arity = vec![Value::Number(SchemeNumber::Integer(42))];
    assert!(sig.validate_args(&invalid_arity).is_err());

    // Invalid type
    let invalid_type = vec![Value::Boolean(true), Value::String("test".to_string())];
    assert!(sig.validate_args(&invalid_type).is_err());
}

use lambdust::error::LambdustError;
use lambdust::host::{host_length, host_string_append, HostFunctionRegistry};

type HostFn = Box<dyn Fn(&[Value]) -> Result<Value, LambdustError>>;

#[test]
fn test_host_function_registry() {
    let mut registry = HostFunctionRegistry::new();

    // Register a simple function
    registry.register_simple_function("test-add".to_string(), |args: &[Value]| -> Result<Value, LambdustError> {
        if args.len() != 2 {
            return Err(LambdustError::arity_error(2, args.len()));
        }

        match (&args[0], &args[1]) {
            (Value::Number(SchemeNumber::Integer(a)), Value::Number(SchemeNumber::Integer(b))) => {
                Ok(Value::Number(SchemeNumber::Integer(a + b)))
            }
            _ => Err(LambdustError::type_error("Expected numbers".to_string())),
        }
    });

    // Test function retrieval
    let proc = registry.get_procedure("test-add").unwrap();
    assert!(proc.is_procedure());

    // Test function listing
    let functions = registry.list_functions();
    assert!(functions.contains(&&"test-add".to_string()));
}

#[test]
fn test_builtin_functions() {
    let print: HostFn = Box::new(|_args: &[Value]| Ok(Value::Nil));
    let registry = HostFunctionRegistry::with_builtins(print);

    // Test that builtins are registered
    assert!(registry.get_procedure("host-print").is_some());
    assert!(registry.get_procedure("host-string-append").is_some());
    assert!(registry.get_procedure("host-length").is_some());
}

#[test]
fn test_return_value_validation() {
    let mut registry: HostFunctionRegistry<HostFn> = HostFunctionRegistry::new();

    // Register function with specific return type validation
    registry.register_function(
        "return-string".to_string(),
        Box::new(|_args: &[Value]| -> Result<Value, LambdustError> { Ok(Value::String("expected string".to_string())) }),
        FunctionSignature::new(vec![], ValueType::String),
    );

    registry.register_function(
        "return-wrong-type".to_string(),
        Box::new(|_args: &[Value]| -> Result<Value, LambdustError> {
            // This should fail validation - returns number instead of string
            Ok(Value::Number(SchemeNumber::Integer(42)))
        }),
        FunctionSignature::new(vec![], ValueType::String),
    );

    // Test correct return type
    let result = registry.call_procedure("return-string", &[]).unwrap();
    assert!(result.is_ok());

    // Test incorrect return type should fail validation
    let result = registry.call_procedure("return-wrong-type", &[]).unwrap();
    assert!(result.is_err());
    match result.unwrap_err() {
        LambdustError::TypeError { message, .. } => {
            assert!(message.contains("Return value type mismatch"));
        }
        _ => panic!("Expected TypeError for return value mismatch"),
    }
}

#[test]
fn registry_checks_arguments_and_replaces_registrations() {
    let mut registry: HostFunctionRegistry<HostFn> = HostFunctionRegistry::new();
    registry.register_function(
        "first".to_string(),
        Box::new(|args: &[Value]| Ok(args[0].clone())),
        FunctionSignature::new(vec![ValueType::Number], ValueType::Number),
    );
    // Wrong arity and wrong type are refused before the function runs.
    match registry.call_procedure("first", &[]).unwrap() {
        Err(LambdustError::ArityError { expected, actual }) => assert_eq!((expected, actual), (1, 0)),
        other => panic!("unexpected {:?}", other),
    }
    assert!(matches!(
        registry.call_procedure("first", &[Value::Boolean(true)]).unwrap(),
        Err(LambdustError::TypeError { .. })
    ));
    let seven = Value::Number(SchemeNumber::Integer(7));
    assert!(matches!(
        registry.call_procedure("first", &[seven]).unwrap(),
        Ok(Value::Number(SchemeNumber::Integer(7)))
    ));
    assert!(registry.call_procedure("missing", &[]).is_none());
    assert!(registry.get_procedure("missing").is_none());

    // A second registration replaces the first.
    registry.register_simple_function("first".to_string(), Box::new(|_args: &[Value]| Ok(Value::Nil)));
    assert_eq!(registry.list_functions().len(), 1);
    assert!(registry.get_signature("first").unwrap().variadic);
    match registry.get_procedure("first").unwrap() {
        Value::Procedure(lambdust::value::Procedure::HostFunction { name, arity }) => {
            assert_eq!(name, "first");
            assert_eq!(arity, None);
        }
        _ => panic!("expected a host procedure"),
    }
}

#[test]
fn builtin_string_append_and_length() {
    let print: HostFn = Box::new(|_args: &[Value]| Ok(Value::Nil));
    let registry = HostFunctionRegistry::with_builtins(print);
    let joined = host_string_append(&[Value::String("ab".to_string()), Value::Symbol("cd".to_string())]).unwrap();
    assert!(matches!(joined, Value::String(ref s) if s == "abcd"));
    assert!(host_string_append(&[Value::Boolean(false)]).is_err());
    // Through the registry the signature asks for exactly one string.
    assert!(matches!(
        registry.call_procedure("host-string-append", &[Value::String("x".to_string())]).unwrap(),
        Ok(Value::String(ref s)) if s == "x"
    ));
    assert!(registry.call_procedure("host-string-append", &[]).unwrap().is_err());

    assert!(matches!(host_length(&[Value::String("héllo".to_string())]), Ok(Value::Number(SchemeNumber::Integer(6)))));
    let list = Value::Pair(
        Box::new(Value::Boolean(true)),
        Box::new(Value::Pair(Box::new(Value::Nil), Box::new(Value::Nil))),
    );
    assert!(matches!(host_length(&[list]), Ok(Value::Number(SchemeNumber::Integer(2)))));
    assert!(matches!(host_length(&[Value::Nil]), Ok(Value::Number(SchemeNumber::Integer(0)))));
    assert!(matches!(host_length(&[]), Err(LambdustError::ArityError { expected: 1, actual: 0 })));
    assert!(matches!(host_length(&[Value::Boolean(true)]), Err(LambdustError::TypeError { .. })));
    assert!(matches!(
        registry.call_procedure("host-length", &[Value::String("abc".to_string())]).unwrap(),
        Ok(Value::Number(SchemeNumber::Integer(3)))
    ));
}

#[test]
fn type_errors_name_the_first_bad_position_and_the_type() {
    let sig = FunctionSignature::new(vec![ValueType::Number, ValueType::Boolean], ValueType::String);
    let args = vec![Value::Number(SchemeNumber::Integer(1)), Value::Number(SchemeNumber::Integer(2))];
    match sig.validate_args(&args) {
        Err(LambdustError::TypeError { message }) => assert!(message.starts_with("Parameter 2: expected Boolean, got ")),
        other => panic!("unexpected {:?}", other),
    }
    match sig.validate_return(&Value::Boolean(true)) {
        Err(LambdustError::TypeError { message }) => {
            assert!(message.starts_with("Return value type mismatch: expected String, got "))
        }
        other => panic!("unexpected {:?}", other),
    }
}
