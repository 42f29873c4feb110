use lambdust::jit::jit_security_framework::{
    JitCompiledCode, JitSecurityFramework, MemoryConfig, MemoryProtectionGuard, RuntimeSafetyMonitor, SecurityIssue, SecurityIssueType,
    SecurityMetrics, SecuritySeverity, VerificationResult,
};
use lambdust::time::Duration;

#[test]
fn test_security_framework_creation() {
    let framework = JitSecurityFramework::new();
    assert!(framework.is_ok());
}

#[test]
fn test_verification_result() {
    let result = VerificationResult::new(vec![]);
    assert!(result.is_safe());

    let issue = SecurityIssue {
        severity: SecuritySeverity::Critical,
        issue_type: SecurityIssueType::UnsafeMemoryAccess,
        description: "Test issue".to_string(),
        location: None,
    };

    let result_with_issues = VerificationResult::new(vec![issue]);
    assert!(!result_with_issues.is_safe());
}

#[test]
fn test_security_metrics() {
    let mut metrics = SecurityMetrics::new();

    let duration = Duration::from_millis(10);
    metrics.record_verification(duration, true);

    assert_eq!(metrics.total_verifications, 1);
    assert_eq!(metrics.successful_verifications, 1);
    assert_eq!(metrics.failed_verifications, 0);
    assert_eq!(metrics.average_verification_time, duration);
}

#[test]
fn test_runtime_safety_monitor() {
    let mut monitor = RuntimeSafetyMonitor::new();

    let execution_id = 1;
    assert!(monitor.start_monitoring(execution_id).is_ok());
    assert!(monitor.check_safety(execution_id).unwrap());

    monitor.stop_monitoring(execution_id);
}

use lambdust::error::LambdustError;
use lambdust::jit::jit_security_framework::{ExecutionContext, SafetyViolation};
use lambdust::time::Instant;

#[test]
fn safety_checks_against_time_and_memory_limits() {
    let mut monitor = RuntimeSafetyMonitor::new();
    monitor.active_executions.push((
        7,
        ExecutionContext { start_time: Instant::from_epoch_nanos(0), memory_usage: 0, violations: Vec::new() },
    ));
    monitor.active_executions.push((
        8,
        ExecutionContext {
            start_time: Instant::from_epoch_nanos(0),
            memory_usage: 64 * 1024 * 1024 + 1,
            violations: Vec::new(),
        },
    ));
    // Exactly at the five-second limit is still safe.
    assert_eq!(monitor.check_safety_at(7, Instant::from_epoch_nanos(5_000_000_000)).unwrap(), true);
    assert_eq!(monitor.violation_count, 0);
    // Past it, a time violation is recorded.
    assert_eq!(monitor.check_safety_at(7, Instant::from_epoch_nanos(6_000_000_000)).unwrap(), false);
    assert_eq!(monitor.violation_count, 1);
    match monitor.active_executions[0].1.violations.last() {
        Some(SafetyViolation::TimeLimit(d)) => assert_eq!(d.as_secs(), 6),
        _ => panic!("expected a time violation"),
    }
    // Over the memory limit.
    assert_eq!(monitor.check_safety_at(8, Instant::from_epoch_nanos(1)).unwrap(), false);
    assert_eq!(monitor.violation_count, 2);
    assert!(matches!(
        monitor.active_executions[1].1.violations.last(),
        Some(SafetyViolation::MemoryLimit(m)) if *m == 64 * 1024 * 1024 + 1
    ));
    // Unknown executions are an error.
    assert!(matches!(monitor.check_safety_at(9, Instant::from_epoch_nanos(1)), Err(LambdustError::RuntimeError { .. })));
    monitor.stop_monitoring(7);
    assert!(monitor.check_safety(7).is_err());
}

#[test]
fn verify_code_counts_one_successful_verification() {
    let mut framework = JitSecurityFramework::new().unwrap();
    let code = JitCompiledCode { id: String::from("c"), binary_data: vec![0x90], metadata: vec![] };
    let result = framework.verify_code(&code).unwrap();
    assert!(result.is_safe());
    let metrics = framework.get_metrics().unwrap();
    assert_eq!(metrics.total_verifications, 1);
    assert_eq!(metrics.successful_verifications, 1);
    assert_eq!(metrics.failed_verifications, 0);
    assert_eq!(metrics.total_executions, 0);
}

#[test]
fn memory_guard_keeps_its_configuration() {
    let config = MemoryConfig { max_memory_usage: 4096, enable_guard_pages: false };
    let guard = MemoryProtectionGuard::new(config).unwrap();
    assert_eq!(guard.config.max_memory_usage, 4096);
    assert!(!guard.config.enable_guard_pages);
}

#[test]
fn unknown_execution_is_named_in_the_error() {
    let mut monitor = RuntimeSafetyMonitor::new();
    assert!(monitor.start_monitoring(1).is_ok());
    assert_eq!(monitor.check_safety(1).unwrap(), true);
    match monitor.check_safety(2) {
        Err(LambdustError::RuntimeError { message }) => assert_eq!(message, "Unknown execution ID: 2"),
        other => panic!("unexpected {:?}", other),
    }
    let framework = JitSecurityFramework::new().unwrap();
    let m = framework.get_metrics().unwrap();
    assert_eq!(m.total_violations, 0);
}
