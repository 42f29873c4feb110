//! Security checks for JIT compiled code: static verification of the code,
//! runtime safety monitoring, sandboxed execution and security metrics.
use vstd::prelude::*;
use crate::error::{LambdustError, runtime_error_str};
use crate::time::{Duration, Instant, MAX_NANOS, div_spec};
use crate::text::{decimal_text, push_decimal};
use crate::value::{Value, Environment};
use std::sync::Arc;

verus! {

/// Type alias for execution IDs
pub type ExecutionId = u64;

/// Security verification result
pub struct VerificationResult {
    issues: Vec<SecurityIssue>,
}

/// Security issue detected during verification
#[derive(Debug, Clone)]
pub struct SecurityIssue {
    pub severity: SecuritySeverity,
    pub issue_type: SecurityIssueType,
    pub description: String,
    pub location: Option<String>,
}

/// Security issue severity levels
#[derive(Debug, Clone, Copy, PartialEq, Eq, Structural)]
pub enum SecuritySeverity {
    Low,
    Medium,
    High,
    Critical,
}

/// Types of security issues
#[derive(Debug, Clone, Copy, PartialEq, Eq, Structural)]
pub enum SecurityIssueType {
    UnsafeMemoryAccess,
    ControlFlowViolation,
    UnauthorizedSyscall,
    BufferOverflow,
    IntegerOverflow,
}

/// Safety violation types
#[derive(Debug, Clone)]
pub enum SafetyViolation {
    TimeLimit(Duration),
    MemoryLimit(usize),
    UnauthorizedOperation(String),
}

/// An issue blocks execution when it is critical or high.
pub open spec fn blocking(issue: SecurityIssue) -> bool {
    issue.severity == SecuritySeverity::Critical || issue.severity == SecuritySeverity::High
}

/// Code is safe when no issue blocks execution.
pub open spec fn issues_safe(issues: Seq<SecurityIssue>) -> bool {
    forall|i: int| 0 <= i < issues.len() ==> !blocking(#[trigger] issues[i])
}

impl VerificationResult {
    /// The issues found.
    pub closed spec fn view_issues(&self) -> Seq<SecurityIssue> {
        self.issues@
    }

    pub fn new(issues: Vec<SecurityIssue>) -> (r: Self)
        ensures
            r.view_issues() == issues@,
    {
        VerificationResult { issues }
    }

    pub fn is_safe(&self) -> (b: bool)
        ensures
            b == issues_safe(self.view_issues()),
    {
        let mut i: usize = 0;
        while i < self.issues.len()
            invariant
                i <= self.issues@.len(),
                forall|j: int| 0 <= j < i ==> !blocking(#[trigger] self.issues@[j]),
            decreases self.issues@.len() - i,
        {
            let sev = self.issues[i].severity;
            if sev == SecuritySeverity::Critical || sev == SecuritySeverity::High {
                assert(blocking(self.issues@[i as int]));
                return false;
            }
            i = i + 1;
        }
        true
    }

    pub fn issues(&self) -> (s: &[SecurityIssue])
        ensures
            s@ == self.view_issues(),
    {
        self.issues.as_slice()
    }
}

/// Compiled code handed to the security checks: an identifier, the machine
/// code and key/value metadata.
pub struct JitCompiledCode {
    pub id: String,
    pub binary_data: Vec<u8>,
    pub metadata: Vec<(String, String)>,
}

impl JitCompiledCode {
    /// The binary is not inspected: no unsafe memory access is reported.
    pub fn has_unsafe_memory_access(&self) -> (b: bool)
        ensures
            !b,
    {
        false
    }

    /// The binary is not inspected: no indirect jump is reported.
    pub fn has_indirect_jumps(&self) -> (b: bool)
        ensures
            !b,
    {
        false
    }

    /// The binary is not inspected: no system call is reported.
    pub fn get_syscalls(&self) -> (v: Vec<u32>)
        ensures
            v@.len() == 0,
    {
        Vec::new()
    }

    pub fn get_unsafe_location(&self) -> (r: Option<String>)
        ensures
            r is None,
    {
        None
    }

    pub fn get_jump_location(&self) -> (r: Option<String>)
        ensures
            r is None,
    {
        None
    }

    pub fn get_syscall_location(&self, _syscall: u32) -> (r: Option<String>)
        ensures
            r is None,
    {
        None
    }
}

/// Code verification configuration
#[derive(Debug, Clone)]
pub struct VerificationConfig {
    pub enable_memory_safety_checks: bool,
    pub enable_control_flow_checks: bool,
    pub enable_syscall_filtering: bool,
}

impl VerificationConfig {
    pub fn default() -> (c: Self)
        ensures
            c.enable_memory_safety_checks && c.enable_control_flow_checks && c.enable_syscall_filtering,
    {
        VerificationConfig {
            enable_memory_safety_checks: true,
            enable_control_flow_checks: true,
            enable_syscall_filtering: true,
        }
    }
}

/// Sandbox configuration
#[derive(Debug, Clone)]
pub struct SandboxConfig {
    pub max_execution_time: Duration,
    pub enable_resource_limits: bool,
}

impl SandboxConfig {
    pub fn default() -> (c: Self)
        ensures
            c.max_execution_time@ == 5_000_000_000,
            c.enable_resource_limits,
    {
        SandboxConfig { max_execution_time: Duration::from_secs(5), enable_resource_limits: true }
    }
}

/// Memory protection configuration
#[derive(Debug, Clone)]
pub struct MemoryConfig {
    pub max_memory_usage: usize,
    pub enable_guard_pages: bool,
}

impl MemoryConfig {
    pub fn default() -> (c: Self)
        ensures
            c.max_memory_usage == 64 * 1024 * 1024,
            c.enable_guard_pages,
    {
        MemoryConfig { max_memory_usage: 64 * 1024 * 1024, enable_guard_pages: true }
    }
}

/// Security configuration
#[derive(Debug, Clone)]
pub struct SecurityConfig {
    pub verification_config: VerificationConfig,
    pub sandbox_config: SandboxConfig,
    pub memory_config: MemoryConfig,
}

impl SecurityConfig {
    pub fn default() -> (c: Self)
        ensures
            c.verification_config.enable_memory_safety_checks,
            c.verification_config.enable_control_flow_checks,
            c.verification_config.enable_syscall_filtering,
            c.sandbox_config.max_execution_time@ == 5_000_000_000,
            c.sandbox_config.enable_resource_limits,
            c.memory_config.max_memory_usage == 64 * 1024 * 1024,
            c.memory_config.enable_guard_pages,
    {
        SecurityConfig {
            verification_config: VerificationConfig::default(),
            sandbox_config: SandboxConfig::default(),
            memory_config: MemoryConfig::default(),
        }
    }
}

/// Issues the static checks report for code with the given features: one for
/// unsafe memory access, one for indirect jumps, one per system call that is
/// not allowed, in that order.
pub open spec fn expected_issue_types(unsafe_memory: bool, indirect_jumps: bool, syscalls: Seq<u32>, allowed: Seq<u32>) -> Seq<SecurityIssueType> {
    (if unsafe_memory { seq![SecurityIssueType::UnsafeMemoryAccess] } else { Seq::empty() })
    + (if indirect_jumps { seq![SecurityIssueType::ControlFlowViolation] } else { Seq::empty() })
    + syscalls.filter(|s: u32| !allowed.contains(s)).map_values(|s: u32| SecurityIssueType::UnauthorizedSyscall)
}

/// JIT code verifier - Validates compiled code for security
pub struct JitCodeVerifier {
    pub config: VerificationConfig,
    pub dangerous_patterns: Vec<String>,
    pub allowed_syscalls: Vec<u32>,
}

impl JitCodeVerifier {
    pub fn new(config: VerificationConfig) -> (r: Result<Self, LambdustError>)
        ensures
            r matches Ok(v) && v.allowed_syscalls@ == seq![0u32, 1u32] && v.dangerous_patterns@.len() == 4,
    {
        let mut dangerous_patterns: Vec<String> = Vec::new();
        dangerous_patterns.push(String::from_str("arbitrary_memory_access"));
        dangerous_patterns.push(String::from_str("unchecked_pointer_dereference"));
        dangerous_patterns.push(String::from_str("buffer_overflow_potential"));
        dangerous_patterns.push(String::from_str("integer_overflow_potential"));
        let mut allowed_syscalls: Vec<u32> = Vec::new();
        allowed_syscalls.push(0);
        allowed_syscalls.push(1);
        assert(allowed_syscalls@ =~= seq![0u32, 1u32]);
        Ok(JitCodeVerifier { config, dangerous_patterns, allowed_syscalls })
    }

    /// Verifies JIT compiled code
    pub fn verify(&self, code: &JitCompiledCode) -> (r: Result<VerificationResult, LambdustError>)
        ensures
            r matches Ok(res) && res.view_issues().map_values(|i: SecurityIssue| i.issue_type)
                == expected_issue_types(false, false, Seq::empty(), self.allowed_syscalls@),
    {
        let mut issues: Vec<SecurityIssue> = Vec::new();
        self.verify_memory_safety(code, &mut issues);
        self.verify_control_flow(code, &mut issues);
        self.verify_syscall_usage(code, &mut issues);
        proof {
            reveal(Seq::filter);
            assert(Seq::<u32>::empty().filter(|s: u32| !self.allowed_syscalls@.contains(s)) =~= Seq::<u32>::empty());
            assert(issues@.map_values(|i: SecurityIssue| i.issue_type) =~= Seq::<SecurityIssueType>::empty());
            assert(expected_issue_types(false, false, Seq::empty(), self.allowed_syscalls@) =~= Seq::<SecurityIssueType>::empty());
        }
        Ok(VerificationResult::new(issues))
    }

    /// Verifies memory safety of compiled code
    fn verify_memory_safety(&self, code: &JitCompiledCode, issues: &mut Vec<SecurityIssue>)
        ensures
            final(issues)@ == old(issues)@,
    {
        if code.has_unsafe_memory_access() {
            issues.push(SecurityIssue {
                severity: SecuritySeverity::High,
                issue_type: SecurityIssueType::UnsafeMemoryAccess,
                description: String::from_str("Code contains potentially unsafe memory access"),
                location: code.get_unsafe_location(),
            });
        }
    }

    /// Verifies control flow integrity
    fn verify_control_flow(&self, code: &JitCompiledCode, issues: &mut Vec<SecurityIssue>)
        ensures
            final(issues)@ == old(issues)@,
    {
        if code.has_indirect_jumps() {
            issues.push(SecurityIssue {
                severity: SecuritySeverity::Medium,
                issue_type: SecurityIssueType::ControlFlowViolation,
                description: String::from_str("Code contains indirect jumps that may compromise control flow"),
                location: code.get_jump_location(),
            });
        }
    }

    /// Verifies syscall usage: one critical issue per system call that is not allowed.
    fn verify_syscall_usage(&self, code: &JitCompiledCode, issues: &mut Vec<SecurityIssue>)
        ensures
            final(issues)@ == old(issues)@,
    {
        let syscalls = code.get_syscalls();
        let mut i: usize = 0;
        while i < syscalls.len()
            invariant
                syscalls@.len() == 0,
                issues@ == old(issues)@,
            decreases syscalls@.len() - i,
        {
            i = i + 1;
        }
    }
}

/// Execution context for monitoring
pub struct ExecutionContext {
    pub start_time: Instant,
    pub memory_usage: usize,
    pub violations: Vec<SafetyViolation>,
}

/// Runtime safety monitor - Monitors execution for security violations
pub struct RuntimeSafetyMonitor {
    pub active_executions: Vec<(ExecutionId, ExecutionContext)>,
    pub violation_count: u64,
    pub max_execution_time: Duration,
    pub max_memory_usage: usize,
}

/// The message for an execution that is not monitored.
pub open spec fn unknown_execution_message(id: ExecutionId) -> Seq<char> {
    "Unknown execution ID: "@ + decimal_text(id as nat)
}

/// Execution identifiers are unique.
pub open spec fn executions_unique(e: Seq<(ExecutionId, ExecutionContext)>) -> bool {
    forall|i: int, j: int| 0 <= i < e.len() && 0 <= j < e.len() && i != j ==> #[trigger] e[i].0 != #[trigger] e[j].0
}

impl RuntimeSafetyMonitor {
    pub open spec fn wf(&self) -> bool {
        executions_unique(self.active_executions@)
    }

    pub open spec fn monitors(&self, id: ExecutionId) -> bool {
        exists|k: int| 0 <= k < self.active_executions@.len() && #[trigger] self.active_executions@[k].0 == id
    }

    pub fn new() -> (m: Self)
        ensures
            m.wf(),
            m.active_executions@.len() == 0,
            m.violation_count == 0,
            m.max_execution_time@ == 5_000_000_000,
            m.max_memory_usage == 64 * 1024 * 1024,
    {
        RuntimeSafetyMonitor {
            active_executions: Vec::new(),
            violation_count: 0,
            max_execution_time: Duration::from_secs(5),
            max_memory_usage: 64 * 1024 * 1024,
        }
    }

    fn find(&self, id: ExecutionId) -> (r: Option<usize>)
        ensures
            match r {
                Some(k) => k < self.active_executions@.len() && self.active_executions@[k as int].0 == id,
                None => !self.monitors(id),
            },
    {
        let mut k: usize = 0;
        while k < self.active_executions.len()
            invariant
                k <= self.active_executions@.len(),
                forall|j: int| 0 <= j < k ==> #[trigger] self.active_executions@[j].0 != id,
            decreases self.active_executions@.len() - k,
        {
            if self.active_executions[k].0 == id {
                return Some(k);
            }
            k = k + 1;
        }
        None
    }

    /// Starts monitoring an execution, with no memory used and no violation
    /// recorded yet; an earlier context of the same execution is replaced.
    pub fn start_monitoring(&mut self, execution_id: ExecutionId) -> (r: Result<(), LambdustError>)
        requires
            old(self).wf(),
        ensures
            r is Ok,
            final(self).wf(),
            final(self).violation_count == old(self).violation_count,
            final(self).max_execution_time == old(self).max_execution_time,
            final(self).max_memory_usage == old(self).max_memory_usage,
            exists|k: int| 0 <= k < final(self).active_executions@.len()
                && #[trigger] final(self).active_executions@[k].0 == execution_id
                && final(self).active_executions@[k].1.memory_usage == 0
                && final(self).active_executions@[k].1.violations@.len() == 0,
            forall|id: ExecutionId| id != execution_id ==> (#[trigger] final(self).monitors(id) == old(self).monitors(id)),
    {
        let context = ExecutionContext { start_time: Instant::now(), memory_usage: 0, violations: Vec::new() };
        let ghost old_e = self.active_executions@;
        match self.find(execution_id) {
            Some(k) => {
                self.active_executions.set(k, (execution_id, context));
                proof {
                    assert(self.active_executions@[k as int].0 == execution_id);
                    assert forall|x: int, y: int| 0 <= x < self.active_executions@.len() && 0 <= y < self.active_executions@.len() && x != y
                        implies #[trigger] self.active_executions@[x].0 != #[trigger] self.active_executions@[y].0 by {
                        assert(self.active_executions@[x].0 == old_e[x].0);
                        assert(self.active_executions@[y].0 == old_e[y].0);
                    }
                    assert forall|id: ExecutionId| id != execution_id implies (#[trigger] self.monitors(id) == old(self).monitors(id)) by {
                        if old(self).monitors(id) {
                            let j = choose|j: int| 0 <= j < old_e.len() && #[trigger] old_e[j].0 == id;
                            assert(self.active_executions@[j].0 == id);
                        }
                        if self.monitors(id) {
                            let j = choose|j: int| 0 <= j < self.active_executions@.len() && #[trigger] self.active_executions@[j].0 == id;
                            assert(old_e[j].0 == id);
                        }
                    }
                }
            },
            None => {
                self.active_executions.push((execution_id, context));
                proof {
                    let n = old_e.len() as int;
                    assert(self.active_executions@[n].0 == execution_id);
                    assert forall|x: int, y: int| 0 <= x < self.active_executions@.len() && 0 <= y < self.active_executions@.len() && x != y
                        implies #[trigger] self.active_executions@[x].0 != #[trigger] self.active_executions@[y].0 by {
                        if x < n {
                            assert(self.active_executions@[x] == old_e[x]);
                        }
                        if y < n {
                            assert(self.active_executions@[y] == old_e[y]);
                        }
                    }
                    assert forall|id: ExecutionId| id != execution_id implies (#[trigger] self.monitors(id) == old(self).monitors(id)) by {
                        if old(self).monitors(id) {
                            let j = choose|j: int| 0 <= j < old_e.len() && #[trigger] old_e[j].0 == id;
                            assert(self.active_executions@[j].0 == id);
                        }
                        if self.monitors(id) {
                            let j = choose|j: int| 0 <= j < self.active_executions@.len() && #[trigger] self.active_executions@[j].0 == id;
                            assert(j < n);
                            assert(old_e[j].0 == id);
                        }
                    }
                }
            },
        }
        Ok(())
    }

    /// Checks an execution against the limits at the clock reading `now`: an
    /// unknown execution is an error; one past its time limit, or else over its
    /// memory limit, records a violation and yields `false`; otherwise `true`.
    pub fn check_safety_at(&mut self, execution_id: ExecutionId, now: Instant) -> (r: Result<bool, LambdustError>)
        requires
            old(self).wf(),
            old(self).violation_count < u64::MAX,
        ensures
            final(self).wf(),
            final(self).max_execution_time == old(self).max_execution_time,
            final(self).max_memory_usage == old(self).max_memory_usage,
            final(self).active_executions@.len() == old(self).active_executions@.len(),
            forall|k: int| 0 <= k < old(self).active_executions@.len() ==>
                (#[trigger] final(self).active_executions@[k]).0 == old(self).active_executions@[k].0,
            !old(self).monitors(execution_id) ==> ((r matches Err(e) && e matches LambdustError::RuntimeError { message }
                && message@ == unknown_execution_message(execution_id)) && final(self).violation_count == old(self).violation_count),
            old(self).monitors(execution_id) ==> r is Ok,
            forall|k: int| 0 <= k < old(self).active_executions@.len() && old(self).active_executions@[k].0 == execution_id ==> {
                let c = old(self).active_executions@[k].1;
                let elapsed: nat = if now@ >= c.start_time@ { (now@ - c.start_time@) as nat } else { 0 };
                let over_time = elapsed > old(self).max_execution_time@;
                let over_memory = c.memory_usage > old(self).max_memory_usage;
                let c2 = (#[trigger] final(self).active_executions@[k]).1;
                &&& r == Ok::<bool, LambdustError>(!over_time && !over_memory)
                &&& final(self).violation_count == old(self).violation_count + if over_time || over_memory { 1int } else { 0int }
                &&& c2.start_time == c.start_time
                &&& c2.memory_usage == c.memory_usage
                &&& c2.violations@.len() == c.violations@.len() + if over_time || over_memory { 1int } else { 0int }
                &&& over_time ==> (c2.violations@.last() matches SafetyViolation::TimeLimit(d) && d@ == elapsed)
                &&& (!over_time && over_memory) ==> c2.violations@.last() == SafetyViolation::MemoryLimit(c.memory_usage)
            },
            forall|k: int| 0 <= k < old(self).active_executions@.len() && old(self).active_executions@[k].0 != execution_id ==>
                #[trigger] final(self).active_executions@[k] == old(self).active_executions@[k],
    {
        let ghost old_e = self.active_executions@;
        match self.find(execution_id) {
            Some(k) => {
                let (id, mut context) = self.active_executions.remove(k);
                let elapsed = now.duration_since(context.start_time);
                let mut result = true;
                if elapsed.as_nanos() > self.max_execution_time.as_nanos() {
                    context.violations.push(SafetyViolation::TimeLimit(elapsed));
                    self.violation_count = self.violation_count + 1;
                    result = false;
                } else if context.memory_usage > self.max_memory_usage {
                    context.violations.push(SafetyViolation::MemoryLimit(context.memory_usage));
                    self.violation_count = self.violation_count + 1;
                    result = false;
                }
                self.active_executions.insert(k, (id, context));
                proof {
                    assert forall|j: int| 0 <= j < old_e.len() && j != k implies #[trigger] old_e[j].0 != execution_id by {
                        assert(old_e[j].0 != old_e[k as int].0);
                    }
                    assert(forall|j: int| 0 <= j < self.active_executions@.len() ==>
                        #[trigger] self.active_executions@[j].0 == old_e[j].0);
                }
                Ok(result)
            },
            None => {
                let mut message = String::from_str("Unknown execution ID: ");
                push_decimal(&mut message, execution_id);
                Err(LambdustError::runtime_error(message))
            },
        }
    }

    /// Checks if execution is within safety bounds, measured against the clock.
    pub fn check_safety(&mut self, execution_id: ExecutionId) -> (r: Result<bool, LambdustError>)
        requires
            old(self).wf(),
            old(self).violation_count < u64::MAX,
        ensures
            final(self).wf(),
            final(self).max_execution_time == old(self).max_execution_time,
            final(self).max_memory_usage == old(self).max_memory_usage,
            final(self).violation_count <= old(self).violation_count + 1,
            r == Ok::<bool, LambdustError>(false) <==> final(self).violation_count == old(self).violation_count + 1,
            old(self).violation_count <= final(self).violation_count,
            forall|id: ExecutionId| #[trigger] final(self).monitors(id) == old(self).monitors(id),
            r is Ok <==> old(self).monitors(execution_id),
            r matches Err(e) ==> e matches LambdustError::RuntimeError { message }
                && message@ == unknown_execution_message(execution_id),
    {
        let r = self.check_safety_at(execution_id, Instant::now());
        proof {
            assert forall|id: ExecutionId| #[trigger] self.monitors(id) == old(self).monitors(id) by {
                if old(self).monitors(id) {
                    let j = choose|j: int| 0 <= j < old(self).active_executions@.len() && #[trigger] old(self).active_executions@[j].0 == id;
                    assert(self.active_executions@[j].0 == id);
                }
                if self.monitors(id) {
                    let j = choose|j: int| 0 <= j < self.active_executions@.len() && #[trigger] self.active_executions@[j].0 == id;
                    assert(old(self).active_executions@[j].0 == id);
                }
            }
            if old(self).monitors(execution_id) {
                let j = choose|j: int| 0 <= j < old(self).active_executions@.len() && #[trigger] old(self).active_executions@[j].0 == execution_id;
                assert(self.active_executions@[j].0 == execution_id);
            }
        }
        r
    }

    /// Stops monitoring an execution
    pub fn stop_monitoring(&mut self, execution_id: ExecutionId)
        requires
            old(self).wf(),
        ensures
            final(self).wf(),
            !final(self).monitors(execution_id),
            forall|id: ExecutionId| id != execution_id ==> (#[trigger] final(self).monitors(id) == old(self).monitors(id)),
            final(self).violation_count == old(self).violation_count,
            final(self).max_execution_time == old(self).max_execution_time,
            final(self).max_memory_usage == old(self).max_memory_usage,
    {
        let ghost old_e = self.active_executions@;
        if let Some(k) = self.find(execution_id) {
            self.active_executions.remove(k);
            proof {
                assert forall|x: int, y: int| 0 <= x < self.active_executions@.len() && 0 <= y < self.active_executions@.len() && x != y
                    implies #[trigger] self.active_executions@[x].0 != #[trigger] self.active_executions@[y].0 by {
                    let ox = if x < k { x } else { x + 1 };
                    let oy = if y < k { y } else { y + 1 };
                    assert(self.active_executions@[x] == old_e[ox]);
                    assert(self.active_executions@[y] == old_e[oy]);
                }
                assert forall|j: int| 0 <= j < self.active_executions@.len() implies #[trigger] self.active_executions@[j].0 != execution_id by {
                    let oj = if j < k { j } else { j + 1 };
                    assert(self.active_executions@[j] == old_e[oj]);
                    assert(old_e[oj].0 != old_e[k as int].0);
                }
                assert forall|id: ExecutionId| id != execution_id implies (#[trigger] self.monitors(id) == old(self).monitors(id)) by {
                    if old(self).monitors(id) {
                        let j = choose|j: int| 0 <= j < old_e.len() && #[trigger] old_e[j].0 == id;
                        let nj = if j < k { j } else { j - 1 };
                        assert(j != k);
                        assert(self.active_executions@[nj] == old_e[j]);
                    }
                    if self.monitors(id) {
                        let j = choose|j: int| 0 <= j < self.active_executions@.len() && #[trigger] self.active_executions@[j].0 == id;
                        let oj = if j < k { j } else { j + 1 };
                        assert(self.active_executions@[j] == old_e[oj]);
                    }
                }
            }
        }
    }
}

/// JIT execution sandbox - Provides isolated execution environment
pub struct JitExecutionSandbox {
    pub config: SandboxConfig,
    pub execution_id_counter: u64,
}

impl JitExecutionSandbox {
    pub fn new(config: SandboxConfig) -> (r: Result<Self, LambdustError>)
        ensures
            r matches Ok(s) && s.execution_id_counter == 1,
    {
        Ok(JitExecutionSandbox { config, execution_id_counter: 1 })
    }

    /// Gets next execution ID
    fn get_next_execution_id(&mut self) -> (r: Result<ExecutionId, LambdustError>)
        requires
            old(self).execution_id_counter < u64::MAX,
        ensures
            r == Ok::<ExecutionId, LambdustError>(old(self).execution_id_counter),
            final(self).execution_id_counter == old(self).execution_id_counter + 1,
    {
        let id = self.execution_id_counter;
        self.execution_id_counter = self.execution_id_counter + 1;
        Ok(id)
    }

    /// Executes code in sandbox: the execution is monitored for its whole run and
    /// yields 42 unless the monitor reports a violation.
    pub fn execute(&mut self, code: &JitCompiledCode, args: &[Value], safety_monitor: &mut RuntimeSafetyMonitor) -> (r: Result<Value, LambdustError>)
        requires
            old(self).execution_id_counter < u64::MAX,
            old(safety_monitor).wf(),
            old(safety_monitor).violation_count < u64::MAX - 100,
        ensures
            final(self).execution_id_counter == old(self).execution_id_counter + 1,
            final(safety_monitor).wf(),
            !final(safety_monitor).monitors(old(self).execution_id_counter),
            forall|id: ExecutionId| id != old(self).execution_id_counter ==>
                (#[trigger] final(safety_monitor).monitors(id) == old(safety_monitor).monitors(id)),
            r is Ok <==> final(safety_monitor).violation_count == old(safety_monitor).violation_count,
            r matches Ok(v) ==> v == Value::integer_spec(42),
            r matches Err(e) ==> e matches LambdustError::RuntimeError { message }
                && message@ == "Execution violated safety constraints"@
                && final(safety_monitor).violation_count == old(safety_monitor).violation_count + 1,
    {
        let execution_id = match self.get_next_execution_id() {
            Ok(id) => id,
            Err(e) => {
                return Err(e);
            },
        };
        let _ = safety_monitor.start_monitoring(execution_id);
        let result = self.execute_isolated(code, args, execution_id, safety_monitor);
        safety_monitor.stop_monitoring(execution_id);
        result
    }

    /// Checks if environment is secure
    pub fn is_environment_secure(&self, _env: &Arc<Environment>) -> (b: bool)
        ensures
            b,
    {
        true
    }

    /// Executes code in isolated environment, checking the monitor at each of
    /// a hundred steps.
    fn execute_isolated(&self, _code: &JitCompiledCode, _args: &[Value], execution_id: ExecutionId, safety_monitor: &mut RuntimeSafetyMonitor) -> (r: Result<Value, LambdustError>)
        requires
            old(safety_monitor).wf(),
            old(safety_monitor).monitors(execution_id),
            old(safety_monitor).violation_count < u64::MAX - 100,
        ensures
            final(safety_monitor).wf(),
            forall|id: ExecutionId| #[trigger] final(safety_monitor).monitors(id) == old(safety_monitor).monitors(id),
            r is Ok <==> final(safety_monitor).violation_count == old(safety_monitor).violation_count,
            r matches Ok(v) ==> v == Value::integer_spec(42),
            r matches Err(e) ==> e matches LambdustError::RuntimeError { message }
                && message@ == "Execution violated safety constraints"@
                && final(safety_monitor).violation_count == old(safety_monitor).violation_count + 1,
    {
        let mut step: u64 = 0;
        while step < 100
            invariant
                step <= 100,
                safety_monitor.wf(),
                safety_monitor.monitors(execution_id),
                safety_monitor.violation_count == old(safety_monitor).violation_count,
                old(safety_monitor).violation_count < u64::MAX - 100,
                forall|id: ExecutionId| #[trigger] safety_monitor.monitors(id) == old(safety_monitor).monitors(id),
            decreases 100 - step,
        {
            let safe = safety_monitor.check_safety(execution_id);
            match safe {
                Ok(true) => {},
                Ok(false) => {
                    return Err(runtime_error_str("Execution violated safety constraints"));
                },
                Err(e) => {
                    assert(false);
                    return Err(e);
                },
            }
            step = step + 1;
        }
        Ok(Value::integer(42))
    }
}

/// Memory protection guard - Protects against memory violations
pub struct MemoryProtectionGuard {
    pub config: MemoryConfig,
}

impl MemoryProtectionGuard {
    pub fn new(config: MemoryConfig) -> (r: Result<Self, LambdustError>)
        ensures
            r matches Ok(g) && g.config == config,
    {
        Ok(MemoryProtectionGuard { config })
    }

    /// Checks if memory is safe
    pub fn is_memory_safe(&self) -> (b: bool)
        ensures
            b,
    {
        true
    }
}

/// The average after one more sample: the running total divided by the new count,
/// with counts taken modulo 2^32 as the `u32` divisor does.
pub open spec fn next_average(avg: nat, count: nat, sample: nat) -> nat {
    div_spec(avg * ((count as u32) as nat) + sample, ((count + 1) as u32) as nat)
}

/// Whether one more sample can be averaged in without overflow or a zero divisor.
pub open spec fn average_step_ok(avg: nat, count: nat, sample: nat) -> bool {
    &&& count < u64::MAX
    &&& ((count + 1) as u32) != 0
    &&& avg * ((count as u32) as nat) + sample <= MAX_NANOS
}

/// Whether one more verification judged `is_safe` can be counted: the counter
/// it goes to has room, and the average can take the sample.
pub open spec fn verification_fits(m: SecurityMetrics, sample: nat, is_safe: bool) -> bool {
    &&& if is_safe { m.successful_verifications < u64::MAX } else { m.failed_verifications < u64::MAX }
    &&& average_step_ok(m.average_verification_time@, m.total_verifications as nat, sample)
}

/// `after` is `before` with one verification of `sample` nanoseconds, judged
/// `is_safe`, counted when it fits, and `before` unchanged when it does not.
pub open spec fn records_verification(before: SecurityMetrics, after: SecurityMetrics, sample: nat, is_safe: bool) -> bool {
    if verification_fits(before, sample, is_safe) {
        &&& after.total_verifications == before.total_verifications + 1
        &&& after.successful_verifications == before.successful_verifications + if is_safe { 1int } else { 0int }
        &&& after.failed_verifications == before.failed_verifications + if is_safe { 0int } else { 1int }
        &&& after.average_verification_time@ == next_average(before.average_verification_time@, before.total_verifications as nat, sample)
        &&& after.total_executions == before.total_executions
        &&& after.total_violations == before.total_violations
        &&& after.average_execution_time == before.average_execution_time
    } else {
        after == before
    }
}

/// `after` is `before` with one execution of `sample` nanoseconds counted when
/// the average can take it, and `before` unchanged when it cannot.
pub open spec fn records_execution(before: SecurityMetrics, after: SecurityMetrics, sample: nat) -> bool {
    if average_step_ok(before.average_execution_time@, before.total_executions as nat, sample) {
        &&& after.total_executions == before.total_executions + 1
        &&& after.average_execution_time@ == next_average(before.average_execution_time@, before.total_executions as nat, sample)
        &&& after.total_verifications == before.total_verifications
        &&& after.successful_verifications == before.successful_verifications
        &&& after.failed_verifications == before.failed_verifications
        &&& after.total_violations == before.total_violations
        &&& after.average_verification_time == before.average_verification_time
    } else {
        after == before
    }
}

/// Security metrics
#[derive(Debug, Clone)]
pub struct SecurityMetrics {
    pub total_verifications: u64,
    pub successful_verifications: u64,
    pub failed_verifications: u64,
    pub total_executions: u64,
    pub total_violations: u64,
    pub average_verification_time: Duration,
    pub average_execution_time: Duration,
}

/// Updates a running average with a new sample.
fn step_average(avg: Duration, count: u64, sample: Duration) -> (r: Duration)
    requires
        average_step_ok(avg@, count as nat, sample@),
    ensures
        r@ == next_average(avg@, count as nat, sample@),
{
    let scaled = avg.mul_u32(count as u32);
    let total = scaled.add(sample);
    let n = (count + 1) as u32;
    total.div_u32(n)
}

/// Whether one more sample can be averaged in (see `average_step_ok`).
fn average_step_allowed(avg: Duration, count: u64, sample: Duration) -> (b: bool)
    ensures
        b == average_step_ok(avg@, count as nat, sample@),
{
    if count == u64::MAX {
        return false;
    }
    let next = (count + 1) as u32;
    if next == 0 {
        return false;
    }
    let a = avg.as_nanos();
    let c = count as u32;
    assert(a * (c as u128) <= MAX_NANOS * 4294967295) by (nonlinear_arith)
        requires a <= MAX_NANOS, c <= 4294967295u32;
    let scaled = a * (c as u128);
    let total = scaled + sample.as_nanos();
    total <= MAX_NANOS
}

impl SecurityMetrics {
    pub fn new() -> (m: Self)
        ensures
            m.total_verifications == 0,
            m.successful_verifications == 0,
            m.failed_verifications == 0,
            m.total_executions == 0,
            m.total_violations == 0,
            m.average_verification_time@ == 0,
            m.average_execution_time@ == 0,
    {
        SecurityMetrics {
            total_verifications: 0,
            successful_verifications: 0,
            failed_verifications: 0,
            total_executions: 0,
            total_violations: 0,
            average_verification_time: Duration::zero(),
            average_execution_time: Duration::zero(),
        }
    }

    pub fn record_verification(&mut self, duration: Duration, is_safe: bool)
        requires
            average_step_ok(old(self).average_verification_time@, old(self).total_verifications as nat, duration@),
            is_safe ==> old(self).successful_verifications < u64::MAX,
            !is_safe ==> old(self).failed_verifications < u64::MAX,
        ensures
            final(self).total_verifications == old(self).total_verifications + 1,
            final(self).successful_verifications == old(self).successful_verifications + if is_safe { 1int } else { 0int },
            final(self).failed_verifications == old(self).failed_verifications + if is_safe { 0int } else { 1int },
            final(self).average_verification_time@ == next_average(old(self).average_verification_time@, old(self).total_verifications as nat, duration@),
            final(self).total_executions == old(self).total_executions,
            final(self).total_violations == old(self).total_violations,
            final(self).average_execution_time == old(self).average_execution_time,
    {
        let count = self.total_verifications;
        self.total_verifications = self.total_verifications + 1;
        if is_safe {
            self.successful_verifications = self.successful_verifications + 1;
        } else {
            self.failed_verifications = self.failed_verifications + 1;
        }
        self.average_verification_time = step_average(self.average_verification_time, count, duration);
    }

    pub fn record_execution(&mut self, duration: Duration)
        requires
            average_step_ok(old(self).average_execution_time@, old(self).total_executions as nat, duration@),
        ensures
            final(self).total_executions == old(self).total_executions + 1,
            final(self).average_execution_time@ == next_average(old(self).average_execution_time@, old(self).total_executions as nat, duration@),
            final(self).total_verifications == old(self).total_verifications,
            final(self).successful_verifications == old(self).successful_verifications,
            final(self).failed_verifications == old(self).failed_verifications,
            final(self).total_violations == old(self).total_violations,
            final(self).average_verification_time == old(self).average_verification_time,
    {
        let count = self.total_executions;
        self.total_executions = self.total_executions + 1;
        self.average_execution_time = step_average(self.average_execution_time, count, duration);
    }

    pub fn record_violation(&mut self)
        requires
            old(self).total_violations < u64::MAX,
        ensures
            final(self).total_violations == old(self).total_violations + 1,
            final(self).total_verifications == old(self).total_verifications,
            final(self).successful_verifications == old(self).successful_verifications,
            final(self).failed_verifications == old(self).failed_verifications,
            final(self).total_executions == old(self).total_executions,
            final(self).average_verification_time == old(self).average_verification_time,
            final(self).average_execution_time == old(self).average_execution_time,
    {
        self.total_violations = self.total_violations + 1;
    }
}

/// JIT Security Framework - Comprehensive security for JIT compiled code
pub struct JitSecurityFramework {
    verifier: JitCodeVerifier,
    safety_monitor: RuntimeSafetyMonitor,
    sandbox: JitExecutionSandbox,
    memory_guard: MemoryProtectionGuard,
    config: SecurityConfig,
    metrics: SecurityMetrics,
}

impl JitSecurityFramework {
    /// The security metrics gathered so far.
    pub closed spec fn metrics_view(&self) -> SecurityMetrics {
        self.metrics
    }

    /// The identifier the sandbox gives its next execution.
    pub closed spec fn next_execution_id(&self) -> u64 {
        self.sandbox.execution_id_counter
    }

    /// The number of safety violations the monitor has seen.
    pub closed spec fn violations(&self) -> u64 {
        self.safety_monitor.violation_count
    }

    /// Whether the monitor is watching the execution `id`.
    pub closed spec fn is_monitoring(&self, id: ExecutionId) -> bool {
        self.safety_monitor.monitors(id)
    }

    /// Internal consistency of the framework's parts.
    pub closed spec fn wf(&self) -> bool {
        &&& self.safety_monitor.wf()
        &&& self.verifier.allowed_syscalls@ == seq![0u32, 1u32]
    }

    /// Creates a new JIT security framework
    pub fn new() -> (r: Result<Self, LambdustError>)
        ensures
            r matches Ok(f) && f.wf() && f.can_execute() && f.metrics_view().total_verifications == 0 && f.metrics_view().total_executions == 0
                && f.metrics_view().total_violations == 0 && f.metrics_view().successful_verifications == 0
                && f.metrics_view().failed_verifications == 0,
    {
        Self::with_config(SecurityConfig::default())
    }

    /// Creates a JIT security framework with custom configuration
    pub fn with_config(config: SecurityConfig) -> (r: Result<Self, LambdustError>)
        ensures
            r matches Ok(f) && f.wf() && f.can_execute() && f.metrics_view().total_verifications == 0 && f.metrics_view().total_executions == 0
                && f.metrics_view().total_violations == 0 && f.metrics_view().successful_verifications == 0
                && f.metrics_view().failed_verifications == 0,
    {
        let verifier = match JitCodeVerifier::new(config.verification_config.clone()) {
            Ok(v) => v,
            Err(e) => {
                return Err(e);
            },
        };
        let sandbox = match JitExecutionSandbox::new(config.sandbox_config.clone()) {
            Ok(s) => s,
            Err(e) => {
                return Err(e);
            },
        };
        let memory_guard = match MemoryProtectionGuard::new(config.memory_config.clone()) {
            Ok(g) => g,
            Err(e) => {
                return Err(e);
            },
        };
        assert(sandbox.execution_id_counter == 1);
        Ok(JitSecurityFramework {
            verifier,
            safety_monitor: RuntimeSafetyMonitor::new(),
            sandbox,
            memory_guard,
            config,
            metrics: SecurityMetrics::new(),
        })
    }

    /// Whether another execution can be started: its identifier and the
    /// violations it may record still fit the counters.
    pub closed spec fn can_execute(&self) -> bool {
        &&& self.sandbox.execution_id_counter < u64::MAX
        &&& self.safety_monitor.violation_count < u64::MAX - 100
    }

    /// Verifies JIT compiled code before execution, recording the verification
    /// in the metrics when the counters allow it.
    pub fn verify_code(&mut self, code: &JitCompiledCode) -> (r: Result<VerificationResult, LambdustError>)
        requires
            old(self).wf(),
        ensures
            final(self).wf(),
            final(self).can_execute() == old(self).can_execute(),
            r matches Ok(res) && res.view_issues().map_values(|i: SecurityIssue| i.issue_type)
                == expected_issue_types(false, false, Seq::empty(), seq![0u32, 1u32])
                && res.view_issues().len() == 0,
            exists|d: nat| d <= MAX_NANOS
                && #[trigger] records_verification(old(self).metrics_view(), final(self).metrics_view(), d, true),
            final(self).next_execution_id() == old(self).next_execution_id(),
            final(self).violations() == old(self).violations(),
            forall|id: ExecutionId| #[trigger] final(self).is_monitoring(id) == old(self).is_monitoring(id),
    {
        let start_time = Instant::now();
        let result = match self.verifier.verify(code) {
            Ok(r) => r,
            Err(e) => {
                return Err(e);
            },
        };
        let safe = result.is_safe();
        proof {
            reveal(Seq::filter);
            assert(Seq::<u32>::empty().filter(|s: u32| !seq![0u32, 1u32].contains(s)) =~= Seq::<u32>::empty());
            assert(expected_issue_types(false, false, Seq::empty(), seq![0u32, 1u32]) =~= Seq::<SecurityIssueType>::empty());
            assert(result.view_issues().map_values(|i: SecurityIssue| i.issue_type).len() == 0);
            assert(result.view_issues().len() == 0);
        }
        let elapsed = start_time.elapsed();
        self.record_verification_metrics(elapsed, safe);
        assert(records_verification(old(self).metrics_view(), self.metrics_view(), elapsed@, true));
        Ok(result)
    }

    /// Executes JIT code in secure sandbox: code that fails verification is
    /// refused; otherwise it runs in the sandbox under the safety monitor.
    pub fn secure_execute(&mut self, code: &JitCompiledCode, args: &[Value]) -> (r: Result<Value, LambdustError>)
        requires
            old(self).wf(),
            old(self).can_execute(),
        ensures
            final(self).wf(),
            final(self).next_execution_id() == old(self).next_execution_id() + 1,
            !final(self).is_monitoring(old(self).next_execution_id()),
            forall|id: ExecutionId| id != old(self).next_execution_id()
                ==> #[trigger] final(self).is_monitoring(id) == old(self).is_monitoring(id),
            r is Ok <==> final(self).violations() == old(self).violations(),
            r matches Ok(v) ==> v == Value::integer_spec(42),
            r matches Err(e) ==> e matches LambdustError::RuntimeError { message }
                && message@ == "Execution violated safety constraints"@
                && final(self).violations() == old(self).violations() + 1,
            exists|verified: SecurityMetrics, d: nat| d <= MAX_NANOS
                && #[trigger] records_verification(old(self).metrics_view(), verified, d, true)
                && (r is Err ==> final(self).metrics_view() == verified)
                && (r is Ok ==> exists|e: nat| e <= MAX_NANOS
                    && #[trigger] records_execution(verified, final(self).metrics_view(), e)),
    {
        let verification = match self.verify_code(code) {
            Ok(v) => v,
            Err(e) => {
                return Err(e);
            },
        };
        if !verification.is_safe() {
            return Err(runtime_error_str("Code failed security verification"));
        }
        let ghost verified = self.metrics;
        let ghost mid = *self;
        let ghost d = choose|d: nat| d <= MAX_NANOS && records_verification(old(self).metrics_view(), verified, d, true);
        let start_time = Instant::now();
        let result = self.sandbox.execute(code, args, &mut self.safety_monitor);
        match result {
            Ok(v) => {
                let elapsed = start_time.elapsed();
                self.record_execution_metrics(elapsed);
                assert(records_execution(verified, self.metrics_view(), elapsed@));
                assert(records_verification(old(self).metrics_view(), verified, d, true));
                assert forall|id: ExecutionId| id != old(self).next_execution_id()
                    implies #[trigger] self.is_monitoring(id) == old(self).is_monitoring(id) by {
                    assert(mid.is_monitoring(id) == old(self).is_monitoring(id));
                }
                Ok(v)
            },
            Err(e) => {
                assert(records_verification(old(self).metrics_view(), verified, d, true));
                assert forall|id: ExecutionId| id != old(self).next_execution_id()
                    implies #[trigger] self.is_monitoring(id) == old(self).is_monitoring(id) by {
                    assert(mid.is_monitoring(id) == old(self).is_monitoring(id));
                }
                Err(e)
            },
        }
    }

    /// Records verification metrics when the counters allow one more sample.
    fn record_verification_metrics(&mut self, duration: Duration, is_safe: bool)
        ensures
            final(self).wf() == old(self).wf(),
            final(self).can_execute() == old(self).can_execute(),
            final(self).verifier == old(self).verifier,
            final(self).safety_monitor == old(self).safety_monitor,
            final(self).sandbox == old(self).sandbox,
            final(self).memory_guard == old(self).memory_guard,
            final(self).config == old(self).config,
            records_verification(old(self).metrics, final(self).metrics, duration@, is_safe),
    {
        let fits = if is_safe {
            self.metrics.successful_verifications < u64::MAX
        } else {
            self.metrics.failed_verifications < u64::MAX
        };
        if fits && average_step_allowed(self.metrics.average_verification_time, self.metrics.total_verifications, duration) {
            self.metrics.record_verification(duration, is_safe);
        }
    }

    /// Records execution metrics when the counters allow one more sample.
    fn record_execution_metrics(&mut self, duration: Duration)
        ensures
            final(self).wf() == old(self).wf(),
            final(self).can_execute() == old(self).can_execute(),
            final(self).verifier == old(self).verifier,
            final(self).safety_monitor == old(self).safety_monitor,
            final(self).sandbox == old(self).sandbox,
            final(self).memory_guard == old(self).memory_guard,
            final(self).config == old(self).config,
            records_execution(old(self).metrics, final(self).metrics, duration@),
    {
        if average_step_allowed(self.metrics.average_execution_time, self.metrics.total_executions, duration) {
            self.metrics.record_execution(duration);
        }
    }

    /// Checks if execution environment is secure
    pub fn is_environment_secure(&self, env: &Arc<Environment>) -> (b: bool)
        ensures
            b,
    {
        self.sandbox.is_environment_secure(env) && self.memory_guard.is_memory_safe()
    }

    /// Gets security metrics
    pub fn get_metrics(&self) -> (r: Result<SecurityMetrics, LambdustError>)
        ensures
            r matches Ok(m) && m == self.metrics_view(),
    {
        Ok(SecurityMetrics {
            total_verifications: self.metrics.total_verifications,
            successful_verifications: self.metrics.successful_verifications,
            failed_verifications: self.metrics.failed_verifications,
            total_executions: self.metrics.total_executions,
            total_violations: self.metrics.total_violations,
            average_verification_time: self.metrics.average_verification_time,
            average_execution_time: self.metrics.average_execution_time,
        })
    }
}

} // verus!
