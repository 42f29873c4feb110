//! Core types of the formal verification subsystem: proof obligations, their
//! evidence and the manager that tracks them.
use vstd::prelude::*;
use crate::time::Duration;
use crate::value::{copy_names, same_names};

verus! {

/// File-system paths are carried through unchanged; nothing is read from them.
#[verifier::external_type_specification]
#[verifier::external_body]
pub struct ExPathBuf(std::path::PathBuf);

/// `PathBuf::clone` returns a duplicate of the path: the copy is the same
/// path value as the original.
pub assume_specification[ <std::path::PathBuf as Clone>::clone ](p: &std::path::PathBuf) -> (res: std::path::PathBuf)
    ensures
        res == *p,
;

/// Proof obligation that must be formally verified
#[derive(Debug, Clone)]
pub struct ProofObligation {
    /// Unique identifier for this obligation
    pub id: String,
    /// Human-readable description
    pub description: String,
    /// Category of the proof obligation
    pub category: ProofCategory,
    /// Mathematical statement to prove
    pub statement: FormalStatement,
    /// Priority level for proof scheduling
    pub priority: ProofPriority,
    /// Current proof status
    pub status: ProofStatus,
    /// Associated evidence or partial proofs
    pub evidence: Vec<ProofEvidence>,
    /// Dependencies on other proof obligations
    pub dependencies: Vec<String>,
}

/// Categories of proof obligations
#[derive(Debug, Clone, Copy, PartialEq, Eq, Hash, Structural)]
pub enum ProofCategory {
    /// Universe polymorphism correctness
    UniversePolymorphism,
    /// Combinatory logic equivalence
    CombinatoryLogic,
    /// Homotopy type theory consistency
    HomotopyTypeTheory,
    /// Monad transformer composition laws
    MonadTransformers,
    /// Semantic evaluator correctness
    SemanticCorrectness,
    /// Type system soundness
    TypeSystemSoundness,
    /// Memory safety guarantees
    MemorySafety,
    /// Performance bounds
    PerformanceBounds,
}

/// Mathematical statement in formal logic
#[derive(Debug, Clone)]
pub struct FormalStatement {
    /// Statement in first-order logic
    pub formula: String,
    /// Preconditions that must hold
    pub preconditions: Vec<String>,
    /// Postconditions that are guaranteed
    pub postconditions: Vec<String>,
    /// Quantified variables
    pub quantifiers: Vec<Quantifier>,
    /// Associated Agda/Coq/Lean code
    pub formal_code: Option<String>,
}

/// Quantifier in formal logic
#[derive(Debug, Clone)]
pub struct Quantifier {
    /// Variable name
    pub variable: String,
    /// Quantifier type (forall, exists)
    pub quantifier_type: QuantifierType,
    /// Type/domain of the variable
    pub domain: String,
}

/// Types of logical quantifiers
#[derive(Debug, Clone, Copy, PartialEq, Eq, Structural)]
pub enum QuantifierType {
    /// Universal quantification
    ForAll,
    /// Existential quantification
    Exists,
    /// Unique existence
    ExistsUnique,
}

/// Priority levels for proof obligations, most urgent first.
#[derive(Debug, Clone, Copy, PartialEq, Eq, PartialOrd, Ord, Structural)]
pub enum ProofPriority {
    /// Critical soundness properties
    Critical,
    /// Important correctness properties
    High,
    /// Performance and optimization properties
    Medium,
    /// Nice-to-have theoretical properties
    Low,
}

/// Status of a proof obligation
#[derive(Debug, Clone, Copy, PartialEq, Eq, Structural)]
pub enum ProofStatus {
    /// Not yet attempted
    Pending,
    /// Currently being worked on
    InProgress,
    /// Proof completed successfully
    Proven,
    /// Proof failed (counterexample found)
    Disproven,
    /// Proof timed out or resource exhausted
    Timeout,
    /// Proof skipped due to dependencies
    Skipped,
}

/// Evidence supporting a proof
#[derive(Debug, Clone)]
pub enum ProofEvidence {
    /// Property-based test results
    PropertyTests {
        /// Number of tests that passed
        passed: usize,
        /// Number of tests that failed
        failed: usize,
        /// Counterexamples found during testing
        counterexamples: Vec<String>,
    },
    /// Formal proof in external tool
    FormalProof {
        /// External proof tool used
        tool: ProofTool,
        /// Path to proof file
        proof_file: std::path::PathBuf,
        /// Checksum for proof integrity
        checksum: String,
    },
    /// Automatic prover result
    AutomaticProof {
        /// Name of the automatic prover
        prover: String,
        /// Steps in the proof derivation
        steps: Vec<ProofStep>,
        /// Time taken to find the proof
        time_taken: Duration,
    },
    /// Manual verification
    ManualVerification {
        /// Name or identifier of the verifier
        verifier: String,
        /// Date of verification
        date: String,
        /// Additional verification notes
        notes: String,
    },
}

/// External proof tools
#[derive(Debug, Clone, Copy, PartialEq, Eq, Hash, Structural)]
pub enum ProofTool {
    /// Agda proof assistant
    Agda,
    /// Coq proof assistant
    Coq,
    /// Lean proof assistant
    Lean,
    /// Isabelle/HOL
    Isabelle,
    /// PVS specification language
    PVS,
    /// TLA+ specification language
    TLA,
}

/// Lower-case name of a proof tool.
pub open spec fn proof_tool_name(t: ProofTool) -> Seq<char> {
    match t {
        ProofTool::Agda => "agda"@,
        ProofTool::Coq => "coq"@,
        ProofTool::Lean => "lean"@,
        ProofTool::Isabelle => "isabelle"@,
        ProofTool::PVS => "pvs"@,
        ProofTool::TLA => "tla"@,
    }
}

impl ProofTool {
    /// Lower-case name of the tool, as used in session identifiers.
    pub fn to_string(&self) -> (s: String)
        ensures
            s@ == proof_tool_name(*self),
    {
        let t: &str = match self {
            ProofTool::Agda => "agda",
            ProofTool::Coq => "coq",
            ProofTool::Lean => "lean",
            ProofTool::Isabelle => "isabelle",
            ProofTool::PVS => "pvs",
            ProofTool::TLA => "tla",
        };
        String::from_str(t)
    }
}

/// The name of a tool's variant, as error messages show it.
pub closed spec fn tool_variant_name(tool: ProofTool) -> Seq<char> {
    match tool {
        ProofTool::Agda => "Agda"@,
        ProofTool::Coq => "Coq"@,
        ProofTool::Lean => "Lean"@,
        ProofTool::Isabelle => "Isabelle"@,
        ProofTool::PVS => "PVS"@,
        ProofTool::TLA => "TLA"@,
    }
}

/// The variant names of the tools.
pub proof fn lemma_tool_variant_names()
    ensures
        tool_variant_name(ProofTool::Agda) == "Agda"@,
        tool_variant_name(ProofTool::Coq) == "Coq"@,
        tool_variant_name(ProofTool::Lean) == "Lean"@,
        tool_variant_name(ProofTool::Isabelle) == "Isabelle"@,
        tool_variant_name(ProofTool::PVS) == "PVS"@,
        tool_variant_name(ProofTool::TLA) == "TLA"@,
{
}

pub(crate) fn tool_variant_text(tool: ProofTool) -> (s: String)
    ensures
        s@ == tool_variant_name(tool),
{
    let t: &str = match tool {
        ProofTool::Agda => "Agda",
        ProofTool::Coq => "Coq",
        ProofTool::Lean => "Lean",
        ProofTool::Isabelle => "Isabelle",
        ProofTool::PVS => "PVS",
        ProofTool::TLA => "TLA",
    };
    String::from_str(t)
}

/// Single step in a proof derivation
#[derive(Debug, Clone)]
pub struct ProofStep {
    /// Step number
    pub step_number: usize,
    /// Rule or inference used
    pub rule: String,
    /// Premises for this step
    pub premises: Vec<String>,
    /// Conclusion derived
    pub conclusion: String,
    /// Justification or explanation
    pub justification: String,
}

/// Result of verifying one proof obligation. The confidence is counted in
/// tenths: each kind of evidence found adds its share.
#[derive(Debug)]
pub struct VerificationResult {
    /// ID of the proof obligation
    pub obligation_id: String,
    /// Overall verification outcome
    pub result: VerificationOutcome,
    /// Evidence collected during verification
    pub evidence: Vec<ProofEvidence>,
    /// Time taken for verification
    pub time_taken: Duration,
    /// Confidence level, in tenths (0 to 12)
    pub confidence_tenths: u8,
    /// Any issues or warnings found
    pub issues: Vec<VerificationIssue>,
}

/// Two optional texts, both absent or both present with the same text.
pub open spec fn same_opt_text(a: Option<String>, b: Option<String>) -> bool {
    match (a, b) {
        (Some(x), Some(y)) => x@ == y@,
        (None, None) => true,
        _ => false,
    }
}

/// Two proof steps with the same number, rule, premises, conclusion and
/// justification.
pub open spec fn same_step(a: ProofStep, b: ProofStep) -> bool {
    &&& a.step_number == b.step_number
    &&& a.rule@ == b.rule@
    &&& same_names(a.premises@, b.premises@)
    &&& a.conclusion@ == b.conclusion@
    &&& a.justification@ == b.justification@
}

/// Two pieces of evidence of the same kind with the same contents.
pub open spec fn same_evidence(a: ProofEvidence, b: ProofEvidence) -> bool {
    match (a, b) {
        (
            ProofEvidence::PropertyTests { passed: p1, failed: f1, counterexamples: c1 },
            ProofEvidence::PropertyTests { passed: p2, failed: f2, counterexamples: c2 },
        ) => p1 == p2 && f1 == f2 && same_names(c1@, c2@),
        (
            ProofEvidence::FormalProof { tool: t1, proof_file: f1, checksum: c1 },
            ProofEvidence::FormalProof { tool: t2, proof_file: f2, checksum: c2 },
        ) => t1 == t2 && f1 == f2 && c1@ == c2@,
        (
            ProofEvidence::AutomaticProof { prover: p1, steps: s1, time_taken: t1 },
            ProofEvidence::AutomaticProof { prover: p2, steps: s2, time_taken: t2 },
        ) => p1@ == p2@ && t1 == t2 && s1@.len() == s2@.len()
            && forall|i: int| 0 <= i < s1@.len() ==> #[trigger] same_step(s1@[i], s2@[i]),
        (
            ProofEvidence::ManualVerification { verifier: v1, date: d1, notes: n1 },
            ProofEvidence::ManualVerification { verifier: v2, date: d2, notes: n2 },
        ) => v1@ == v2@ && d1@ == d2@ && n1@ == n2@,
        _ => false,
    }
}

/// Two issues with the same severity, description, location and suggestion.
pub open spec fn same_issue(a: VerificationIssue, b: VerificationIssue) -> bool {
    &&& a.severity == b.severity
    &&& a.description@ == b.description@
    &&& same_opt_text(a.location, b.location)
    &&& same_opt_text(a.suggestion, b.suggestion)
}

/// Two evidence lists with the same evidence in the same order.
pub open spec fn same_evidence_list(a: Seq<ProofEvidence>, b: Seq<ProofEvidence>) -> bool {
    a.len() == b.len() && forall|i: int| 0 <= i < a.len() ==> #[trigger] same_evidence(a[i], b[i])
}

/// Two verification results with the same contents, field by field.
pub open spec fn same_result(a: VerificationResult, b: VerificationResult) -> bool {
    &&& a.obligation_id@ == b.obligation_id@
    &&& a.result == b.result
    &&& a.time_taken == b.time_taken
    &&& a.confidence_tenths == b.confidence_tenths
    &&& same_evidence_list(a.evidence@, b.evidence@)
    &&& a.issues@.len() == b.issues@.len()
    &&& forall|i: int| 0 <= i < a.issues@.len() ==> #[trigger] same_issue(a.issues@[i], b.issues@[i])
}

fn copy_opt_text(t: &Option<String>) -> (r: Option<String>)
    ensures
        same_opt_text(r, *t),
{
    match t {
        Some(x) => Some(x.clone()),
        None => None,
    }
}

fn copy_step(s: &ProofStep) -> (r: ProofStep)
    ensures
        same_step(r, *s),
{
    ProofStep {
        step_number: s.step_number,
        rule: s.rule.clone(),
        premises: copy_names(&s.premises),
        conclusion: s.conclusion.clone(),
        justification: s.justification.clone(),
    }
}

fn copy_steps(v: &Vec<ProofStep>) -> (r: Vec<ProofStep>)
    ensures
        r@.len() == v@.len(),
        forall|i: int| 0 <= i < v@.len() ==> #[trigger] same_step(r@[i], v@[i]),
{
    let mut r: Vec<ProofStep> = Vec::new();
    let mut i: usize = 0;
    while i < v.len()
        invariant
            i <= v@.len(),
            r@.len() == i,
            forall|k: int| 0 <= k < i ==> #[trigger] same_step(r@[k], v@[k]),
        decreases v@.len() - i,
    {
        r.push(copy_step(&v[i]));
        i = i + 1;
    }
    r
}

/// A copy of `e` with the same contents.
pub fn copy_evidence(e: &ProofEvidence) -> (r: ProofEvidence)
    ensures
        same_evidence(r, *e),
{
    match e {
        ProofEvidence::PropertyTests { passed, failed, counterexamples } => ProofEvidence::PropertyTests {
            passed: *passed,
            failed: *failed,
            counterexamples: copy_names(counterexamples),
        },
        ProofEvidence::FormalProof { tool, proof_file, checksum } => ProofEvidence::FormalProof {
            tool: *tool,
            proof_file: proof_file.clone(),
            checksum: checksum.clone(),
        },
        ProofEvidence::AutomaticProof { prover, steps, time_taken } => ProofEvidence::AutomaticProof {
            prover: prover.clone(),
            steps: copy_steps(steps),
            time_taken: *time_taken,
        },
        ProofEvidence::ManualVerification { verifier, date, notes } => ProofEvidence::ManualVerification {
            verifier: verifier.clone(),
            date: date.clone(),
            notes: notes.clone(),
        },
    }
}

fn copy_evidence_list(v: &Vec<ProofEvidence>) -> (r: Vec<ProofEvidence>)
    ensures
        same_evidence_list(r@, v@),
{
    let mut r: Vec<ProofEvidence> = Vec::new();
    let mut i: usize = 0;
    while i < v.len()
        invariant
            i <= v@.len(),
            r@.len() == i,
            forall|k: int| 0 <= k < i ==> #[trigger] same_evidence(r@[k], v@[k]),
        decreases v@.len() - i,
    {
        r.push(copy_evidence(&v[i]));
        i = i + 1;
    }
    r
}

fn copy_issues(v: &Vec<VerificationIssue>) -> (r: Vec<VerificationIssue>)
    ensures
        r@.len() == v@.len(),
        forall|i: int| 0 <= i < v@.len() ==> #[trigger] same_issue(r@[i], v@[i]),
{
    let mut r: Vec<VerificationIssue> = Vec::new();
    let mut i: usize = 0;
    while i < v.len()
        invariant
            i <= v@.len(),
            r@.len() == i,
            forall|k: int| 0 <= k < i ==> #[trigger] same_issue(r@[k], v@[k]),
        decreases v@.len() - i,
    {
        let x = &v[i];
        r.push(VerificationIssue {
            severity: x.severity,
            description: x.description.clone(),
            location: copy_opt_text(&x.location),
            suggestion: copy_opt_text(&x.suggestion),
        });
        i = i + 1;
    }
    r
}

/// Confidence in tenths from the evidence found: property tests add three,
/// an automatic proof four, an external tool five.
pub open spec fn confidence_from(property: bool, automatic: bool, external: bool) -> nat {
    (if property { 3nat } else { 0nat }) + (if automatic { 4nat } else { 0nat }) + (if external { 5nat } else { 0nat })
}

/// The outcome a confidence gives: success above seven tenths, incomplete
/// above three, failure otherwise.
pub open spec fn outcome_for(confidence: nat) -> VerificationOutcome {
    if confidence > 7 {
        VerificationOutcome::Success
    } else if confidence > 3 {
        VerificationOutcome::Incomplete
    } else {
        VerificationOutcome::Failure
    }
}

impl VerificationResult {
    /// A copy with the same contents.
    pub fn copy(&self) -> (r: VerificationResult)
        ensures
            same_result(r, *self),
    {
        VerificationResult {
            obligation_id: self.obligation_id.clone(),
            result: self.result,
            evidence: copy_evidence_list(&self.evidence),
            time_taken: self.time_taken,
            confidence_tenths: self.confidence_tenths,
            issues: copy_issues(&self.issues),
        }
    }
}

/// Possible outcomes of verification
#[derive(Debug, Clone, Copy, PartialEq, Eq, Structural)]
pub enum VerificationOutcome {
    /// Verification succeeded
    Success,
    /// Verification failed (counterexample found)
    Failure,
    /// Verification incomplete (timeout or resource limit)
    Incomplete,
    /// Verification skipped (dependencies not met)
    Skipped,
}

/// Issues found during verification
#[derive(Debug, Clone)]
pub struct VerificationIssue {
    /// Severity level
    pub severity: IssueSeverity,
    /// Issue description
    pub description: String,
    /// Location in code (if applicable)
    pub location: Option<String>,
    /// Suggested fix
    pub suggestion: Option<String>,
}

/// Severity levels for verification issues
#[derive(Debug, Clone, Copy, PartialEq, Eq, Structural)]
pub enum IssueSeverity {
    /// Critical issue that prevents verification
    Critical,
    /// Important issue that should be addressed
    Warning,
    /// Minor issue or suggestion
    Info,
}

/// Statistics about verification activities
#[derive(Debug, Clone)]
pub struct VerificationStatistics {
    /// Total number of proof obligations processed
    pub total_obligations: usize,
    /// Number of obligations successfully proven
    pub proven_obligations: usize,
    /// Number of obligations that failed proof
    pub failed_obligations: usize,
    /// Number of obligations skipped
    pub skipped_obligations: usize,
    /// Total time spent on verification
    pub total_time: Duration,
    /// Average time per obligation
    pub average_time: Duration,
    /// Number of property tests executed
    pub property_tests_run: usize,
    /// Number of external tool invocations
    pub external_tool_calls: usize,
}

impl VerificationStatistics {
    /// Statistics before any verification took place.
    pub fn new() -> (s: Self)
        ensures
            s.total_obligations == 0,
            s.proven_obligations == 0,
            s.failed_obligations == 0,
            s.skipped_obligations == 0,
            s.total_time@ == 0,
            s.average_time@ == 0,
            s.property_tests_run == 0,
            s.external_tool_calls == 0,
    {
        VerificationStatistics {
            total_obligations: 0,
            proven_obligations: 0,
            failed_obligations: 0,
            skipped_obligations: 0,
            total_time: Duration::zero(),
            average_time: Duration::zero(),
            property_tests_run: 0,
            external_tool_calls: 0,
        }
    }
}

/// Configuration for formal verification
#[derive(Debug, Clone)]
pub struct VerificationConfig {
    /// Maximum time to spend on each obligation
    pub max_time_per_obligation: Duration,
    /// Number of property test cases
    pub property_test_cases: usize,
    /// Enable external proof tools
    pub enable_external_tools: bool,
    /// Agda executable path
    pub agda_path: Option<std::path::PathBuf>,
    /// Coq executable path
    pub coq_path: Option<std::path::PathBuf>,
    /// Lean executable path
    pub lean_path: Option<std::path::PathBuf>,
    /// Verification cache size
    pub cache_size: usize,
}

impl VerificationConfig {
    /// The default configuration: five minutes per obligation, a thousand
    /// property tests, external tools off, no tool paths.
    pub fn default() -> (c: Self)
        ensures
            c.max_time_per_obligation@ == 300_000_000_000,
            c.property_test_cases == 1000,
            !c.enable_external_tools,
            c.agda_path is None,
            c.coq_path is None,
            c.lean_path is None,
            c.cache_size == 1000,
    {
        VerificationConfig {
            max_time_per_obligation: Duration::from_secs(300),
            property_test_cases: 1000,
            enable_external_tools: false,
            agda_path: None,
            coq_path: None,
            lean_path: None,
            cache_size: 1000,
        }
    }
}

/// No two obligations share an identifier.
pub open spec fn ids_unique(obs: Seq<ProofObligation>) -> bool {
    forall|i: int, j: int|
        0 <= i < obs.len() && 0 <= j < obs.len() && i != j ==> #[trigger] obs[i].id@ != #[trigger] obs[j].id@
}

/// Whether some obligation has the identifier `id`.
pub open spec fn has_id(obs: Seq<ProofObligation>, id: Seq<char>) -> bool {
    exists|i: int| 0 <= i < obs.len() && #[trigger] obs[i].id@ == id
}

/// Index of the obligation with identifier `id` (meaningful when `has_id`).
pub open spec fn index_of(obs: Seq<ProofObligation>, id: Seq<char>) -> int {
    choose|i: int| 0 <= i < obs.len() && #[trigger] obs[i].id@ == id
}

/// The obligation with identifier `id`, if any.
pub open spec fn lookup(obs: Seq<ProofObligation>, id: Seq<char>) -> Option<ProofObligation> {
    if has_id(obs, id) {
        Some(obs[index_of(obs, id)])
    } else {
        None
    }
}

/// No category appears twice in the category index.
pub open spec fn categories_unique(cats: Seq<(ProofCategory, Vec<String>)>) -> bool {
    forall|i: int, j: int|
        0 <= i < cats.len() && 0 <= j < cats.len() && i != j ==> #[trigger] cats[i].0 != #[trigger] cats[j].0
}

/// Identifiers recorded for a category, in the order they were added.
pub open spec fn category_ids(cats: Seq<(ProofCategory, Vec<String>)>, c: ProofCategory) -> Seq<Seq<char>> {
    if exists|k: int| 0 <= k < cats.len() && #[trigger] cats[k].0 == c {
        let k = choose|k: int| 0 <= k < cats.len() && #[trigger] cats[k].0 == c;
        cats[k].1@.map_values(|s: String| s@)
    } else {
        Seq::empty()
    }
}

/// Whether `id` names a proven obligation.
pub open spec fn dep_proven(obs: Seq<ProofObligation>, id: Seq<char>) -> bool {
    match lookup(obs, id) {
        Some(dep) => dep.status == ProofStatus::Proven,
        None => false,
    }
}

/// An obligation is ready when it is pending and every dependency names a proven obligation.
pub open spec fn is_ready(obs: Seq<ProofObligation>, ob: ProofObligation) -> bool {
    &&& ob.status == ProofStatus::Pending
    &&& forall|d: int| 0 <= d < ob.dependencies@.len() ==>
        #[trigger] dep_proven(obs, ob.dependencies@[d]@)
}

/// Manager for proof obligations
#[derive(Debug)]
pub struct ProofObligationManager {
    /// Active proof obligations, one per identifier
    pub obligations: Vec<ProofObligation>,
    /// Dependency graph
    pub dependencies: Vec<(String, Vec<String>)>,
    /// Obligation identifiers by category
    pub categories: Vec<(ProofCategory, Vec<String>)>,
}

proof fn lemma_index_of(obs: Seq<ProofObligation>, i: int)
    requires
        ids_unique(obs),
        0 <= i < obs.len(),
    ensures
        has_id(obs, obs[i].id@),
        index_of(obs, obs[i].id@) == i,
        lookup(obs, obs[i].id@) == Some(obs[i]),
{
    assert(has_id(obs, obs[i].id@));
}

proof fn lemma_category_ids(cats: Seq<(ProofCategory, Vec<String>)>, k: int)
    requires
        categories_unique(cats),
        0 <= k < cats.len(),
    ensures
        category_ids(cats, cats[k].0) == cats[k].1@.map_values(|s: String| s@),
{
    assert(cats[k].0 == cats[k].0);
}

/// Whether two strings hold the same text.
pub(crate) fn same_text(a: &String, b: &str) -> (r: bool)
    ensures
        r == (a@ == b@),
{
    let bs = String::from_str(b);
    *a == bs
}

impl ProofObligationManager {
    /// Identifiers are unique and each category has at most one index entry.
    pub open spec fn wf(&self) -> bool {
        &&& ids_unique(self.obligations@)
        &&& categories_unique(self.categories@)
    }

    /// Create a new proof obligation manager
    pub fn new() -> (m: Self)
        ensures
            m.wf(),
            m.obligations@.len() == 0,
            m.dependencies@.len() == 0,
            m.categories@.len() == 0,
    {
        Self { obligations: Vec::new(), dependencies: Vec::new(), categories: Vec::new() }
    }

    fn find_obligation(&self, id: &str) -> (r: Option<usize>)
        requires
            self.wf(),
        ensures
            match r {
                Some(i) => i < self.obligations@.len() && self.obligations@[i as int].id@ == id@,
                None => !has_id(self.obligations@, id@),
            },
    {
        let mut i: usize = 0;
        while i < self.obligations.len()
            invariant
                i <= self.obligations@.len(),
                forall|j: int| 0 <= j < i ==> #[trigger] self.obligations@[j].id@ != id@,
            decreases self.obligations@.len() - i,
        {
            if same_text(&self.obligations[i].id, id) {
                return Some(i);
            }
            i = i + 1;
        }
        None
    }

    fn find_category(&self, category: ProofCategory) -> (r: Option<usize>)
        ensures
            match r {
                Some(k) => k < self.categories@.len() && self.categories@[k as int].0 == category,
                None => forall|k: int| 0 <= k < self.categories@.len() ==> #[trigger] self.categories@[k].0 != category,
            },
    {
        let mut k: usize = 0;
        while k < self.categories.len()
            invariant
                k <= self.categories@.len(),
                forall|j: int| 0 <= j < k ==> #[trigger] self.categories@[j].0 != category,
            decreases self.categories@.len() - k,
        {
            if self.categories[k].0 == category {
                return Some(k);
            }
            k = k + 1;
        }
        None
    }

    /// Add a new proof obligation; an obligation with the same identifier is replaced,
    /// and the identifier is appended to its category's index.
    pub fn add_obligation(&mut self, obligation: ProofObligation)
        requires
            old(self).wf(),
        ensures
            final(self).wf(),
            lookup(final(self).obligations@, obligation.id@) == Some(obligation),
            forall|id: Seq<char>| id != obligation.id@ ==>
                #[trigger] lookup(final(self).obligations@, id) == lookup(old(self).obligations@, id),
            has_id(old(self).obligations@, obligation.id@) ==>
                final(self).obligations@.len() == old(self).obligations@.len(),
            !has_id(old(self).obligations@, obligation.id@) ==>
                final(self).obligations@ == old(self).obligations@.push(obligation),
            category_ids(final(self).categories@, obligation.category)
                == category_ids(old(self).categories@, obligation.category).push(obligation.id@),
            forall|c: ProofCategory| c != obligation.category ==>
                #[trigger] category_ids(final(self).categories@, c) == category_ids(old(self).categories@, c),
            final(self).dependencies@ == old(self).dependencies@,
    {
        let id = obligation.id.clone();
        let category = obligation.category;
        let ghost old_obs = self.obligations@;
        let ghost old_cats = self.categories@;
        // Add to category index
        match self.find_category(category) {
            Some(k) => {
                let mut entry = self.categories.remove(k);
                let ghost old_ids = entry.1@;
                entry.1.push(id.clone());
                self.categories.insert(k, entry);
                proof {
                    assert(self.categories@ == old_cats.update(k as int, entry));
                    assert(categories_unique(self.categories@));
                    lemma_category_ids(self.categories@, k as int);
                    lemma_category_ids(old_cats, k as int);
                    assert(entry.1@.map_values(|s: String| s@) =~= old_ids.map_values(|s: String| s@).push(id@));
                    assert forall|c: ProofCategory| c != category implies
                        #[trigger] category_ids(self.categories@, c) == category_ids(old_cats, c) by {
                        if exists|j: int| 0 <= j < old_cats.len() && #[trigger] old_cats[j].0 == c {
                            let j = choose|j: int| 0 <= j < old_cats.len() && #[trigger] old_cats[j].0 == c;
                            lemma_category_ids(old_cats, j);
                            lemma_category_ids(self.categories@, j);
                        } else {
                            assert forall|j: int| 0 <= j < self.categories@.len() implies
                                #[trigger] self.categories@[j].0 != c by {
                                if j != k {
                                    assert(self.categories@[j] == old_cats[j]);
                                }
                            }
                        }
                    }
                }
            },
            None => {
                let mut ids: Vec<String> = Vec::new();
                ids.push(id.clone());
                self.categories.push((category, ids));
                proof {
                    let n = old_cats.len() as int;
                    assert(self.categories@ == old_cats.push((category, ids)));
                    assert(categories_unique(self.categories@));
                    lemma_category_ids(self.categories@, n);
                    assert(ids@.map_values(|s: String| s@) =~= seq![id@]);
                    assert(category_ids(old_cats, category) == Seq::<Seq<char>>::empty());
                    assert(seq![id@] =~= Seq::<Seq<char>>::empty().push(id@));
                    assert forall|c: ProofCategory| c != category implies
                        #[trigger] category_ids(self.categories@, c) == category_ids(old_cats, c) by {
                        if exists|j: int| 0 <= j < old_cats.len() && #[trigger] old_cats[j].0 == c {
                            let j = choose|j: int| 0 <= j < old_cats.len() && #[trigger] old_cats[j].0 == c;
                            lemma_category_ids(old_cats, j);
                            lemma_category_ids(self.categories@, j);
                        } else {
                            assert forall|j: int| 0 <= j < self.categories@.len() implies
                                #[trigger] self.categories@[j].0 != c by {
                                if j < n {
                                    assert(self.categories@[j] == old_cats[j]);
                                }
                            }
                        }
                    }
                }
            },
        }
        // Store the obligation
        match self.find_obligation(id.as_str()) {
            Some(i) => {
                let ghost ob = obligation;
                self.obligations.set(i, obligation);
                proof {
                    assert(self.obligations@ == old_obs.update(i as int, ob));
                    assert(ids_unique(self.obligations@));
                    lemma_index_of(self.obligations@, i as int);
                    assert forall|other: Seq<char>| other != ob.id@ implies
                        #[trigger] lookup(self.obligations@, other) == lookup(old_obs, other) by {
                        if has_id(old_obs, other) {
                            let j = index_of(old_obs, other);
                            lemma_index_of(old_obs, j);
                            lemma_index_of(self.obligations@, j);
                        } else {
                            assert forall|j: int| 0 <= j < self.obligations@.len() implies
                                #[trigger] self.obligations@[j].id@ != other by {
                                if j != i {
                                    assert(self.obligations@[j] == old_obs[j]);
                                }
                            }
                        }
                    }
                }
            },
            None => {
                let ghost ob = obligation;
                self.obligations.push(obligation);
                proof {
                    let n = old_obs.len() as int;
                    assert(ids_unique(self.obligations@));
                    lemma_index_of(self.obligations@, n);
                    assert forall|other: Seq<char>| other != ob.id@ implies
                        #[trigger] lookup(self.obligations@, other) == lookup(old_obs, other) by {
                        if has_id(old_obs, other) {
                            let j = index_of(old_obs, other);
                            lemma_index_of(old_obs, j);
                            lemma_index_of(self.obligations@, j);
                        } else {
                            assert forall|j: int| 0 <= j < self.obligations@.len() implies
                                #[trigger] self.obligations@[j].id@ != other by {
                                if j < n {
                                    assert(self.obligations@[j] == old_obs[j]);
                                }
                            }
                        }
                    }
                }
            },
        }
    }

    /// Get a proof obligation by ID
    pub fn get_obligation(&self, id: &str) -> (r: Option<&ProofObligation>)
        requires
            self.wf(),
        ensures
            match r {
                Some(o) => lookup(self.obligations@, id@) == Some(*o),
                None => lookup(self.obligations@, id@) is None,
            },
    {
        match self.find_obligation(id) {
            Some(i) => {
                proof {
                    lemma_index_of(self.obligations@, i as int);
                }
                Some(&self.obligations[i])
            },
            None => None,
        }
    }

    /// Get all obligations in a category, in the order their identifiers were
    /// indexed, skipping identifiers that name no obligation.
    pub fn get_obligations_by_category(&self, category: &ProofCategory) -> (r: Vec<&ProofObligation>)
        requires
            self.wf(),
        ensures
            r@.map_values(|o: &ProofObligation| *o) == lookups(self.obligations@, category_ids(self.categories@, *category)),
    {
        let mut out: Vec<&ProofObligation> = Vec::new();
        match self.find_category(*category) {
            Some(k) => {
                let ids = &self.categories[k].1;
                proof {
                    lemma_category_ids(self.categories@, k as int);
                }
                let ghost all = ids@.map_values(|s: String| s@);
                let mut j: usize = 0;
                while j < ids.len()
                    invariant
                        self.wf(),
                        all == ids@.map_values(|s: String| s@),
                        j <= ids@.len(),
                        out@.map_values(|o: &ProofObligation| *o) == lookups(self.obligations@, all.take(j as int)),
                    decreases ids@.len() - j,
                {
                    let ghost before = out@;
                    let found = self.find_obligation(ids[j].as_str());
                    proof {
                        assert(all.take(j as int + 1).drop_last() =~= all.take(j as int));
                        assert(all.take(j as int + 1).last() == ids@[j as int]@);
                    }
                    match found {
                        Some(i) => {
                            proof {
                                lemma_index_of(self.obligations@, i as int);
                            }
                            out.push(&self.obligations[i]);
                            assert(out@.map_values(|o: &ProofObligation| *o) =~= before.map_values(|o: &ProofObligation| *o).push(self.obligations@[i as int]));
                        },
                        None => {},
                    }
                    j = j + 1;
                }
                assert(all.take(ids@.len() as int) =~= all);
            },
            None => {
                assert(category_ids(self.categories@, *category) =~= Seq::<Seq<char>>::empty());
                assert(out@.map_values(|o: &ProofObligation| *o) =~= Seq::<ProofObligation>::empty());
            },
        }
        out
    }

    fn dependencies_proven(&self, ob: &ProofObligation) -> (r: bool)
        requires
            self.wf(),
        ensures
            r == (forall|d: int| 0 <= d < ob.dependencies@.len() ==>
                #[trigger] dep_proven(self.obligations@, ob.dependencies@[d]@)),
    {
        let mut d: usize = 0;
        while d < ob.dependencies.len()
            invariant
                self.wf(),
                d <= ob.dependencies@.len(),
                forall|e: int| 0 <= e < d ==>
                    #[trigger] dep_proven(self.obligations@, ob.dependencies@[e]@),
            decreases ob.dependencies@.len() - d,
        {
            match self.find_obligation(ob.dependencies[d].as_str()) {
                Some(i) => {
                    proof {
                        lemma_index_of(self.obligations@, i as int);
                    }
                    if self.obligations[i].status != ProofStatus::Proven {
                        assert(!dep_proven(self.obligations@, ob.dependencies@[d as int]@));
                        return false;
                    }
                },
                None => {
                    assert(!dep_proven(self.obligations@, ob.dependencies@[d as int]@));
                    return false;
                },
            }
            d = d + 1;
        }
        true
    }

    /// Get obligations ready for proof (dependencies satisfied), in storage order.
    pub fn get_ready_obligations(&self) -> (r: Vec<&ProofObligation>)
        requires
            self.wf(),
        ensures
            r@.map_values(|o: &ProofObligation| *o) == self.obligations@.filter(|o: ProofObligation| is_ready(self.obligations@, o)),
    {
        let ghost obs = self.obligations@;
        let ghost pred = |o: ProofObligation| is_ready(obs, o);
        let mut out: Vec<&ProofObligation> = Vec::new();
        let mut i: usize = 0;
        while i < self.obligations.len()
            invariant
                self.wf(),
                obs == self.obligations@,
                pred == (|o: ProofObligation| is_ready(obs, o)),
                i <= obs.len(),
                out@.map_values(|o: &ProofObligation| *o) == obs.take(i as int).filter(pred),
            decreases obs.len() - i,
        {
            let ghost before = out@;
            let ob = &self.obligations[i];
            proof {
                reveal_with_fuel(Seq::<ProofObligation>::filter, 1);
                assert(obs.take(i as int + 1).drop_last() =~= obs.take(i as int));
            }
            if ob.status == ProofStatus::Pending && self.dependencies_proven(ob) {
                out.push(ob);
                assert(out@.map_values(|o: &ProofObligation| *o) =~= before.map_values(|o: &ProofObligation| *o).push(*ob));
            }
            i = i + 1;
        }
        assert(obs.take(obs.len() as int) =~= obs);
        out
    }

    /// Update obligation status; an unknown identifier changes nothing.
    pub fn update_status(&mut self, id: &str, status: ProofStatus)
        requires
            old(self).wf(),
        ensures
            final(self).wf(),
            final(self).categories@ == old(self).categories@,
            final(self).dependencies@ == old(self).dependencies@,
            final(self).obligations@.len() == old(self).obligations@.len(),
            forall|i: int| 0 <= i < old(self).obligations@.len() ==>
                #[trigger] final(self).obligations@[i] == if old(self).obligations@[i].id@ == id@ {
                    ProofObligation { status, ..old(self).obligations@[i] }
                } else {
                    old(self).obligations@[i]
                },
    {
        if let Some(i) = self.find_obligation(id) {
            let mut ob = self.obligations.remove(i);
            ob.status = status;
            self.obligations.insert(i, ob);
            proof {
                assert forall|j: int| 0 <= j < old(self).obligations@.len() && j != i implies
                    #[trigger] old(self).obligations@[j].id@ != id@ by {
                    assert(old(self).obligations@[j].id@ != old(self).obligations@[i as int].id@);
                }
                assert(forall|j: int| 0 <= j < self.obligations@.len() ==> #[trigger] self.obligations@[j].id@ == old(self).obligations@[j].id@);
            }
        }
    }

    /// Add evidence to an obligation; an unknown identifier changes nothing.
    pub fn add_evidence(&mut self, id: &str, evidence: ProofEvidence)
        requires
            old(self).wf(),
        ensures
            final(self).wf(),
            final(self).categories@ == old(self).categories@,
            final(self).dependencies@ == old(self).dependencies@,
            final(self).obligations@.len() == old(self).obligations@.len(),
            forall|i: int| 0 <= i < old(self).obligations@.len() ==> {
                let o = old(self).obligations@[i];
                let n = #[trigger] final(self).obligations@[i];
                if o.id@ == id@ {
                    n.evidence@ == o.evidence@.push(evidence) && n.id == o.id && n.status == o.status
                        && n.category == o.category && n.dependencies == o.dependencies
                        && n.description == o.description && n.priority == o.priority
                        && n.statement == o.statement
                } else {
                    n == o
                }
            },
    {
        if let Some(i) = self.find_obligation(id) {
            let mut ob = self.obligations.remove(i);
            ob.evidence.push(evidence);
            self.obligations.insert(i, ob);
            proof {
                assert forall|j: int| 0 <= j < old(self).obligations@.len() && j != i implies
                    #[trigger] old(self).obligations@[j].id@ != id@ by {
                    assert(old(self).obligations@[j].id@ != old(self).obligations@[i as int].id@);
                }
                assert(forall|j: int| 0 <= j < self.obligations@.len() ==> #[trigger] self.obligations@[j].id@ == old(self).obligations@[j].id@);
            }
        }
    }
}

/// The obligations named by `ids`, skipping identifiers that name none.
pub open spec fn lookups(obs: Seq<ProofObligation>, ids: Seq<Seq<char>>) -> Seq<ProofObligation>
    decreases ids.len(),
{
    if ids.len() == 0 {
        Seq::empty()
    } else {
        let prev = lookups(obs, ids.drop_last());
        match lookup(obs, ids.last()) {
            Some(o) => prev.push(o),
            None => prev,
        }
    }
}

} // verus!
