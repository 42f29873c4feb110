//! Interface to external proof assistants: tool configuration, proof sessions
//! and the generation of each tool's source text for an obligation.
use vstd::prelude::*;
use crate::error::{LambdustError, runtime_error_str};
use crate::time::{Duration, Instant, MAX_NANOS};
use super::core_types::{ProofTool, ProofObligation, ProofEvidence, ProofCategory, proof_tool_name, tool_variant_name, tool_variant_text};

verus! {

/// Configuration for a proof tool
#[derive(Debug, Clone)]
pub struct ToolConfiguration {
    /// Executable path
    pub executable: std::path::PathBuf,
    /// Command line arguments
    pub args: Vec<String>,
    /// Working directory
    pub work_dir: std::path::PathBuf,
    /// Timeout for tool invocation
    pub timeout: Duration,
}

/// Active proof session with external tool
#[derive(Debug)]
pub struct ProofSession {
    /// Tool being used
    pub tool: ProofTool,
    /// Session identifier
    pub session_id: String,
    /// Start time
    pub start_time: Instant,
    /// Current proof state
    pub state: ProofSessionState,
}

/// State of a proof session
#[derive(Debug, Clone)]
pub enum ProofSessionState {
    /// Session starting up
    Initializing,
    /// Ready to accept commands
    Ready,
    /// Processing a proof
    Proving,
    /// Proof completed; `true` on success
    Completed(bool),
    /// Session failed
    Failed(String),
}

/// Interface to external proof assistants
#[derive(Debug)]
pub struct ProofAssistantInterface {
    /// Available tools, each at most once
    available_tools: Vec<ProofTool>,
    /// Tool configurations, at most one per tool
    tool_configs: Vec<(ProofTool, ToolConfiguration)>,
    /// Active proof sessions, at most one per identifier
    active_sessions: Vec<ProofSession>,
}

/// Session identifiers are unique.
pub open spec fn session_ids_unique(s: Seq<ProofSession>) -> bool {
    forall|i: int, j: int|
        0 <= i < s.len() && 0 <= j < s.len() && i != j ==> #[trigger] s[i].session_id@ != #[trigger] s[j].session_id@
}

/// A sequence without repeated elements.
pub open spec fn tools_unique(t: Seq<ProofTool>) -> bool {
    forall|i: int, j: int| 0 <= i < t.len() && 0 <= j < t.len() && i != j ==> #[trigger] t[i] != #[trigger] t[j]
}

/// The configured tools are unique.
pub open spec fn configs_unique(c: Seq<(ProofTool, ToolConfiguration)>) -> bool {
    forall|i: int, j: int| 0 <= i < c.len() && 0 <= j < c.len() && i != j ==> #[trigger] c[i].0 != #[trigger] c[j].0
}

/// The session identifier for running `tool` on obligation `id`.
pub open spec fn session_id_for(tool: ProofTool, id: Seq<char>) -> Seq<char> {
    proof_tool_name(tool) + "_"@ + id
}

/// Whether the external tools can establish obligations of this category.
pub open spec fn category_provable(c: ProofCategory) -> bool {
    c == ProofCategory::UniversePolymorphism || c == ProofCategory::CombinatoryLogic
}

/// `str::replace("-", "_")`: the text with every hyphen turned into an underscore.
pub open spec fn hyphens_to_underscores(s: Seq<char>) -> Seq<char> {
    s.map_values(|c: char| if c == '-' { '_' } else { c })
}

/// Calls `str::replace(s, "-", "_")`, which turns every hyphen into an underscore.
#[verifier::external_body]
fn replace_hyphens(s: &str) -> (r: String)
    ensures
        r@ == hyphens_to_underscores(s@),
{
    s.replace("-", "_")
}

/// Calls `PathBuf::from` on the text; the path is carried, nothing is stated of it.
#[verifier::external_body]
fn path_from_text(s: String) -> (p: std::path::PathBuf) {
    std::path::PathBuf::from(s)
}

impl ProofAssistantInterface {
    /// Tools, configurations and sessions are each free of repetition.
    pub open spec fn wf(&self) -> bool {
        &&& tools_unique(self.tools())
        &&& configs_unique(self.configs())
        &&& session_ids_unique(self.sessions())
    }

    /// The available tools.
    pub closed spec fn tools(&self) -> Seq<ProofTool> {
        self.available_tools@
    }

    /// The tool configurations.
    pub closed spec fn configs(&self) -> Seq<(ProofTool, ToolConfiguration)> {
        self.tool_configs@
    }

    /// The active sessions.
    pub closed spec fn sessions(&self) -> Seq<ProofSession> {
        self.active_sessions@
    }

    /// Create a new proof assistant interface
    pub fn new() -> (p: Self)
        ensures
            p.wf(),
            p.tools().len() == 0,
            p.configs().len() == 0,
            p.sessions().len() == 0,
    {
        Self { available_tools: Vec::new(), tool_configs: Vec::new(), active_sessions: Vec::new() }
    }

    /// Configure a proof tool, replacing an earlier configuration of it, and
    /// make it available.
    pub fn configure_tool(&mut self, tool: ProofTool, config: ToolConfiguration)
        requires
            old(self).wf(),
        ensures
            final(self).wf(),
            final(self).tools().to_set() == old(self).tools().to_set().insert(tool),
            exists|k: int| 0 <= k < final(self).configs().len() && #[trigger] final(self).configs()[k] == (tool, config),
            forall|k: int| 0 <= k < old(self).configs().len() && old(self).configs()[k].0 != tool
                ==> final(self).configs().contains(#[trigger] old(self).configs()[k]),
            final(self).sessions() == old(self).sessions(),
    {
        let found_at = self.find_config(tool);
        let ghost old_configs = self.tool_configs@;
        let ghost mut kk: int = 0;
        if let Some(k) = found_at {
            self.tool_configs.set(k, (tool, config));
            proof {
                kk = k as int;
                assert(self.tool_configs@[k as int] == (tool, config));
                assert forall|x: int, y: int| 0 <= x < self.tool_configs@.len() && 0 <= y < self.tool_configs@.len() && x != y
                    implies #[trigger] self.tool_configs@[x].0 != #[trigger] self.tool_configs@[y].0 by {
                    assert(self.tool_configs@[x].0 == old_configs[x].0);
                    assert(self.tool_configs@[y].0 == old_configs[y].0);
                }
                assert forall|j: int| 0 <= j < old_configs.len() && old_configs[j].0 != tool
                    implies self.tool_configs@.contains(#[trigger] old_configs[j]) by {
                    assert(self.tool_configs@[j] == old_configs[j]);
                }
            }
        } else {
            self.tool_configs.push((tool, config));
            proof {
                let n = old_configs.len() as int;
                kk = n;
                assert(self.tool_configs@[n] == (tool, config));
                assert forall|x: int, y: int| 0 <= x < self.tool_configs@.len() && 0 <= y < self.tool_configs@.len() && x != y
                    implies #[trigger] self.tool_configs@[x].0 != #[trigger] self.tool_configs@[y].0 by {
                    if x < n {
                        assert(self.tool_configs@[x] == old_configs[x]);
                    }
                    if y < n {
                        assert(self.tool_configs@[y] == old_configs[y]);
                    }
                }
                assert forall|j: int| 0 <= j < old_configs.len() && old_configs[j].0 != tool
                    implies self.tool_configs@.contains(#[trigger] old_configs[j]) by {
                    assert(self.tool_configs@[j] == old_configs[j]);
                }
            }
        }
        let ghost old_tools = self.available_tools@;
        let present = self.tool_available(tool);
        assert(self.tool_configs@[kk] == (tool, config));
        if !present {
            self.available_tools.push(tool);
            proof {
                let n = old_tools.len() as int;
                assert forall|x: int, y: int| 0 <= x < self.available_tools@.len() && 0 <= y < self.available_tools@.len() && x != y
                    implies #[trigger] self.available_tools@[x] != #[trigger] self.available_tools@[y] by {
                    if x < n {
                        assert(self.available_tools@[x] == old_tools[x]);
                        assert(old_tools.contains(old_tools[x]));
                    }
                    if y < n {
                        assert(self.available_tools@[y] == old_tools[y]);
                        assert(old_tools.contains(old_tools[y]));
                    }
                }
            }
            assert(self.available_tools@.to_set() =~= old_tools.to_set().insert(tool)) by {
                assert(self.available_tools@ == old_tools.push(tool));
                old_tools.lemma_push_to_set_commute(tool);
            }
        } else {
            assert(old_tools.to_set().contains(tool));
            assert(old_tools.to_set() =~= old_tools.to_set().insert(tool));
        }
        assert(self.configs()[kk] == (tool, config));
    }

    /// Check if any tools are available
    pub fn has_available_tools(&self) -> (b: bool)
        ensures
            b == (self.tools().len() > 0),
    {
        self.available_tools.len() > 0
    }

    /// Get available tools
    pub fn get_available_tools(&self) -> (t: &Vec<ProofTool>)
        ensures
            t@ == self.tools(),
    {
        &self.available_tools
    }

    fn find_config(&self, tool: ProofTool) -> (r: Option<usize>)
        ensures
            match r {
                Some(k) => k < self.configs().len() && self.configs()[k as int].0 == tool,
                None => forall|j: int| 0 <= j < self.configs().len() ==> #[trigger] self.configs()[j].0 != tool,
            },
    {
        let mut k: usize = 0;
        while k < self.tool_configs.len()
            invariant
                k <= self.tool_configs@.len(),
                forall|j: int| 0 <= j < k ==> #[trigger] self.tool_configs@[j].0 != tool,
            decreases self.tool_configs@.len() - k,
        {
            if self.tool_configs[k].0 == tool {
                return Some(k);
            }
            k = k + 1;
        }
        None
    }

    fn tool_available(&self, tool: ProofTool) -> (b: bool)
        ensures
            b == self.tools().contains(tool),
    {
        let mut i: usize = 0;
        while i < self.available_tools.len()
            invariant
                i <= self.available_tools@.len(),
                forall|j: int| 0 <= j < i ==> #[trigger] self.available_tools@[j] != tool,
            decreases self.available_tools@.len() - i,
        {
            if self.available_tools[i] == tool {
                assert(self.available_tools@[i as int] == tool);
                return true;
            }
            i = i + 1;
        }
        false
    }

    fn find_session(&self, session_id: &str) -> (r: Option<usize>)
        ensures
            match r {
                Some(i) => i < self.sessions().len() && self.sessions()[i as int].session_id@ == session_id@,
                None => forall|j: int| 0 <= j < self.sessions().len() ==> #[trigger] self.sessions()[j].session_id@ != session_id@,
            },
    {
        let mut i: usize = 0;
        while i < self.active_sessions.len()
            invariant
                i <= self.active_sessions@.len(),
                forall|j: int| 0 <= j < i ==> #[trigger] self.active_sessions@[j].session_id@ != session_id@,
            decreases self.active_sessions@.len() - i,
        {
            let bs = String::from_str(session_id);
            if self.active_sessions[i].session_id == bs {
                return Some(i);
            }
            i = i + 1;
        }
        None
    }

    /// Start a proof session with a specific tool; the session is recorded under
    /// the identifier `<tool>_<obligation id>` (replacing a session of that
    /// identifier) and left ready.
    pub fn start_session(&mut self, tool: ProofTool, obligation: &ProofObligation) -> (r: Result<String, LambdustError>)
        requires
            old(self).wf(),
        ensures
            final(self).wf(),
            final(self).tools() == old(self).tools(),
            final(self).configs() == old(self).configs(),
            r is Ok <==> old(self).tools().contains(tool),
            r matches Err(e) ==> (e matches LambdustError::RuntimeError { message }
                && message@ == "Tool "@ + tool_variant_name(tool) + " is not available"@)
                && final(self).sessions() == old(self).sessions(),
            r matches Ok(id) ==> {
                &&& id@ == session_id_for(tool, obligation.id@)
                &&& exists|k: int| 0 <= k < final(self).sessions().len()
                    && #[trigger] final(self).sessions()[k].session_id@ == id@
                    && final(self).sessions()[k].tool == tool
                    && final(self).sessions()[k].state is Ready
                &&& forall|k: int| 0 <= k < old(self).sessions().len()
                    && #[trigger] old(self).sessions()[k].session_id@ != id@
                    ==> final(self).sessions().contains(old(self).sessions()[k])
                &&& forall|k: int| 0 <= k < final(self).sessions().len()
                    && #[trigger] final(self).sessions()[k].session_id@ != id@
                    ==> old(self).sessions().contains(final(self).sessions()[k])
            },
    {
        if !self.tool_available(tool) {
            let mut message = String::from_str("Tool ");
            let name = tool_variant_text(tool);
            message.append(name.as_str());
            message.append(" is not available");
            assert(message@ =~= "Tool "@ + tool_variant_name(tool) + " is not available"@);
            return Err(LambdustError::runtime_error(message));
        }
        let mut session_id = tool.to_string();
        session_id.append("_");
        session_id.append(obligation.id.as_str());
        let session = ProofSession {
            tool,
            session_id: session_id.clone(),
            start_time: Instant::now(),
            state: ProofSessionState::Initializing,
        };
        let ghost sess = session;
        let ghost s0 = self.active_sessions@;
        self.insert_session(session);
        let ghost s1 = self.active_sessions@;
        let init = self.initialize_tool_session(tool, session_id.as_str(), obligation);
        proof {
            let sid = session_id@;
            assert(sid == session_id_for(tool, obligation.id@));
            let k = choose|k: int| 0 <= k < s1.len() && s1[k] == sess;
            assert(self.active_sessions@[k].session_id@ == sid);
            assert forall|j: int| 0 <= j < s0.len() && #[trigger] s0[j].session_id@ != sid
                implies self.active_sessions@.contains(s0[j]) by {
                assert(s1.contains(s0[j]));
                let m = choose|m: int| 0 <= m < s1.len() && s1[m] == s0[j];
                assert(self.active_sessions@[m] == s0[j]);
            }
            assert forall|j: int| 0 <= j < self.active_sessions@.len() && #[trigger] self.active_sessions@[j].session_id@ != sid
                implies s0.contains(self.active_sessions@[j]) by {
                assert(self.active_sessions@[j] == s1[j]);
            }
        }
        match init {
            Ok(()) => Ok(session_id),
            Err(e) => Err(e),
        }
    }

    /// Records a session, replacing one with the same identifier.
    fn insert_session(&mut self, session: ProofSession)
        requires
            old(self).wf(),
        ensures
            final(self).wf(),
            final(self).tools() == old(self).tools(),
            final(self).configs() == old(self).configs(),
            final(self).sessions().contains(session),
            forall|k: int| 0 <= k < old(self).sessions().len()
                && #[trigger] old(self).sessions()[k].session_id@ != session.session_id@
                ==> final(self).sessions().contains(old(self).sessions()[k]),
            forall|k: int| 0 <= k < final(self).sessions().len()
                && #[trigger] final(self).sessions()[k].session_id@ != session.session_id@
                ==> old(self).sessions().contains(final(self).sessions()[k]),
    {
        let ghost old_s = self.active_sessions@;
        let ghost sess = session;
        match self.find_session(session.session_id.as_str()) {
            Some(i) => {
                self.active_sessions.set(i, session);
                proof {
                    assert(self.active_sessions@[i as int] == sess);
                    assert forall|k: int| 0 <= k < old_s.len() && #[trigger] old_s[k].session_id@ != sess.session_id@
                        implies self.active_sessions@.contains(old_s[k]) by {
                        assert(self.active_sessions@[k] == old_s[k]);
                    }
                    assert forall|k: int| 0 <= k < self.active_sessions@.len() && #[trigger] self.active_sessions@[k].session_id@ != sess.session_id@
                        implies old_s.contains(self.active_sessions@[k]) by {
                        assert(self.active_sessions@[k] == old_s[k]);
                    }
                }
            },
            None => {
                self.active_sessions.push(session);
                proof {
                    let n = old_s.len() as int;
                    assert(self.active_sessions@[n] == sess);
                    assert forall|k: int| 0 <= k < old_s.len() && #[trigger] old_s[k].session_id@ != sess.session_id@
                        implies self.active_sessions@.contains(old_s[k]) by {
                        assert(self.active_sessions@[k] == old_s[k]);
                    }
                    assert forall|k: int| 0 <= k < self.active_sessions@.len() && #[trigger] self.active_sessions@[k].session_id@ != sess.session_id@
                        implies old_s.contains(self.active_sessions@[k]) by {
                        assert(self.active_sessions@[k] == old_s[k]);
                    }
                }
            },
        }
    }

    /// Sets the state of the session with the given identifier, if there is one.
    fn set_session_state(&mut self, session_id: &str, state: ProofSessionState)
        requires
            old(self).wf(),
        ensures
            final(self).wf(),
            final(self).tools() == old(self).tools(),
            final(self).configs() == old(self).configs(),
            final(self).sessions().len() == old(self).sessions().len(),
            forall|k: int| 0 <= k < old(self).sessions().len() ==> {
                let o = old(self).sessions()[k];
                #[trigger] final(self).sessions()[k] == if o.session_id@ == session_id@ {
                    ProofSession { state, ..o }
                } else {
                    o
                }
            },
    {
        if let Some(i) = self.find_session(session_id) {
            let mut s = self.active_sessions.remove(i);
            s.state = state;
            self.active_sessions.insert(i, s);
            proof {
                assert forall|j: int| 0 <= j < old(self).active_sessions@.len() && j != i implies
                    #[trigger] old(self).active_sessions@[j].session_id@ != session_id@ by {
                    assert(old(self).active_sessions@[j].session_id@ != old(self).active_sessions@[i as int].session_id@);
                }
                assert(forall|j: int| 0 <= j < self.active_sessions@.len() ==>
                    #[trigger] self.active_sessions@[j].session_id@ == old(self).active_sessions@[j].session_id@);
            }
        }
    }

    /// Initialize a tool session: generate the tool's source text, hand it to
    /// the tool and mark the session ready.
    fn initialize_tool_session(&mut self, tool: ProofTool, session_id: &str, obligation: &ProofObligation) -> (r: Result<(), LambdustError>)
        requires
            old(self).wf(),
        ensures
            final(self).wf(),
            r is Ok,
            final(self).tools() == old(self).tools(),
            final(self).configs() == old(self).configs(),
            final(self).sessions().len() == old(self).sessions().len(),
            forall|k: int| 0 <= k < old(self).sessions().len() ==> {
                let o = old(self).sessions()[k];
                #[trigger] final(self).sessions()[k] == if o.session_id@ == session_id@ {
                    ProofSession { state: ProofSessionState::Ready, ..o }
                } else {
                    o
                }
            },
    {
        let tool_code = Self::generate_tool_code(tool, obligation);
        Self::start_tool_process(tool, session_id, tool_code.as_str());
        self.set_session_state(session_id, ProofSessionState::Ready);
        Ok(())
    }

    /// Generate tool-specific code for an obligation
    pub fn generate_tool_code(tool: ProofTool, obligation: &ProofObligation) -> (code: String)
        ensures
            code@ == tool_code(tool, obligation.id@, obligation.description@, obligation.statement.formula@,
                formal_text(obligation.statement.formal_code)),
    {
        match tool {
            ProofTool::Agda => Self::generate_agda_code(obligation),
            ProofTool::Coq => Self::generate_coq_code(obligation),
            ProofTool::Lean => Self::generate_lean_code(obligation),
            ProofTool::Isabelle => Self::generate_isabelle_code(obligation),
            ProofTool::PVS => Self::generate_pvs_code(obligation),
            ProofTool::TLA => Self::generate_tla_code(obligation),
        }
    }

    /// Generate Agda code for obligation
    #[verifier::rlimit(40)]
    fn generate_agda_code(obligation: &ProofObligation) -> (code: String)
        ensures
            code@ == tool_code(ProofTool::Agda, obligation.id@, obligation.description@, obligation.statement.formula@,
                formal_text(obligation.statement.formal_code)),
    {
        let name = replace_hyphens(obligation.id.as_str());
        let formal: Option<&str> = match &obligation.statement.formal_code {
            Some(c) => Some(c.as_str()),
            None => None,
        };
        let desc = obligation.description.as_str();
        let formula = obligation.statement.formula.as_str();
        let mut code = String::new();
        code.append("module ");
        code.append(name.as_str());
        code.append(" where\n\n");
        code.append("open import Relation.Binary.PropositionalEquality\n");
        code.append("open import Data.Nat\n");
        code.append("open import Data.Bool\n\n");
        match formal {
            Some(f) => code.append(f),
            None => {
                code.append("-- ");
                code.append(desc);
                code.append("\n");
                code.append("theorem_");
                code.append(name.as_str());
                code.append(" : ");
                code.append(formula);
                code.append("\n");
                code.append("theorem_");
                code.append(name.as_str());
                code.append(" = ?\n");
            },
        }
        code
    }

    /// Generate Coq code for obligation
    #[verifier::rlimit(40)]
    fn generate_coq_code(obligation: &ProofObligation) -> (code: String)
        ensures
            code@ == tool_code(ProofTool::Coq, obligation.id@, obligation.description@, obligation.statement.formula@,
                formal_text(obligation.statement.formal_code)),
    {
        let name = replace_hyphens(obligation.id.as_str());
        let formal: Option<&str> = match &obligation.statement.formal_code {
            Some(c) => Some(c.as_str()),
            None => None,
        };
        let desc = obligation.description.as_str();
        let formula = obligation.statement.formula.as_str();
        let mut code = String::new();
        code.append("Require Import Coq.Arith.Arith.\n");
        code.append("Require Import Coq.Bool.Bool.\n");
        code.append("Require Import Coq.Logic.Classical_Prop.\n\n");
        match formal {
            Some(f) => code.append(f),
            None => {
                code.append("(* ");
                code.append(desc);
                code.append(" *)\n");
                code.append("Theorem ");
                code.append(name.as_str());
                code.append(" : ");
                code.append(formula);
                code.append(".\n");
                code.append("Proof.\n  (* Proof goes here *)\nAdmitted.\n");
            },
        }
        code
    }

    /// Generate Lean code for obligation
    #[verifier::rlimit(40)]
    fn generate_lean_code(obligation: &ProofObligation) -> (code: String)
        ensures
            code@ == tool_code(ProofTool::Lean, obligation.id@, obligation.description@, obligation.statement.formula@,
                formal_text(obligation.statement.formal_code)),
    {
        let name = replace_hyphens(obligation.id.as_str());
        let formal: Option<&str> = match &obligation.statement.formal_code {
            Some(c) => Some(c.as_str()),
            None => None,
        };
        let desc = obligation.description.as_str();
        let formula = obligation.statement.formula.as_str();
        let mut code = String::new();
        code.append("import data.nat.basic\n");
        code.append("import logic.basic\n\n");
        match formal {
            Some(f) => code.append(f),
            None => {
                code.append("-- ");
                code.append(desc);
                code.append("\n");
                code.append("theorem ");
                code.append(name.as_str());
                code.append(" : ");
                code.append(formula);
                code.append(" :=\n");
                code.append("begin\n  sorry\nend\n");
            },
        }
        code
    }

    /// Generate Isabelle code for obligation
    #[verifier::rlimit(40)]
    fn generate_isabelle_code(obligation: &ProofObligation) -> (code: String)
        ensures
            code@ == tool_code(ProofTool::Isabelle, obligation.id@, obligation.description@, obligation.statement.formula@,
                formal_text(obligation.statement.formal_code)),
    {
        let name = replace_hyphens(obligation.id.as_str());
        let formal: Option<&str> = match &obligation.statement.formal_code {
            Some(c) => Some(c.as_str()),
            None => None,
        };
        let desc = obligation.description.as_str();
        let formula = obligation.statement.formula.as_str();
        let mut code = String::new();
        code.append("theory ");
        code.append(name.as_str());
        code.append("\n");
        code.append("imports Main\n");
        code.append("begin\n\n");
        match formal {
            Some(f) => code.append(f),
            None => {
                code.append("text \\<open>");
                code.append(desc);
                code.append(" \\<close>\n\n");
                code.append("theorem ");
                code.append(name.as_str());
                code.append(": \"");
                code.append(formula);
                code.append("\"\n");
                code.append("  sorry\n");
            },
        }
        code.append("\nend\n");
        code
    }

    /// Generate PVS code for obligation
    #[verifier::rlimit(40)]
    fn generate_pvs_code(obligation: &ProofObligation) -> (code: String)
        ensures
            code@ == tool_code(ProofTool::PVS, obligation.id@, obligation.description@, obligation.statement.formula@,
                formal_text(obligation.statement.formal_code)),
    {
        let name = replace_hyphens(obligation.id.as_str());
        let formal: Option<&str> = match &obligation.statement.formal_code {
            Some(c) => Some(c.as_str()),
            None => None,
        };
        let desc = obligation.description.as_str();
        let formula = obligation.statement.formula.as_str();
        let mut code = String::new();
        code.append(name.as_str());
        code.append(": THEORY\nBEGIN\n\n");
        match formal {
            Some(f) => code.append(f),
            None => {
                code.append("  % ");
                code.append(desc);
                code.append("\n");
                code.append("  ");
                code.append(name.as_str());
                code.append(": THEOREM ");
                code.append(formula);
                code.append("\n");
            },
        }
        code.append("\nEND\n");
        code
    }

    /// Generate TLA code for obligation
    #[verifier::rlimit(40)]
    fn generate_tla_code(obligation: &ProofObligation) -> (code: String)
        ensures
            code@ == tool_code(ProofTool::TLA, obligation.id@, obligation.description@, obligation.statement.formula@,
                formal_text(obligation.statement.formal_code)),
    {
        let name = replace_hyphens(obligation.id.as_str());
        let formal: Option<&str> = match &obligation.statement.formal_code {
            Some(c) => Some(c.as_str()),
            None => None,
        };
        let desc = obligation.description.as_str();
        let formula = obligation.statement.formula.as_str();
        let mut code = String::new();
        code.append("---- MODULE ");
        code.append(name.as_str());
        code.append(" ----\n");
        code.append("EXTENDS Naturals, Sequences\n\n");
        match formal {
            Some(f) => code.append(f),
            None => {
                code.append("\\* ");
                code.append(desc);
                code.append("\n");
                code.append("THEOREM ");
                code.append(name.as_str());
                code.append(" == ");
                code.append(formula);
                code.append("\n");
            },
        }
        code.append("\n====\n");
        code
    }

    /// Hands the generated source text to the external tool. The tools are not
    /// run by this library, so nothing happens here.
    fn start_tool_process(_tool: ProofTool, _session_id: &str, _code: &str) {
    }

    /// Execute a proof in a session: obligations of the universe-polymorphism and
    /// combinatory-logic categories are established, others fail.
    fn execute_proof(&mut self, session_id: &str, obligation: &ProofObligation) -> (r: Result<ProofEvidence, LambdustError>)
        requires
            old(self).wf(),
        ensures
            final(self).wf(),
            final(self).tools() == old(self).tools(),
            final(self).configs() == old(self).configs(),
            final(self).sessions().len() == old(self).sessions().len(),
            forall|k: int| 0 <= k < old(self).sessions().len() ==>
                (#[trigger] final(self).sessions()[k]).session_id == old(self).sessions()[k].session_id,
            forall|k: int| 0 <= k < old(self).sessions().len() && old(self).sessions()[k].session_id@ != session_id@ ==>
                #[trigger] final(self).sessions()[k] == old(self).sessions()[k],
            r is Ok <==> (category_provable(obligation.category)
                && exists|k: int| 0 <= k < old(self).sessions().len() && #[trigger] old(self).sessions()[k].session_id@ == session_id@),
            r matches Ok(ev) ==> (ev matches ProofEvidence::FormalProof { tool, checksum, .. }
                && checksum@ == "abc123"@
                && exists|k: int| 0 <= k < old(self).sessions().len()
                    && #[trigger] old(self).sessions()[k].session_id@ == session_id@
                    && old(self).sessions()[k].tool == tool),
    {
        let i = match self.find_session(session_id) {
            Some(i) => i,
            None => {
                return Err(runtime_error_str("Session not found"));
            },
        };
        let tool = self.active_sessions[i].tool;
        self.set_session_state(session_id, ProofSessionState::Proving);
        let proof_successful = match obligation.category {
            ProofCategory::UniversePolymorphism => true,
            ProofCategory::CombinatoryLogic => true,
            ProofCategory::SemanticCorrectness => false,
            _ => false,
        };
        self.set_session_state(session_id, ProofSessionState::Completed(proof_successful));
        if proof_successful {
            let mut file = String::from_str("/tmp/");
            file.append(session_id);
            file.append(".proof");
            let checksum = String::from_str("abc123");
            proof {
                reveal_strlit("abc123");
            }
            Ok(ProofEvidence::FormalProof { tool, proof_file: path_from_text(file), checksum })
        } else {
            Err(runtime_error_str("Proof failed"))
        }
    }

    /// Run external tools on an obligation: the available tools are tried in
    /// order until one proves it; every session opened is closed again.
    pub fn run_external_tools(&mut self, obligation: &ProofObligation) -> (r: Result<ProofEvidence, LambdustError>)
        requires
            old(self).wf(),
        ensures
            final(self).wf(),
            final(self).tools() == old(self).tools(),
            final(self).configs() == old(self).configs(),
            r is Ok <==> (old(self).tools().len() > 0 && category_provable(obligation.category)),
            r matches Ok(ev) ==> (ev matches ProofEvidence::FormalProof { tool, checksum, .. }
                && tool == old(self).tools()[0] && checksum@ == "abc123"@),
            r matches Err(e) ==> e matches LambdustError::RuntimeError { message }
                && message@ == "No external tools could prove the obligation"@,
            forall|k: int| 0 <= k < final(self).sessions().len() ==>
                old(self).sessions().contains(#[trigger] final(self).sessions()[k]),
    {
        let tools = self.available_tools.clone();
        let ghost tools0 = self.available_tools@;
        let ghost sessions0 = self.active_sessions@;
        let mut i: usize = 0;
        while i < tools.len()
            invariant
                self.wf(),
                tools@ == tools0,
                self.available_tools@ == tools0,
                self.tool_configs@ == old(self).tool_configs@,
                tools0 == old(self).available_tools@,
                sessions0 == old(self).active_sessions@,
                i <= tools@.len(),
                i > 0 ==> !category_provable(obligation.category),
                forall|k: int| 0 <= k < self.active_sessions@.len() ==>
                    sessions0.contains(#[trigger] self.active_sessions@[k]),
            decreases tools@.len() - i,
        {
            let tool = tools[i];
            let ghost before = self.active_sessions@;
            assert(self.available_tools@[i as int] == tool);
            let started = self.start_session(tool, obligation);
            if let Ok(session_id) = started {
                let ghost mid1 = self.active_sessions@;
                let executed = self.execute_proof(session_id.as_str(), obligation);
                let ghost mid2 = self.active_sessions@;
                self.close_session(session_id.as_str());
                proof {
                    let sid = session_id@;
                    let p = other_session(sid);
                    assert forall|k: int| 0 <= k < self.active_sessions@.len() implies
                        sessions0.contains(#[trigger] self.active_sessions@[k]) by {
                        let x = self.active_sessions@[k];
                        assert(mid2.filter(p).contains(x));
                        mid2.lemma_filter_contains_rev(p, x);
                        let k2 = choose|k2: int| 0 <= k2 < mid2.len() && mid2[k2] == x;
                        assert(mid1[k2] == x);
                        assert(before.contains(x));
                        let k3 = choose|k3: int| 0 <= k3 < before.len() && before[k3] == x;
                        assert(sessions0.contains(before[k3]));
                    }
                }
                match executed {
                    Ok(result) => {
                        return Ok(result);
                    },
                    Err(_) => {},
                }
            }
            i = i + 1;
        }
        Err(runtime_error_str("No external tools could prove the obligation"))
    }

    /// Close a proof session
    pub fn close_session(&mut self, session_id: &str)
        requires
            old(self).wf(),
        ensures
            final(self).wf(),
            final(self).tools() == old(self).tools(),
            final(self).configs() == old(self).configs(),
            final(self).sessions() == old(self).sessions().filter(other_session(session_id@)),
    {
        let ghost pred = other_session(session_id@);
        let ghost old_s = self.active_sessions@;
        match self.find_session(session_id) {
            Some(i) => {
                self.active_sessions.remove(i);
                proof {
                    lemma_filter_remove_unique(old_s, i as int, session_id@);
                }
            },
            None => {
                proof {
                    lemma_filter_all(old_s, session_id@);
                }
            },
        }
    }

    /// Get session status
    pub fn get_session_status(&self, session_id: &str) -> (r: Option<&ProofSessionState>)
        ensures
            match r {
                Some(st) => exists|k: int| 0 <= k < self.sessions().len()
                    && #[trigger] self.sessions()[k].session_id@ == session_id@
                    && self.sessions()[k].state == *st,
                None => forall|k: int| 0 <= k < self.sessions().len() ==>
                    #[trigger] self.sessions()[k].session_id@ != session_id@,
            },
    {
        match self.find_session(session_id) {
            Some(i) => Some(&self.active_sessions[i].state),
            None => None,
        }
    }

    /// Remove the sessions that started at or before `cutoff`.
    pub fn cleanup_sessions_started_before(&mut self, cutoff: Instant)
        requires
            old(self).wf(),
        ensures
            final(self).wf(),
            final(self).tools() == old(self).tools(),
            final(self).configs() == old(self).configs(),
            final(self).sessions() == old(self).sessions().filter(after_cutoff(cutoff@)),
    {
        let ghost pred = after_cutoff(cutoff@);
        let ghost old_s = self.active_sessions@;
        let mut kept: Vec<ProofSession> = Vec::new();
        let ghost mut c: int = 0;
        while self.active_sessions.len() > 0
            invariant
                0 <= c <= old_s.len(),
                self.active_sessions@ == old_s.skip(c),
                kept@ == old_s.take(c).filter(pred),
                pred == (after_cutoff(cutoff@)),
                self.available_tools@ == old(self).available_tools@,
                self.tool_configs@ == old(self).tool_configs@,
                tools_unique(self.available_tools@),
                configs_unique(self.tool_configs@),
            decreases self.active_sessions@.len(),
        {
            let s = self.active_sessions.remove(0);
            proof {
                assert(s == old_s[c]);
                assert(old_s.take(c + 1) =~= old_s.take(c).push(s));
                old_s.take(c).lemma_filter_push(s, pred);
                assert(self.active_sessions@ =~= old_s.skip(c + 1));
            }
            if s.start_time.duration_since(cutoff).as_nanos() > 0 {
                kept.push(s);
            }
            proof {
                c = c + 1;
            }
        }
        proof {
            assert(old_s.take(c) =~= old_s);
            lemma_filter_keeps_unique(old_s, pred);
        }
        self.active_sessions = kept;
    }

    /// Remove the sessions that are older than `max_age` at the clock reading
    /// `now`: those started at or before `now - max_age` (the epoch when
    /// `max_age` reaches back past it).
    pub fn cleanup_sessions_older_than(&mut self, now: Instant, max_age: Duration)
        requires
            old(self).wf(),
        ensures
            final(self).wf(),
            final(self).tools() == old(self).tools(),
            final(self).configs() == old(self).configs(),
            final(self).sessions() == started_after(old(self).sessions(), age_cutoff(now@, max_age@)),
    {
        let cutoff = now.saturating_sub(max_age);
        self.cleanup_sessions_started_before(cutoff);
    }

    /// The later of `now` and the latest start of an active session.
    fn no_earlier_than_sessions(&self, now: Instant) -> (t: Instant)
        ensures
            t@ >= now@,
            forall|k: int| 0 <= k < self.sessions().len() ==> #[trigger] self.sessions()[k].start_time@ <= t@,
    {
        let mut t = now;
        let mut i: usize = 0;
        while i < self.active_sessions.len()
            invariant
                i <= self.active_sessions@.len(),
                t@ >= now@,
                forall|k: int| 0 <= k < i ==> #[trigger] self.active_sessions@[k].start_time@ <= t@,
            decreases self.active_sessions@.len() - i,
        {
            if t.is_before(&self.active_sessions[i].start_time) {
                t = self.active_sessions[i].start_time;
            }
            i = i + 1;
        }
        t
    }

    /// Cleanup sessions older than `max_age`, measured against a fresh clock
    /// reading; see `cleanup_sessions_older_than`. The wall clock can go back,
    /// so the reading is taken no earlier than the start of any active
    /// session: with no age, every session started before the call goes.
    pub fn cleanup_old_sessions(&mut self, max_age: Duration)
        requires
            old(self).wf(),
        ensures
            final(self).wf(),
            final(self).tools() == old(self).tools(),
            final(self).configs() == old(self).configs(),
            exists|now: nat| now <= MAX_NANOS
                && (forall|k: int| 0 <= k < old(self).sessions().len() ==> #[trigger] old(self).sessions()[k].start_time@ <= now)
                && final(self).sessions() == #[trigger] started_after(old(self).sessions(), age_cutoff(now, max_age@)),
    {
        let clock = Instant::now();
        let now = self.no_earlier_than_sessions(clock);
        let _ = now.nanos_since_epoch();
        self.cleanup_sessions_older_than(now, max_age);
        assert(self.sessions() == started_after(old(self).sessions(), age_cutoff(now@, max_age@)));
    }
}

/// The start time at or before which a session is older than `max_age` at
/// `now`; the epoch when `max_age` reaches back past it.
pub open spec fn age_cutoff(now: nat, max_age: nat) -> nat {
    if now >= max_age { (now - max_age) as nat } else { 0nat }
}

/// Holds of the sessions whose identifier is not `id`.
pub open spec fn other_session(id: Seq<char>) -> spec_fn(ProofSession) -> bool {
    |x: ProofSession| x.session_id@ != id
}

/// Holds of the sessions that started strictly after `cutoff`.
pub open spec fn after_cutoff(cutoff: nat) -> spec_fn(ProofSession) -> bool {
    |x: ProofSession| x.start_time@ > cutoff
}

/// The sessions that started strictly after `cutoff`.
pub open spec fn started_after(s: Seq<ProofSession>, cutoff: nat) -> Seq<ProofSession> {
    s.filter(after_cutoff(cutoff))
}

/// A filter keeps every element when all of them satisfy the predicate.
proof fn lemma_filter_all_true<A>(s: Seq<A>, p: spec_fn(A) -> bool)
    requires
        forall|j: int| 0 <= j < s.len() ==> p(#[trigger] s[j]),
    ensures
        s.filter(p) == s,
    decreases s.len(),
{
    reveal(Seq::filter);
    if s.len() > 0 {
        lemma_filter_all_true(s.drop_last(), p);
        assert(p(s[s.len() - 1]));
        assert(s.drop_last().push(s.last()) =~= s);
    }
}

/// Filtering a sequence with unique identifiers keeps them unique.
proof fn lemma_filter_keeps_unique(s: Seq<ProofSession>, p: spec_fn(ProofSession) -> bool)
    requires
        session_ids_unique(s),
    ensures
        session_ids_unique(s.filter(p)),
    decreases s.len(),
{
    reveal_with_fuel(Seq::<ProofSession>::filter, 1);
    if s.len() > 0 {
        let d = s.drop_last();
        assert(session_ids_unique(d)) by {
            assert forall|i: int, j: int| 0 <= i < d.len() && 0 <= j < d.len() && i != j implies
                #[trigger] d[i].session_id@ != #[trigger] d[j].session_id@ by {
                assert(d[i] == s[i] && d[j] == s[j]);
            }
        }
        lemma_filter_keeps_unique(d, p);
        if p(s.last()) {
            let f = d.filter(p);
            let g = f.push(s.last());
            assert forall|i: int, j: int| 0 <= i < g.len() && 0 <= j < g.len() && i != j implies
                #[trigger] g[i].session_id@ != #[trigger] g[j].session_id@ by {
                if i < f.len() && j < f.len() {
                    assert(g[i] == f[i] && g[j] == f[j]);
                } else {
                    let k = if i < f.len() { i } else { j };
                    assert(g[k] == f[k]);
                    assert(f.contains(f[k]));
                    d.lemma_filter_contains_rev(p, f[k]);
                    let m = choose|m: int| 0 <= m < d.len() && d[m] == f[k];
                    assert(s[m] == f[k]);
                    assert(s[s.len() - 1] == s.last());
                }
            }
        }
    }
}

/// Removing the unique element with identifier `id` is filtering it out.
proof fn lemma_filter_remove_unique(s: Seq<ProofSession>, i: int, id: Seq<char>)
    requires
        session_ids_unique(s),
        0 <= i < s.len(),
        s[i].session_id@ == id,
    ensures
        s.remove(i) == s.filter(other_session(id)),
{
    let p = other_session(id);
    let a = s.take(i);
    let b = s.skip(i + 1);
    assert(s =~= a + seq![s[i]] + b);
    assert(s.remove(i) =~= a + b);
    assert forall|j: int| 0 <= j < a.len() implies p(#[trigger] a[j]) by {
        assert(a[j] == s[j]);
    }
    assert forall|j: int| 0 <= j < b.len() implies p(#[trigger] b[j]) by {
        assert(b[j] == s[i + 1 + j]);
    }
    lemma_filter_all_true(a, p);
    lemma_filter_all_true(b, p);
    Seq::filter_distributes_over_add(a + seq![s[i]], b, p);
    Seq::filter_distributes_over_add(a, seq![s[i]], p);
    reveal_with_fuel(Seq::<ProofSession>::filter, 2);
    assert(seq![s[i]].filter(p) =~= Seq::<ProofSession>::empty());
    assert(a + Seq::<ProofSession>::empty() =~= a);
}

/// Filtering out an identifier that does not occur changes nothing.
proof fn lemma_filter_all(s: Seq<ProofSession>, id: Seq<char>)
    requires
        forall|j: int| 0 <= j < s.len() ==> #[trigger] s[j].session_id@ != id,
    ensures
        s == s.filter(other_session(id)),
{
    let p = other_session(id);
    assert forall|j: int| 0 <= j < s.len() implies p(#[trigger] s[j]) by {}
    lemma_filter_all_true(s, p);
}

/// The text of an optional formal statement.
pub open spec fn formal_text(f: Option<String>) -> Option<Seq<char>> {
    match f {
        Some(c) => Some(c@),
        None => None,
    }
}

/// The source text generated for a tool (see `generate_tool_code`).
pub open spec fn tool_code(tool: ProofTool, id: Seq<char>, desc: Seq<char>, formula: Seq<char>, formal: Option<Seq<char>>) -> Seq<char> {
    let name = hyphens_to_underscores(id);
    match tool {
        ProofTool::Agda => "module "@ + name + " where\n\n"@
            + "open import Relation.Binary.PropositionalEquality\n"@ + "open import Data.Nat\n"@ + "open import Data.Bool\n\n"@
            + match formal {
                Some(f) => f,
                None => "-- "@ + desc + "\n"@ + "theorem_"@ + name + " : "@ + formula + "\n"@ + "theorem_"@ + name + " = ?\n"@,
            },
        ProofTool::Coq => "Require Import Coq.Arith.Arith.\n"@ + "Require Import Coq.Bool.Bool.\n"@
            + "Require Import Coq.Logic.Classical_Prop.\n\n"@
            + match formal {
                Some(f) => f,
                None => "(* "@ + desc + " *)\n"@ + "Theorem "@ + name + " : "@ + formula + ".\n"@
                    + "Proof.\n  (* Proof goes here *)\nAdmitted.\n"@,
            },
        ProofTool::Lean => "import data.nat.basic\n"@ + "import logic.basic\n\n"@
            + match formal {
                Some(f) => f,
                None => "-- "@ + desc + "\n"@ + "theorem "@ + name + " : "@ + formula + " :=\n"@ + "begin\n  sorry\nend\n"@,
            },
        ProofTool::Isabelle => "theory "@ + name + "\n"@ + "imports Main\n"@ + "begin\n\n"@
            + match formal {
                Some(f) => f,
                None => "text \\<open>"@ + desc + " \\<close>\n\n"@ + "theorem "@ + name + ": \""@ + formula + "\"\n"@
                    + "  sorry\n"@,
            } + "\nend\n"@,
        ProofTool::PVS => name + ": THEORY\nBEGIN\n\n"@
            + match formal {
                Some(f) => f,
                None => "  % "@ + desc + "\n"@ + "  "@ + name + ": THEOREM "@ + formula + "\n"@,
            } + "\nEND\n"@,
        ProofTool::TLA => "---- MODULE "@ + name + " ----\n"@ + "EXTENDS Naturals, Sequences\n\n"@
            + match formal {
                Some(f) => f,
                None => "\\* "@ + desc + "\n"@ + "THEOREM "@ + name + " == "@ + formula + "\n"@,
            } + "\n====\n"@,
    }
}

/// Whether `t` occurs in `s`.
pub open spec fn contains_text(s: Seq<char>, t: Seq<char>) -> bool {
    exists|i: int| 0 <= i && i + t.len() <= s.len() && #[trigger] s.subrange(i, i + t.len()) == t
}

proof fn lemma_infix(a: Seq<char>, t: Seq<char>, b: Seq<char>)
    ensures
        contains_text(a + t + b, t),
{
    let s = a + t + b;
    assert(s.subrange(a.len() as int, (a.len() + t.len()) as int) =~= t);
}

/// The theorem a tool's source states, with the identifier's hyphens turned
/// into underscores.
pub open spec fn theorem_statement(tool: ProofTool, id: Seq<char>, formula: Seq<char>) -> Seq<char> {
    let name = hyphens_to_underscores(id);
    match tool {
        ProofTool::Agda => "theorem_"@ + name + " : "@ + formula + "\n"@,
        ProofTool::Coq => "Theorem "@ + name + " : "@ + formula + ".\n"@,
        ProofTool::Lean => "theorem "@ + name + " : "@ + formula + " :=\n"@,
        ProofTool::Isabelle => "theorem "@ + name + ": \""@ + formula + "\"\n"@,
        ProofTool::PVS => "  "@ + name + ": THEOREM "@ + formula + "\n"@,
        ProofTool::TLA => "THEOREM "@ + name + " == "@ + formula + "\n"@,
    }
}

proof fn lemma_source_agda(id: Seq<char>, desc: Seq<char>, formula: Seq<char>, formal: Option<Seq<char>>)
    ensures
        formal is None ==> contains_text(tool_code(ProofTool::Agda, id, desc, formula, formal), theorem_statement(ProofTool::Agda, id, formula)),
        formal is None ==> contains_text(tool_code(ProofTool::Agda, id, desc, formula, formal), desc),
        formal matches Some(f) ==> contains_text(tool_code(ProofTool::Agda, id, desc, formula, formal), f),
{
    let name = hyphens_to_underscores(id);
    let code = tool_code(ProofTool::Agda, id, desc, formula, formal);
    let head = "module "@ + name + " where\n\n"@ + "open import Relation.Binary.PropositionalEquality\n"@ + "open import Data.Nat\n"@ + "open import Data.Bool\n\n"@;
    let tail = Seq::<char>::empty();
    match formal {
        Some(f) => {
            assert(code =~= head + f + tail);
            lemma_infix(head, f, tail);
        },
        None => {
            let stmt = theorem_statement(ProofTool::Agda, id, formula);
            let pre = head + "-- "@ + desc + "\n"@;
            let post = "theorem_"@ + name + " = ?\n"@ + tail;
            assert(code =~= pre + stmt + post);
            lemma_infix(pre, stmt, post);
            assert(code =~= (head + "-- "@) + desc + ("\n"@ + stmt + post));
            lemma_infix(head + "-- "@, desc, "\n"@ + stmt + post);
        },
    }
}

proof fn lemma_source_coq(id: Seq<char>, desc: Seq<char>, formula: Seq<char>, formal: Option<Seq<char>>)
    ensures
        formal is None ==> contains_text(tool_code(ProofTool::Coq, id, desc, formula, formal), theorem_statement(ProofTool::Coq, id, formula)),
        formal is None ==> contains_text(tool_code(ProofTool::Coq, id, desc, formula, formal), desc),
        formal matches Some(f) ==> contains_text(tool_code(ProofTool::Coq, id, desc, formula, formal), f),
{
    let name = hyphens_to_underscores(id);
    let code = tool_code(ProofTool::Coq, id, desc, formula, formal);
    let head = "Require Import Coq.Arith.Arith.\n"@ + "Require Import Coq.Bool.Bool.\n"@ + "Require Import Coq.Logic.Classical_Prop.\n\n"@;
    let tail = Seq::<char>::empty();
    match formal {
        Some(f) => {
            assert(code =~= head + f + tail);
            lemma_infix(head, f, tail);
        },
        None => {
            let stmt = theorem_statement(ProofTool::Coq, id, formula);
            let pre = head + "(* "@ + desc + " *)\n"@;
            let post = "Proof.\n  (* Proof goes here *)\nAdmitted.\n"@ + tail;
            assert(code =~= pre + stmt + post);
            lemma_infix(pre, stmt, post);
            assert(code =~= (head + "(* "@) + desc + (" *)\n"@ + stmt + post));
            lemma_infix(head + "(* "@, desc, " *)\n"@ + stmt + post);
        },
    }
}

proof fn lemma_source_lean(id: Seq<char>, desc: Seq<char>, formula: Seq<char>, formal: Option<Seq<char>>)
    ensures
        formal is None ==> contains_text(tool_code(ProofTool::Lean, id, desc, formula, formal), theorem_statement(ProofTool::Lean, id, formula)),
        formal is None ==> contains_text(tool_code(ProofTool::Lean, id, desc, formula, formal), desc),
        formal matches Some(f) ==> contains_text(tool_code(ProofTool::Lean, id, desc, formula, formal), f),
{
    let name = hyphens_to_underscores(id);
    let code = tool_code(ProofTool::Lean, id, desc, formula, formal);
    let head = "import data.nat.basic\n"@ + "import logic.basic\n\n"@;
    let tail = Seq::<char>::empty();
    match formal {
        Some(f) => {
            assert(code =~= head + f + tail);
            lemma_infix(head, f, tail);
        },
        None => {
            let stmt = theorem_statement(ProofTool::Lean, id, formula);
            let pre = head + "-- "@ + desc + "\n"@;
            let post = "begin\n  sorry\nend\n"@ + tail;
            assert(code =~= pre + stmt + post);
            lemma_infix(pre, stmt, post);
            assert(code =~= (head + "-- "@) + desc + ("\n"@ + stmt + post));
            lemma_infix(head + "-- "@, desc, "\n"@ + stmt + post);
        },
    }
}

proof fn lemma_source_isabelle(id: Seq<char>, desc: Seq<char>, formula: Seq<char>, formal: Option<Seq<char>>)
    ensures
        formal is None ==> contains_text(tool_code(ProofTool::Isabelle, id, desc, formula, formal), theorem_statement(ProofTool::Isabelle, id, formula)),
        formal is None ==> contains_text(tool_code(ProofTool::Isabelle, id, desc, formula, formal), desc),
        formal matches Some(f) ==> contains_text(tool_code(ProofTool::Isabelle, id, desc, formula, formal), f),
{
    let name = hyphens_to_underscores(id);
    let code = tool_code(ProofTool::Isabelle, id, desc, formula, formal);
    let head = "theory "@ + name + "\n"@ + "imports Main\n"@ + "begin\n\n"@;
    let tail = "\nend\n"@;
    match formal {
        Some(f) => {
            assert(code =~= head + f + tail);
            lemma_infix(head, f, tail);
        },
        None => {
            let stmt = theorem_statement(ProofTool::Isabelle, id, formula);
            let pre = head + "text \\<open>"@ + desc + " \\<close>\n\n"@;
            let post = "  sorry\n"@ + tail;
            assert(code =~= pre + stmt + post);
            lemma_infix(pre, stmt, post);
            assert(code =~= (head + "text \\<open>"@) + desc + (" \\<close>\n\n"@ + stmt + post));
            lemma_infix(head + "text \\<open>"@, desc, " \\<close>\n\n"@ + stmt + post);
        },
    }
}

proof fn lemma_source_pvs(id: Seq<char>, desc: Seq<char>, formula: Seq<char>, formal: Option<Seq<char>>)
    ensures
        formal is None ==> contains_text(tool_code(ProofTool::PVS, id, desc, formula, formal), theorem_statement(ProofTool::PVS, id, formula)),
        formal is None ==> contains_text(tool_code(ProofTool::PVS, id, desc, formula, formal), desc),
        formal matches Some(f) ==> contains_text(tool_code(ProofTool::PVS, id, desc, formula, formal), f),
{
    let name = hyphens_to_underscores(id);
    let code = tool_code(ProofTool::PVS, id, desc, formula, formal);
    let head = name + ": THEORY\nBEGIN\n\n"@;
    let tail = "\nEND\n"@;
    match formal {
        Some(f) => {
            assert(code =~= head + f + tail);
            lemma_infix(head, f, tail);
        },
        None => {
            let stmt = theorem_statement(ProofTool::PVS, id, formula);
            let pre = head + "  % "@ + desc + "\n"@;
            let post = Seq::<char>::empty() + tail;
            assert(code =~= pre + stmt + post);
            lemma_infix(pre, stmt, post);
            assert(code =~= (head + "  % "@) + desc + ("\n"@ + stmt + post));
            lemma_infix(head + "  % "@, desc, "\n"@ + stmt + post);
        },
    }
}

proof fn lemma_source_tla(id: Seq<char>, desc: Seq<char>, formula: Seq<char>, formal: Option<Seq<char>>)
    ensures
        formal is None ==> contains_text(tool_code(ProofTool::TLA, id, desc, formula, formal), theorem_statement(ProofTool::TLA, id, formula)),
        formal is None ==> contains_text(tool_code(ProofTool::TLA, id, desc, formula, formal), desc),
        formal matches Some(f) ==> contains_text(tool_code(ProofTool::TLA, id, desc, formula, formal), f),
{
    let name = hyphens_to_underscores(id);
    let code = tool_code(ProofTool::TLA, id, desc, formula, formal);
    let head = "---- MODULE "@ + name + " ----\n"@ + "EXTENDS Naturals, Sequences\n\n"@;
    let tail = "\n====\n"@;
    match formal {
        Some(f) => {
            assert(code =~= head + f + tail);
            lemma_infix(head, f, tail);
        },
        None => {
            let stmt = theorem_statement(ProofTool::TLA, id, formula);
            let pre = head + "\\* "@ + desc + "\n"@;
            let post = Seq::<char>::empty() + tail;
            assert(code =~= pre + stmt + post);
            lemma_infix(pre, stmt, post);
            assert(code =~= (head + "\\* "@) + desc + ("\n"@ + stmt + post));
            lemma_infix(head + "\\* "@, desc, "\n"@ + stmt + post);
        },
    }
}

/// Without formal code, the source generated for every tool states the
/// obligation's formula as its theorem, named after the obligation, and
/// carries the description (in a comment); with formal code, the source holds
/// that code as given.
pub proof fn lemma_generated_source_states_formula(
    tool: ProofTool,
    id: Seq<char>,
    desc: Seq<char>,
    formula: Seq<char>,
    formal: Option<Seq<char>>,
)
    ensures
        formal is None ==> contains_text(tool_code(tool, id, desc, formula, formal), theorem_statement(tool, id, formula)),
        formal is None ==> contains_text(tool_code(tool, id, desc, formula, formal), desc),
        formal matches Some(f) ==> contains_text(tool_code(tool, id, desc, formula, formal), f),
{
    match tool {
        ProofTool::Agda => lemma_source_agda(id, desc, formula, formal),
        ProofTool::Coq => lemma_source_coq(id, desc, formula, formal),
        ProofTool::Lean => lemma_source_lean(id, desc, formula, formal),
        ProofTool::Isabelle => lemma_source_isabelle(id, desc, formula, formal),
        ProofTool::PVS => lemma_source_pvs(id, desc, formula, formal),
        ProofTool::TLA => lemma_source_tla(id, desc, formula, formal),
    }
}

} // verus!
