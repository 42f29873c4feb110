use lambdust::formal_verification::core_types::{
    FormalStatement, ProofCategory, ProofEvidence, ProofObligation, ProofObligationManager,
    ProofPriority, ProofStatus, ProofTool,
};
use lambdust::formal_verification::proof_assistant::{
    ProofAssistantInterface, ProofSessionState, ToolConfiguration,
};
use lambdust::time::{Duration, Instant};

fn obligation(id: &str, category: ProofCategory, deps: &[&str]) -> ProofObligation {
    ProofObligation {
        id: id.to_string(),
        description: format!("about {}", id),
        category,
        statement: FormalStatement {
            formula: "P".to_string(),
            preconditions: Vec::new(),
            postconditions: Vec::new(),
            quantifiers: Vec::new(),
            formal_code: None,
        },
        priority: ProofPriority::High,
        status: ProofStatus::Pending,
        evidence: Vec::new(),
        dependencies: deps.iter().map(|d| d.to_string()).collect(),
    }
}

fn config() -> ToolConfiguration {
    ToolConfiguration {
        executable: std::path::PathBuf::from("/usr/bin/lean"),
        args: Vec::new(),
        work_dir: std::path::PathBuf::from("/tmp"),
        timeout: Duration::from_secs(10),
    }
}

#[test]
fn obligations_are_found_replaced_and_indexed() {
    let mut m = ProofObligationManager::new();
    m.add_obligation(obligation("a", ProofCategory::MemorySafety, &[]));
    m.add_obligation(obligation("b", ProofCategory::MemorySafety, &["a"]));
    m.add_obligation(obligation("c", ProofCategory::CombinatoryLogic, &[]));
    assert_eq!(m.get_obligation("b").unwrap().dependencies, vec!["a".to_string()]);
    assert!(m.get_obligation("zzz").is_none());
    let mem: Vec<&str> = m
        .get_obligations_by_category(&ProofCategory::MemorySafety)
        .iter()
        .map(|o| o.id.as_str())
        .collect();
    assert_eq!(mem, vec!["a", "b"]);

    // Replacing keeps one obligation under the identifier.
    let mut again = obligation("a", ProofCategory::MemorySafety, &[]);
    again.description = "replaced".to_string();
    m.add_obligation(again);
    assert_eq!(m.get_obligation("a").unwrap().description, "replaced");
}

#[test]
fn ready_obligations_wait_for_dependencies() {
    let mut m = ProofObligationManager::new();
    m.add_obligation(obligation("base", ProofCategory::TypeSystemSoundness, &[]));
    m.add_obligation(obligation("top", ProofCategory::TypeSystemSoundness, &["base"]));
    let ready: Vec<&str> = m.get_ready_obligations().iter().map(|o| o.id.as_str()).collect();
    assert_eq!(ready, vec!["base"]);

    m.update_status("base", ProofStatus::Proven);
    let ready: Vec<&str> = m.get_ready_obligations().iter().map(|o| o.id.as_str()).collect();
    assert_eq!(ready, vec!["top"]);
    assert_eq!(m.get_obligation("base").unwrap().status, ProofStatus::Proven);

    m.add_evidence(
        "top",
        ProofEvidence::ManualVerification { verifier: "v".to_string(), date: "d".to_string(), notes: String::new() },
    );
    assert_eq!(m.get_obligation("top").unwrap().evidence.len(), 1);
    // Unknown identifiers change nothing.
    m.update_status("nothing", ProofStatus::Disproven);
    assert_eq!(m.get_obligation("top").unwrap().status, ProofStatus::Pending);
}

#[test]
fn sessions_start_only_with_available_tools() {
    let mut p = ProofAssistantInterface::new();
    let ob = obligation("my-lemma", ProofCategory::UniversePolymorphism, &[]);
    assert!(!p.has_available_tools());
    assert!(p.start_session(ProofTool::Lean, &ob).is_err());

    p.configure_tool(ProofTool::Lean, config());
    p.configure_tool(ProofTool::Lean, config());
    assert_eq!(p.get_available_tools(), &vec![ProofTool::Lean]);
    let id = p.start_session(ProofTool::Lean, &ob).unwrap();
    assert_eq!(id, "lean_my-lemma");
    assert!(matches!(p.get_session_status(&id), Some(ProofSessionState::Ready)));
    p.close_session(&id);
    assert!(p.get_session_status(&id).is_none());
}

#[test]
fn external_tools_prove_only_some_categories() {
    let mut p = ProofAssistantInterface::new();
    p.configure_tool(ProofTool::Coq, config());
    let provable = obligation("x", ProofCategory::CombinatoryLogic, &[]);
    match p.run_external_tools(&provable).unwrap() {
        ProofEvidence::FormalProof { tool, proof_file, checksum } => {
            assert_eq!(tool, ProofTool::Coq);
            assert_eq!(checksum, "abc123");
            assert_eq!(proof_file, std::path::PathBuf::from("/tmp/coq_x.proof"));
        }
        other => panic!("unexpected evidence {:?}", other),
    }
    let hard = obligation("y", ProofCategory::SemanticCorrectness, &[]);
    assert!(p.run_external_tools(&hard).is_err());
    // Every session opened on the way was closed again.
    assert!(p.get_session_status("coq_x").is_none());
    assert!(p.get_session_status("coq_y").is_none());
}

#[test]
fn lean_code_renames_hyphens() {
    let ob = obligation("my-lemma", ProofCategory::MemorySafety, &[]);
    let code = ProofAssistantInterface::generate_tool_code(ProofTool::Lean, &ob);
    assert_eq!(
        code,
        "import data.nat.basic\nimport logic.basic\n\n-- about my-lemma\ntheorem my_lemma : P :=\nbegin\n  sorry\nend\n"
    );
    let mut with_code = ob.clone();
    with_code.statement.formal_code = Some("lemma x".to_string());
    let code = ProofAssistantInterface::generate_tool_code(ProofTool::Lean, &with_code);
    assert_eq!(code, "import data.nat.basic\nimport logic.basic\n\nlemma x");
}

#[test]
fn proof_tool_names() {
    assert_eq!(ProofTool::Agda.to_string(), "agda");
    assert_eq!(ProofTool::Isabelle.to_string(), "isabelle");
    assert_eq!(ProofTool::TLA.to_string(), "tla");
}

#[test]
fn sessions_older_than_the_cutoff_are_removed() {
    let mut p = ProofAssistantInterface::new();
    p.configure_tool(ProofTool::Coq, config());
    let ob = obligation("old", ProofCategory::UniversePolymorphism, &[]);
    let id = p.start_session(ProofTool::Coq, &ob).unwrap();
    // An hour of age from the present keeps the fresh session.
    p.cleanup_old_sessions(Duration::from_secs(3600));
    assert!(p.get_session_status(&id).is_some());
    // A reading at the epoch with a long age cuts off at the epoch: kept.
    p.cleanup_sessions_older_than(Instant::from_epoch_nanos(0), Duration::from_secs(3600));
    assert!(p.get_session_status(&id).is_some());
    // A reading far in the future with no age removes it.
    p.cleanup_sessions_older_than(Instant::from_epoch_nanos(u64::MAX), Duration::zero());
    assert!(p.get_session_status(&id).is_none());
    assert_eq!(p.get_available_tools(), &vec![ProofTool::Coq]);
}

#[test]
fn a_tool_configured_twice_is_listed_once() {
    let mut p = ProofAssistantInterface::new();
    p.configure_tool(ProofTool::Coq, config());
    p.configure_tool(ProofTool::Lean, config());
    p.configure_tool(ProofTool::Coq, config());
    assert_eq!(p.get_available_tools().len(), 2);
    let ob = obligation("ski", ProofCategory::CombinatoryLogic, &[]);
    let sid = p.start_session(ProofTool::Coq, &ob).unwrap();
    assert_eq!(sid, "coq_ski");
    assert!(matches!(p.get_session_status("coq_ski"), Some(ProofSessionState::Ready)));
    assert!(p.get_session_status("lean_ski").is_none());
}

#[test]
fn failed_external_proof_names_the_failure() {
    let mut p = ProofAssistantInterface::new();
    let ob = obligation("z", ProofCategory::MemorySafety, &[]);
    match p.run_external_tools(&ob) {
        Err(lambdust::error::LambdustError::RuntimeError { message }) => {
            assert_eq!(message, "No external tools could prove the obligation")
        }
        other => panic!("unexpected {:?}", other),
    }
}
