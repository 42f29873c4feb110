use lambdust::error::LambdustError;
use lambdust::formal_verification::core_types::{
    ProofCategory, ProofEvidence, ProofPriority, ProofStatus, QuantifierType, VerificationOutcome,
};
use lambdust::time::Duration;
use lambdust::formal_verification::verification_engine::FormalVerificationEngine;

#[test]
fn initialize_sets_up_the_standard_obligations() {
    let mut engine = FormalVerificationEngine::new();
    assert!(engine.get_obligation("universe_level_consistency").is_none());
    assert!(engine.initialize().is_ok());
    let ulc = engine.get_obligation("universe_level_consistency").unwrap();
    assert_eq!(ulc.category, ProofCategory::UniversePolymorphism);
    assert_eq!(ulc.priority, ProofPriority::Critical);
    assert_eq!(ulc.status, ProofStatus::Pending);
    assert!(ulc.dependencies.is_empty());
    assert_eq!(ulc.statement.quantifiers.len(), 2);
    assert_eq!(ulc.statement.quantifiers[1].variable, "u₂");
    let tiu = engine.get_obligation("typeclass_instance_uniqueness").unwrap();
    assert_eq!(tiu.dependencies, vec!["universe_level_consistency".to_string()]);
    assert_eq!(tiu.statement.postconditions, vec!["unique_instance(C, T)".to_string()]);
    let ski = engine.get_obligation("ski_completeness").unwrap();
    assert_eq!(ski.statement.quantifiers[1].quantifier_type, QuantifierType::Exists);
    let hott = engine.get_obligation("univalence_consistency").unwrap();
    assert_eq!(hott.priority, ProofPriority::High);
    assert_eq!(hott.category, ProofCategory::HomotopyTypeTheory);
    assert_eq!(engine.get_obligation("transformer_monad_laws").unwrap().priority, ProofPriority::High);
    assert_eq!(
        engine.get_obligation("semantic_evaluator_correctness").unwrap().description,
        "Semantic evaluator preserves R7RS semantics"
    );
    assert!(engine.get_obligation("unknown").is_none());
}

#[test]
fn initializing_twice_keeps_one_obligation_per_identifier() {
    let mut engine = FormalVerificationEngine::new();
    engine.initialize().unwrap();
    engine.initialize().unwrap();
    assert_eq!(engine.get_obligation("ski_completeness").unwrap().status, ProofStatus::Pending);
    assert_eq!(engine.get_statistics().total_obligations, 0);
}

fn tests_passed() -> ProofEvidence {
    ProofEvidence::PropertyTests { passed: 100, failed: 0, counterexamples: Vec::new() }
}

fn automatic_proof() -> ProofEvidence {
    ProofEvidence::ManualVerification {
        verifier: "auto".to_string(),
        date: "today".to_string(),
        notes: String::new(),
    }
}

#[test]
fn verify_obligation_scores_evidence_and_caches_results() {
    let mut engine = FormalVerificationEngine::new();
    engine.initialize().unwrap();
    // Property tests and an automatic proof: seven tenths, not above seven.
    let r = engine
        .verify_obligation("ski_completeness", Some(tests_passed()), Some(automatic_proof()), Duration::from_millis(3))
        .unwrap();
    assert_eq!(r.result, VerificationOutcome::Incomplete);
    assert_eq!(r.confidence_tenths, 7);
    assert_eq!(r.evidence.len(), 2);
    assert_eq!(engine.get_statistics().total_obligations, 1);
    assert_eq!(engine.get_statistics().skipped_obligations, 1);
    assert_eq!(engine.get_statistics().total_time.as_nanos(), 3_000_000);
    // A second request is answered from the cache, with no new statistics.
    let again = engine.verify_obligation("ski_completeness", None, None, Duration::from_millis(9)).unwrap();
    assert_eq!(again.result, VerificationOutcome::Incomplete);
    assert_eq!(again.confidence_tenths, 7);
    assert_eq!(engine.get_statistics().total_obligations, 1);
    // Property tests alone fail; with no tool available, no external evidence is sought.
    let r = engine
        .verify_obligation("univalence_consistency", Some(tests_passed()), None, Duration::from_millis(1))
        .unwrap();
    assert_eq!(r.evidence.len(), 1);
    assert_eq!(r.result, VerificationOutcome::Failure);
    assert_eq!(r.confidence_tenths, 3);
    assert_eq!(engine.get_statistics().failed_obligations, 1);
    // After clearing the cache the obligation is verified anew.
    engine.clear_cache();
    let r = engine.verify_obligation("ski_completeness", None, None, Duration::from_millis(1)).unwrap();
    assert_eq!(r.result, VerificationOutcome::Failure);
    assert_eq!(engine.get_statistics().total_obligations, 3);
}

#[test]
fn verify_unknown_obligation_is_an_error() {
    let mut engine = FormalVerificationEngine::new();
    match engine.verify_obligation("no_such_obligation", None, None, Duration::from_millis(1)) {
        Err(LambdustError::RuntimeError { message }) => assert_eq!(message, "Unknown obligation: no_such_obligation"),
        other => panic!("unexpected result: {:?}", other.map(|r| r.result)),
    }
    assert_eq!(engine.get_statistics().total_obligations, 0);
}

#[test]
fn obligation_counts_for_reports() {
    let mut engine = FormalVerificationEngine::new();
    assert_eq!(engine.obligation_count(), 0);
    engine.initialize().unwrap();
    assert_eq!(engine.obligation_count(), 6);
    assert_eq!(engine.count_with_status(ProofStatus::Pending), 6);
    assert_eq!(engine.count_with_status(ProofStatus::Proven), 0);
    assert!(engine.get_ready_obligations().len() <= 6);
}
