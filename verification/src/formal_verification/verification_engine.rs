//! The formal verification engine: it sets up the standard proof obligations
//! of the system and keeps them with the proof-assistant interface, the
//! statistics and the configuration.
use vstd::prelude::*;
use super::core_types::{
    confidence_from, outcome_for, same_result, ProofEvidence, ProofTool, VerificationOutcome, VerificationResult,
    category_ids, is_ready, lookup, same_text, FormalStatement, ProofCategory, ProofObligation, ProofObligationManager, ProofPriority,
    ProofStatus, Quantifier, QuantifierType, VerificationConfig, VerificationStatistics,
};
use super::proof_assistant::{category_provable, ProofAssistantInterface};
use crate::error::LambdustError;
use crate::time::{Duration, MAX_NANOS};

verus! {

/// The first result cached for the obligation `id`.
pub open spec fn cached_result(cache: Seq<VerificationResult>, id: Seq<char>) -> Option<VerificationResult>
    decreases cache.len(),
{
    if cache.len() == 0 {
        None
    } else if cache[0].obligation_id@ == id {
        Some(cache[0])
    } else {
        cached_result(cache.drop_first(), id)
    }
}

proof fn lemma_cached_result_push(cache: Seq<VerificationResult>, x: VerificationResult, id: Seq<char>)
    ensures
        cached_result(cache.push(x), id) == match cached_result(cache, id) {
            Some(c) => Some(c),
            None => if x.obligation_id@ == id { Some(x) } else { None },
        },
    decreases cache.len(),
{
    let p = cache.push(x);
    if cache.len() == 0 {
        assert(p[0] == x);
        assert(p.drop_first() =~= Seq::<VerificationResult>::empty());
        assert(cached_result(p.drop_first(), id) is None);
    } else {
        assert(p[0] == cache[0]);
        assert(p.drop_first() =~= cache.drop_first().push(x));
        lemma_cached_result_push(cache.drop_first(), x, id);
    }
}

/// The evidence handed in, in the order property tests, automatic proof.
pub open spec fn gathered(property: Option<ProofEvidence>, automatic: Option<ProofEvidence>) -> Seq<ProofEvidence> {
    (match property { Some(e) => seq![e], None => Seq::empty() })
        + (match automatic { Some(e) => seq![e], None => Seq::empty() })
}

/// The texts of a list of strings.
pub open spec fn texts(v: Vec<String>) -> Seq<Seq<char>> {
    v@.map_values(|s: String| s@)
}

/// A quantifier as its variable, kind and domain.
pub open spec fn quantifier_view(q: Quantifier) -> (Seq<char>, QuantifierType, Seq<char>) {
    (q.variable@, q.quantifier_type, q.domain@)
}

/// The formal statement has this formula, these pre- and postconditions and
/// these quantifiers, and no formal code.
pub open spec fn statement_is(
    st: FormalStatement,
    formula: Seq<char>,
    pre: Seq<Seq<char>>,
    post: Seq<Seq<char>>,
    quants: Seq<(Seq<char>, QuantifierType, Seq<char>)>,
) -> bool {
    &&& st.formula@ == formula
    &&& texts(st.preconditions) == pre
    &&& texts(st.postconditions) == post
    &&& st.quantifiers@.map_values(|q: Quantifier| quantifier_view(q)) == quants
    &&& st.formal_code is None
}

/// A pending obligation with no evidence yet, as the engine sets it up.
pub open spec fn pending_obligation_is(
    o: ProofObligation,
    id: Seq<char>,
    description: Seq<char>,
    category: ProofCategory,
    priority: ProofPriority,
    dependencies: Seq<Seq<char>>,
) -> bool {
    &&& o.id@ == id
    &&& o.description@ == description
    &&& o.category == category
    &&& o.priority == priority
    &&& o.status == ProofStatus::Pending
    &&& o.evidence@.len() == 0
    &&& texts(o.dependencies) == dependencies
}

/// The first universe-polymorphism obligation: universe levels form a strict hierarchy.
pub open spec fn universe_level_consistency(o: ProofObligation) -> bool {
    &&& pending_obligation_is(o, "universe_level_consistency"@, "Universe levels form a strict hierarchy"@,
        ProofCategory::UniversePolymorphism, ProofPriority::Critical, seq![])
    &&& statement_is(o.statement, "∀ u₁ u₂. u₁ < u₂ → Type(u₁) : Type(u₂)"@,
        seq!["valid_universe_level(u₁)"@, "valid_universe_level(u₂)"@], seq!["type_hierarchy_preserved"@],
        seq![("u₁"@, QuantifierType::ForAll, "UniverseLevel"@), ("u₂"@, QuantifierType::ForAll, "UniverseLevel"@)])
}

/// The second universe-polymorphism obligation: type class instances are
/// unique modulo universe polymorphism; it depends on the first.
pub open spec fn typeclass_instance_uniqueness(o: ProofObligation) -> bool {
    &&& pending_obligation_is(o, "typeclass_instance_uniqueness"@,
        "Type class instances are unique modulo universe polymorphism"@,
        ProofCategory::UniversePolymorphism, ProofPriority::Critical, seq!["universe_level_consistency"@])
    &&& statement_is(o.statement, "∀ C T u₁ u₂. Instance(C, T, u₁) ∧ Instance(C, T, u₂) → u₁ = u₂"@,
        seq!["valid_class(C)"@, "valid_type(T)"@], seq!["unique_instance(C, T)"@],
        seq![("C"@, QuantifierType::ForAll, "TypeClass"@), ("T"@, QuantifierType::ForAll, "Type"@)])
}

/// The combinatory-logic obligation: SKI combinators are complete for lambda calculus.
pub open spec fn ski_completeness(o: ProofObligation) -> bool {
    &&& pending_obligation_is(o, "ski_completeness"@, "SKI combinators are complete for lambda calculus"@,
        ProofCategory::CombinatoryLogic, ProofPriority::Critical, seq![])
    &&& statement_is(o.statement, "∀ λ-term. ∃ SKI-term. ⟦λ-term⟧ = ⟦SKI-term⟧"@,
        seq!["well_typed_lambda_term(λ-term)"@], seq!["semantically_equivalent(λ-term, SKI-term)"@],
        seq![("λ-term"@, QuantifierType::ForAll, "LambdaTerm"@), ("SKI-term"@, QuantifierType::Exists, "CombinatorTerm"@)])
}

/// The homotopy-type-theory obligation: univalence is consistent with the
/// type system; it depends on universe level consistency.
pub open spec fn univalence_consistency(o: ProofObligation) -> bool {
    &&& pending_obligation_is(o, "univalence_consistency"@, "Univalence axiom is consistent with type system"@,
        ProofCategory::HomotopyTypeTheory, ProofPriority::High, seq!["universe_level_consistency"@])
    &&& statement_is(o.statement, "∀ A B. (A ≃ B) ≃ (A = B)"@,
        seq!["types_in_universe(A, B)"@], seq!["univalence_holds(A, B)"@],
        seq![("A"@, QuantifierType::ForAll, "Type"@), ("B"@, QuantifierType::ForAll, "Type"@)])
}

/// The monad-transformer obligation: transformers preserve the monad laws.
pub open spec fn transformer_monad_laws(o: ProofObligation) -> bool {
    &&& pending_obligation_is(o, "transformer_monad_laws"@, "Monad transformers preserve monad laws"@,
        ProofCategory::MonadTransformers, ProofPriority::High, seq![])
    &&& statement_is(o.statement, "∀ T M. Monad(M) → Monad(T(M))"@,
        seq!["valid_transformer(T)"@, "monad_laws(M)"@], seq!["monad_laws(T(M))"@],
        seq![("T"@, QuantifierType::ForAll, "MonadTransformer"@), ("M"@, QuantifierType::ForAll, "Monad"@)])
}

/// The semantic-correctness obligation: the semantic evaluator preserves R7RS semantics.
pub open spec fn semantic_evaluator_correctness(o: ProofObligation) -> bool {
    &&& pending_obligation_is(o, "semantic_evaluator_correctness"@, "Semantic evaluator preserves R7RS semantics"@,
        ProofCategory::SemanticCorrectness, ProofPriority::Critical, seq![])
    &&& statement_is(o.statement, "∀ expr env. ⟦expr⟧_R7RS = SemanticEval(expr, env)"@,
        seq!["well_formed(expr)"@, "valid_environment(env)"@], seq!["r7rs_compliant_result"@],
        seq![("expr"@, QuantifierType::ForAll, "Expression"@), ("env"@, QuantifierType::ForAll, "Environment"@)])
}

/// The identifiers of the standard obligations are pairwise distinct.
proof fn lemma_standard_ids_distinct()
    ensures
        "universe_level_consistency"@ != "typeclass_instance_uniqueness"@,
        "universe_level_consistency"@ != "ski_completeness"@,
        "universe_level_consistency"@ != "univalence_consistency"@,
        "universe_level_consistency"@ != "transformer_monad_laws"@,
        "universe_level_consistency"@ != "semantic_evaluator_correctness"@,
        "typeclass_instance_uniqueness"@ != "ski_completeness"@,
        "typeclass_instance_uniqueness"@ != "univalence_consistency"@,
        "typeclass_instance_uniqueness"@ != "transformer_monad_laws"@,
        "typeclass_instance_uniqueness"@ != "semantic_evaluator_correctness"@,
        "ski_completeness"@ != "univalence_consistency"@,
        "ski_completeness"@ != "transformer_monad_laws"@,
        "ski_completeness"@ != "semantic_evaluator_correctness"@,
        "univalence_consistency"@ != "transformer_monad_laws"@,
        "univalence_consistency"@ != "semantic_evaluator_correctness"@,
        "transformer_monad_laws"@ != "semantic_evaluator_correctness"@,
{
    reveal_strlit("universe_level_consistency");
    reveal_strlit("typeclass_instance_uniqueness");
    reveal_strlit("ski_completeness");
    reveal_strlit("univalence_consistency");
    reveal_strlit("transformer_monad_laws");
    reveal_strlit("semantic_evaluator_correctness");
    assert("universe_level_consistency"@.len() == 26);
    assert("typeclass_instance_uniqueness"@.len() == 29);
    assert("ski_completeness"@.len() == 16);
    assert("univalence_consistency"@.len() == 22);
    assert("transformer_monad_laws"@.len() == 22);
    assert("semantic_evaluator_correctness"@.len() == 30);
    assert("univalence_consistency"@[0] != "transformer_monad_laws"@[0]);
}

fn no_texts() -> (v: Vec<String>)
    ensures
        texts(v) == Seq::<Seq<char>>::empty(),
{
    let v: Vec<String> = Vec::new();
    assert(texts(v) =~= Seq::<Seq<char>>::empty());
    v
}

fn one_text(a: &str) -> (v: Vec<String>)
    ensures
        texts(v) == seq![a@],
{
    let v = vec![String::from_str(a)];
    assert(texts(v) =~= seq![a@]);
    v
}

fn two_texts(a: &str, b: &str) -> (v: Vec<String>)
    ensures
        texts(v) == seq![a@, b@],
{
    let v = vec![String::from_str(a), String::from_str(b)];
    assert(texts(v) =~= seq![a@, b@]);
    v
}

fn two_quantifiers(
    v1: &str, t1: QuantifierType, d1: &str,
    v2: &str, t2: QuantifierType, d2: &str,
) -> (v: Vec<Quantifier>)
    ensures
        v@.map_values(|q: Quantifier| quantifier_view(q)) == seq![(v1@, t1, d1@), (v2@, t2, d2@)],
{
    let q1 = Quantifier { variable: String::from_str(v1), quantifier_type: t1, domain: String::from_str(d1) };
    let q2 = Quantifier { variable: String::from_str(v2), quantifier_type: t2, domain: String::from_str(d2) };
    let v = vec![q1, q2];
    assert(v@.map_values(|q: Quantifier| quantifier_view(q)) =~= seq![(v1@, t1, d1@), (v2@, t2, d2@)]);
    v
}

/// A pending obligation with no evidence, as the engine sets them up.
fn pending_obligation(
    id: &str,
    description: &str,
    category: ProofCategory,
    statement: FormalStatement,
    priority: ProofPriority,
    dependencies: Vec<String>,
) -> (o: ProofObligation)
    ensures
        pending_obligation_is(o, id@, description@, category, priority, texts(dependencies)),
        o.statement == statement,
{
    ProofObligation {
        id: String::from_str(id),
        description: String::from_str(description),
        category,
        statement,
        priority,
        status: ProofStatus::Pending,
        evidence: Vec::new(),
        dependencies,
    }
}

/// Main formal verification engine coordinating the proof obligations.
#[derive(Debug)]
pub struct FormalVerificationEngine {
    proof_obligations: ProofObligationManager,
    proof_assistant: ProofAssistantInterface,
    verification_cache: Vec<VerificationResult>,
    statistics: VerificationStatistics,
    config: VerificationConfig,
}

impl FormalVerificationEngine {
    /// The proof obligations.
    pub closed spec fn obligations(&self) -> Seq<ProofObligation> {
        self.proof_obligations.obligations@
    }

    /// The index of obligation identifiers by category.
    pub closed spec fn categories(&self) -> Seq<(ProofCategory, Vec<String>)> {
        self.proof_obligations.categories@
    }

    /// The dependency graph of the obligation manager.
    pub closed spec fn dependency_graph(&self) -> Seq<(String, Vec<String>)> {
        self.proof_obligations.dependencies@
    }

    /// The verification statistics.
    pub closed spec fn stats(&self) -> VerificationStatistics {
        self.statistics
    }

    /// The cached verification results, oldest first.
    pub closed spec fn results(&self) -> Seq<VerificationResult> {
        self.verification_cache@
    }

    /// The external proof tools available, in the order they are tried.
    pub closed spec fn tools(&self) -> Seq<ProofTool> {
        self.proof_assistant.tools()
    }

    /// Whether an external proof tool is available.
    pub open spec fn tools_available(&self) -> bool {
        self.tools().len() > 0
    }

    /// The configuration.
    pub closed spec fn config_view(&self) -> VerificationConfig {
        self.config
    }

    /// The obligation manager and the proof-assistant interface are consistent.
    pub closed spec fn wf(&self) -> bool {
        &&& self.proof_obligations.wf()
        &&& self.proof_assistant.wf()
    }

    /// An engine with no obligations, no tools, empty statistics and the
    /// default configuration.
    pub fn new() -> (e: Self)
        ensures
            e.wf(),
            e.obligations().len() == 0,
            e.stats().total_obligations == 0,
            e.config_view().cache_size == 1000,
    {
        FormalVerificationEngine {
            proof_obligations: ProofObligationManager::new(),
            proof_assistant: ProofAssistantInterface::new(),
            verification_cache: Vec::new(),
            statistics: VerificationStatistics::new(),
            config: VerificationConfig::default(),
        }
    }

    /// Initialize the engine with the standard proof obligations: the two of
    /// universe polymorphism, then combinatory logic, homotopy type theory,
    /// monad transformers and semantic correctness. Other obligations stay.
    pub fn initialize(&mut self) -> (r: Result<(), LambdustError>)
        requires
            old(self).wf(),
        ensures
            r is Ok,
            final(self).wf(),
            (lookup(final(self).obligations(), "universe_level_consistency"@) matches Some(o) && universe_level_consistency(o)),
            (lookup(final(self).obligations(), "typeclass_instance_uniqueness"@) matches Some(o) && typeclass_instance_uniqueness(o)),
            (lookup(final(self).obligations(), "ski_completeness"@) matches Some(o) && ski_completeness(o)),
            (lookup(final(self).obligations(), "univalence_consistency"@) matches Some(o) && univalence_consistency(o)),
            (lookup(final(self).obligations(), "transformer_monad_laws"@) matches Some(o) && transformer_monad_laws(o)),
            (lookup(final(self).obligations(), "semantic_evaluator_correctness"@) matches Some(o) && semantic_evaluator_correctness(o)),
            forall|id: Seq<char>| id != "universe_level_consistency"@ && id != "typeclass_instance_uniqueness"@
                && id != "ski_completeness"@ && id != "univalence_consistency"@
                && id != "transformer_monad_laws"@ && id != "semantic_evaluator_correctness"@
                ==> #[trigger] lookup(final(self).obligations(), id) == lookup(old(self).obligations(), id),
            category_ids(final(self).categories(), ProofCategory::UniversePolymorphism)
                == category_ids(old(self).categories(), ProofCategory::UniversePolymorphism)
                    .push("universe_level_consistency"@).push("typeclass_instance_uniqueness"@),
            category_ids(final(self).categories(), ProofCategory::CombinatoryLogic)
                == category_ids(old(self).categories(), ProofCategory::CombinatoryLogic).push("ski_completeness"@),
            category_ids(final(self).categories(), ProofCategory::HomotopyTypeTheory)
                == category_ids(old(self).categories(), ProofCategory::HomotopyTypeTheory).push("univalence_consistency"@),
            category_ids(final(self).categories(), ProofCategory::MonadTransformers)
                == category_ids(old(self).categories(), ProofCategory::MonadTransformers).push("transformer_monad_laws"@),
            category_ids(final(self).categories(), ProofCategory::SemanticCorrectness)
                == category_ids(old(self).categories(), ProofCategory::SemanticCorrectness).push("semantic_evaluator_correctness"@),
            forall|c: ProofCategory| c != ProofCategory::UniversePolymorphism && c != ProofCategory::CombinatoryLogic
                && c != ProofCategory::HomotopyTypeTheory && c != ProofCategory::MonadTransformers
                && c != ProofCategory::SemanticCorrectness ==>
                #[trigger] category_ids(final(self).categories(), c) == category_ids(old(self).categories(), c),
            final(self).dependency_graph() == old(self).dependency_graph(),
    {
        proof {
            lemma_standard_ids_distinct();
        }
        let _ = self.add_universe_polymorphism_obligations();
        let ghost s1 = self.obligations();
        let _ = self.add_combinatory_logic_obligations();
        let ghost s2 = self.obligations();
        assert(lookup(s2, "universe_level_consistency"@) == lookup(s1, "universe_level_consistency"@));
        assert(lookup(s2, "typeclass_instance_uniqueness"@) == lookup(s1, "typeclass_instance_uniqueness"@));
        let _ = self.add_homotopy_type_theory_obligations();
        let ghost s3 = self.obligations();
        assert(lookup(s3, "universe_level_consistency"@) == lookup(s2, "universe_level_consistency"@));
        assert(lookup(s3, "typeclass_instance_uniqueness"@) == lookup(s2, "typeclass_instance_uniqueness"@));
        assert(lookup(s3, "ski_completeness"@) == lookup(s2, "ski_completeness"@));
        let _ = self.add_monad_transformer_obligations();
        let ghost s4 = self.obligations();
        assert(lookup(s4, "universe_level_consistency"@) == lookup(s3, "universe_level_consistency"@));
        assert(lookup(s4, "typeclass_instance_uniqueness"@) == lookup(s3, "typeclass_instance_uniqueness"@));
        assert(lookup(s4, "ski_completeness"@) == lookup(s3, "ski_completeness"@));
        assert(lookup(s4, "univalence_consistency"@) == lookup(s3, "univalence_consistency"@));
        let _ = self.add_semantic_correctness_obligations();
        assert(lookup(self.obligations(), "universe_level_consistency"@) == lookup(s4, "universe_level_consistency"@));
        assert(lookup(self.obligations(), "typeclass_instance_uniqueness"@) == lookup(s4, "typeclass_instance_uniqueness"@));
        assert(lookup(self.obligations(), "ski_completeness"@) == lookup(s4, "ski_completeness"@));
        assert(lookup(self.obligations(), "univalence_consistency"@) == lookup(s4, "univalence_consistency"@));
        assert(lookup(self.obligations(), "transformer_monad_laws"@) == lookup(s4, "transformer_monad_laws"@));
        Ok(())
    }

    /// Add the universe polymorphism obligations: universe level consistency,
    /// then type class instance uniqueness, which depends on it.
    fn add_universe_polymorphism_obligations(&mut self) -> (r: Result<(), LambdustError>)
        requires
            old(self).wf(),
        ensures
            r is Ok,
            final(self).wf(),
            (lookup(final(self).obligations(), "universe_level_consistency"@) matches Some(o) && universe_level_consistency(o)),
            (lookup(final(self).obligations(), "typeclass_instance_uniqueness"@) matches Some(o) && typeclass_instance_uniqueness(o)),
            forall|id: Seq<char>| id != "universe_level_consistency"@ && id != "typeclass_instance_uniqueness"@
                ==> #[trigger] lookup(final(self).obligations(), id) == lookup(old(self).obligations(), id),
            category_ids(final(self).categories(), ProofCategory::UniversePolymorphism) == category_ids(old(self).categories(), ProofCategory::UniversePolymorphism).push("universe_level_consistency"@).push("typeclass_instance_uniqueness"@),
            forall|c: ProofCategory| c != ProofCategory::UniversePolymorphism ==>
                #[trigger] category_ids(final(self).categories(), c) == category_ids(old(self).categories(), c),
            final(self).dependency_graph() == old(self).dependency_graph(),
    {
        proof {
            lemma_standard_ids_distinct();
        }
        let statement = FormalStatement {
            formula: String::from_str("∀ u₁ u₂. u₁ < u₂ → Type(u₁) : Type(u₂)"),
            preconditions: two_texts("valid_universe_level(u₁)", "valid_universe_level(u₂)"),
            postconditions: one_text("type_hierarchy_preserved"),
            quantifiers: two_quantifiers("u₁", QuantifierType::ForAll, "UniverseLevel", "u₂", QuantifierType::ForAll, "UniverseLevel"),
            formal_code: None,
        };
        let first = pending_obligation(
            "universe_level_consistency",
            "Universe levels form a strict hierarchy",
            ProofCategory::UniversePolymorphism,
            statement,
            ProofPriority::Critical,
            no_texts(),
        );
        assert(universe_level_consistency(first));
        self.proof_obligations.add_obligation(first);
        let statement = FormalStatement {
            formula: String::from_str("∀ C T u₁ u₂. Instance(C, T, u₁) ∧ Instance(C, T, u₂) → u₁ = u₂"),
            preconditions: two_texts("valid_class(C)", "valid_type(T)"),
            postconditions: one_text("unique_instance(C, T)"),
            quantifiers: two_quantifiers("C", QuantifierType::ForAll, "TypeClass", "T", QuantifierType::ForAll, "Type"),
            formal_code: None,
        };
        let second = pending_obligation(
            "typeclass_instance_uniqueness",
            "Type class instances are unique modulo universe polymorphism",
            ProofCategory::UniversePolymorphism,
            statement,
            ProofPriority::Critical,
            one_text("universe_level_consistency"),
        );
        assert(typeclass_instance_uniqueness(second));
        let ghost mid = self.obligations();
        self.proof_obligations.add_obligation(second);
        assert(lookup(self.obligations(), "universe_level_consistency"@) == lookup(mid, "universe_level_consistency"@));
        Ok(())
    }

    /// Add the combinatory logic obligation: SKI completeness.
    fn add_combinatory_logic_obligations(&mut self) -> (r: Result<(), LambdustError>)
        requires
            old(self).wf(),
        ensures
            r is Ok,
            final(self).wf(),
            (lookup(final(self).obligations(), "ski_completeness"@) matches Some(o) && ski_completeness(o)),
            forall|id: Seq<char>| id != "ski_completeness"@
                ==> #[trigger] lookup(final(self).obligations(), id) == lookup(old(self).obligations(), id),
            category_ids(final(self).categories(), ProofCategory::CombinatoryLogic) == category_ids(old(self).categories(), ProofCategory::CombinatoryLogic).push("ski_completeness"@),
            forall|c: ProofCategory| c != ProofCategory::CombinatoryLogic ==>
                #[trigger] category_ids(final(self).categories(), c) == category_ids(old(self).categories(), c),
            final(self).dependency_graph() == old(self).dependency_graph(),
    {
        let statement = FormalStatement {
            formula: String::from_str("∀ λ-term. ∃ SKI-term. ⟦λ-term⟧ = ⟦SKI-term⟧"),
            preconditions: one_text("well_typed_lambda_term(λ-term)"),
            postconditions: one_text("semantically_equivalent(λ-term, SKI-term)"),
            quantifiers: two_quantifiers("λ-term", QuantifierType::ForAll, "LambdaTerm", "SKI-term", QuantifierType::Exists, "CombinatorTerm"),
            formal_code: None,
        };
        let ob = pending_obligation(
            "ski_completeness",
            "SKI combinators are complete for lambda calculus",
            ProofCategory::CombinatoryLogic,
            statement,
            ProofPriority::Critical,
            no_texts(),
        );
        assert(ski_completeness(ob));
        self.proof_obligations.add_obligation(ob);
        Ok(())
    }

    /// Add the homotopy type theory obligation: univalence consistency.
    fn add_homotopy_type_theory_obligations(&mut self) -> (r: Result<(), LambdustError>)
        requires
            old(self).wf(),
        ensures
            r is Ok,
            final(self).wf(),
            (lookup(final(self).obligations(), "univalence_consistency"@) matches Some(o) && univalence_consistency(o)),
            forall|id: Seq<char>| id != "univalence_consistency"@
                ==> #[trigger] lookup(final(self).obligations(), id) == lookup(old(self).obligations(), id),
            category_ids(final(self).categories(), ProofCategory::HomotopyTypeTheory) == category_ids(old(self).categories(), ProofCategory::HomotopyTypeTheory).push("univalence_consistency"@),
            forall|c: ProofCategory| c != ProofCategory::HomotopyTypeTheory ==>
                #[trigger] category_ids(final(self).categories(), c) == category_ids(old(self).categories(), c),
            final(self).dependency_graph() == old(self).dependency_graph(),
    {
        let statement = FormalStatement {
            formula: String::from_str("∀ A B. (A ≃ B) ≃ (A = B)"),
            preconditions: one_text("types_in_universe(A, B)"),
            postconditions: one_text("univalence_holds(A, B)"),
            quantifiers: two_quantifiers("A", QuantifierType::ForAll, "Type", "B", QuantifierType::ForAll, "Type"),
            formal_code: None,
        };
        let ob = pending_obligation(
            "univalence_consistency",
            "Univalence axiom is consistent with type system",
            ProofCategory::HomotopyTypeTheory,
            statement,
            ProofPriority::High,
            one_text("universe_level_consistency"),
        );
        assert(univalence_consistency(ob));
        self.proof_obligations.add_obligation(ob);
        Ok(())
    }

    /// Add the monad transformer obligation: the monad laws are preserved.
    fn add_monad_transformer_obligations(&mut self) -> (r: Result<(), LambdustError>)
        requires
            old(self).wf(),
        ensures
            r is Ok,
            final(self).wf(),
            (lookup(final(self).obligations(), "transformer_monad_laws"@) matches Some(o) && transformer_monad_laws(o)),
            forall|id: Seq<char>| id != "transformer_monad_laws"@
                ==> #[trigger] lookup(final(self).obligations(), id) == lookup(old(self).obligations(), id),
            category_ids(final(self).categories(), ProofCategory::MonadTransformers) == category_ids(old(self).categories(), ProofCategory::MonadTransformers).push("transformer_monad_laws"@),
            forall|c: ProofCategory| c != ProofCategory::MonadTransformers ==>
                #[trigger] category_ids(final(self).categories(), c) == category_ids(old(self).categories(), c),
            final(self).dependency_graph() == old(self).dependency_graph(),
    {
        let statement = FormalStatement {
            formula: String::from_str("∀ T M. Monad(M) → Monad(T(M))"),
            preconditions: two_texts("valid_transformer(T)", "monad_laws(M)"),
            postconditions: one_text("monad_laws(T(M))"),
            quantifiers: two_quantifiers("T", QuantifierType::ForAll, "MonadTransformer", "M", QuantifierType::ForAll, "Monad"),
            formal_code: None,
        };
        let ob = pending_obligation(
            "transformer_monad_laws",
            "Monad transformers preserve monad laws",
            ProofCategory::MonadTransformers,
            statement,
            ProofPriority::High,
            no_texts(),
        );
        assert(transformer_monad_laws(ob));
        self.proof_obligations.add_obligation(ob);
        Ok(())
    }

    /// Add the semantic correctness obligation for the semantic evaluator.
    fn add_semantic_correctness_obligations(&mut self) -> (r: Result<(), LambdustError>)
        requires
            old(self).wf(),
        ensures
            r is Ok,
            final(self).wf(),
            (lookup(final(self).obligations(), "semantic_evaluator_correctness"@) matches Some(o) && semantic_evaluator_correctness(o)),
            forall|id: Seq<char>| id != "semantic_evaluator_correctness"@
                ==> #[trigger] lookup(final(self).obligations(), id) == lookup(old(self).obligations(), id),
            category_ids(final(self).categories(), ProofCategory::SemanticCorrectness) == category_ids(old(self).categories(), ProofCategory::SemanticCorrectness).push("semantic_evaluator_correctness"@),
            forall|c: ProofCategory| c != ProofCategory::SemanticCorrectness ==>
                #[trigger] category_ids(final(self).categories(), c) == category_ids(old(self).categories(), c),
            final(self).dependency_graph() == old(self).dependency_graph(),
    {
        let statement = FormalStatement {
            formula: String::from_str("∀ expr env. ⟦expr⟧_R7RS = SemanticEval(expr, env)"),
            preconditions: two_texts("well_formed(expr)", "valid_environment(env)"),
            postconditions: one_text("r7rs_compliant_result"),
            quantifiers: two_quantifiers("expr", QuantifierType::ForAll, "Expression", "env", QuantifierType::ForAll, "Environment"),
            formal_code: None,
        };
        let ob = pending_obligation(
            "semantic_evaluator_correctness",
            "Semantic evaluator preserves R7RS semantics",
            ProofCategory::SemanticCorrectness,
            statement,
            ProofPriority::Critical,
            no_texts(),
        );
        assert(semantic_evaluator_correctness(ob));
        self.proof_obligations.add_obligation(ob);
        Ok(())
    }

    /// Get a proof obligation by identifier.
    pub fn get_obligation(&self, id: &str) -> (r: Option<&ProofObligation>)
        requires
            self.wf(),
        ensures
            match r {
                Some(o) => lookup(self.obligations(), id@) == Some(*o),
                None => lookup(self.obligations(), id@) is None,
            },
    {
        self.proof_obligations.get_obligation(id)
    }

    /// The verification statistics.
    pub fn get_statistics(&self) -> (s: &VerificationStatistics)
        ensures
            *s == self.stats(),
    {
        &self.statistics
    }

    fn find_cached(&self, id: &str) -> (r: Option<usize>)
        ensures
            match r {
                Some(i) => i < self.results().len() && cached_result(self.results(), id@) == Some(self.results()[i as int]),
                None => cached_result(self.results(), id@) is None,
            },
    {
        let mut i: usize = 0;
        assert(self.verification_cache@.skip(0) =~= self.verification_cache@);
        while i < self.verification_cache.len()
            invariant
                i <= self.verification_cache@.len(),
                cached_result(self.verification_cache@, id@) == cached_result(self.verification_cache@.skip(i as int), id@),
            decreases self.verification_cache@.len() - i,
        {
            let ghost rest = self.verification_cache@.skip(i as int);
            assert(rest[0] == self.verification_cache@[i as int]);
            assert(rest.drop_first() =~= self.verification_cache@.skip(i + 1));
            if same_text(&self.verification_cache[i].obligation_id, id) {
                return Some(i);
            }
            i = i + 1;
        }
        assert(self.verification_cache@.skip(i as int).len() == 0);
        None
    }

    /// Verifies the obligation `obligation_id` from the evidence that the
    /// property tester and the automatic prover found for it, over
    /// `time_taken`. A result cached for the obligation is returned as it
    /// is; an unknown obligation is an error. Otherwise, with a tool
    /// available, the external tools are run on the obligation
    /// (`ProofAssistantInterface::run_external_tools`); the confidence sums
    /// the shares of the evidence found, the outcome follows from it, the
    /// result is cached, and the statistics count the obligation, its time and
    /// its outcome.
    pub fn verify_obligation(
        &mut self,
        obligation_id: &str,
        property: Option<ProofEvidence>,
        automatic: Option<ProofEvidence>,
        time_taken: Duration,
    ) -> (r: Result<VerificationResult, LambdustError>)
        requires
            old(self).wf(),
            old(self).stats().total_obligations < usize::MAX,
            old(self).stats().proven_obligations < usize::MAX,
            old(self).stats().failed_obligations < usize::MAX,
            old(self).stats().skipped_obligations < usize::MAX,
            old(self).stats().total_time@ + time_taken@ <= MAX_NANOS,
        ensures
            final(self).wf(),
            final(self).obligations() == old(self).obligations(),
            final(self).config_view() == old(self).config_view(),
            final(self).tools() == old(self).tools(),
            match cached_result(old(self).results(), obligation_id@) {
                Some(c) => {
                    &&& r matches Ok(v) && same_result(v, c)
                    &&& final(self).results() == old(self).results()
                    &&& final(self).stats() == old(self).stats()
                },
                None => match lookup(old(self).obligations(), obligation_id@) {
                    None => {
                        &&& r matches Err(e) && e matches LambdustError::RuntimeError { message }
                            && message@ == "Unknown obligation: "@ + obligation_id@
                        &&& final(self).results() == old(self).results()
                        &&& final(self).stats() == old(self).stats()
                    },
                    Some(o) => {
                        let external = old(self).tools_available() && category_provable(o.category);
                        let handed = gathered(property, automatic);
                        let confidence = confidence_from(property is Some, automatic is Some, external);
                        &&& r matches Ok(v) && {
                            &&& v.obligation_id@ == obligation_id@
                            &&& v.result == outcome_for(confidence)
                            &&& v.confidence_tenths == confidence
                            &&& v.time_taken == time_taken
                            &&& v.evidence@.len() == handed.len() + if external { 1int } else { 0int }
                            &&& v.evidence@.subrange(0, handed.len() as int) == handed
                            &&& external ==> (v.evidence@.last() matches ProofEvidence::FormalProof { tool, checksum, .. }
                                && tool == old(self).tools()[0] && checksum@ == "abc123"@)
                            &&& v.issues@.len() == 0
                            &&& final(self).results().len() == old(self).results().len() + 1
                            &&& same_result(final(self).results().last(), v)
                        }
                        &&& forall|k: Seq<char>| k != obligation_id@
                            ==> #[trigger] cached_result(final(self).results(), k) == cached_result(old(self).results(), k)
                        &&& cached_result(final(self).results(), obligation_id@) == Some(final(self).results().last())
                        &&& final(self).stats() == (VerificationStatistics {
                            total_obligations: (old(self).stats().total_obligations + 1) as usize,
                            total_time: final(self).stats().total_time,
                            proven_obligations: (old(self).stats().proven_obligations
                                + if outcome_for(confidence) == VerificationOutcome::Success { 1int } else { 0int }) as usize,
                            failed_obligations: (old(self).stats().failed_obligations
                                + if outcome_for(confidence) == VerificationOutcome::Failure { 1int } else { 0int }) as usize,
                            skipped_obligations: (old(self).stats().skipped_obligations
                                + if outcome_for(confidence) == VerificationOutcome::Incomplete { 1int } else { 0int }) as usize,
                            ..old(self).stats()
                        })
                        &&& final(self).stats().total_time@ == old(self).stats().total_time@ + time_taken@
                    },
                },
            },
    {
        match self.find_cached(obligation_id) {
            Some(i) => {
                return Ok(self.verification_cache[i].copy());
            },
            None => {},
        }
        let ob = match self.proof_obligations.get_obligation(obligation_id) {
            Some(o) => o,
            None => {
                let mut message = String::from_str("Unknown obligation: ");
                message.append(obligation_id);
                return Err(LambdustError::runtime_error(message));
            },
        };
        let mut evidence: Vec<ProofEvidence> = Vec::new();
        let mut confidence: u8 = 0;
        match property {
            Some(e) => {
                confidence = confidence + 3;
                evidence.push(e);
            },
            None => {},
        }
        match automatic {
            Some(e) => {
                confidence = confidence + 4;
                evidence.push(e);
            },
            None => {},
        }
        let ghost handed = evidence@;
        proof {
            assert(handed =~= gathered(property, automatic));
        }
        if self.proof_assistant.has_available_tools() {
            match self.proof_assistant.run_external_tools(ob) {
                Ok(e) => {
                    confidence = confidence + 5;
                    evidence.push(e);
                },
                Err(_) => {},
            }
        }
        assert(evidence@.subrange(0, handed.len() as int) =~= handed);
        let outcome = if confidence > 7 {
            VerificationOutcome::Success
        } else if confidence > 3 {
            VerificationOutcome::Incomplete
        } else {
            VerificationOutcome::Failure
        };
        let result = VerificationResult {
            obligation_id: String::from_str(obligation_id),
            result: outcome,
            evidence,
            time_taken,
            confidence_tenths: confidence,
            issues: Vec::new(),
        };
        let ghost before = self.verification_cache@;
        self.verification_cache.push(result.copy());
        proof {
            assert(self.verification_cache@ == before.push(self.verification_cache@.last()));
            assert forall|k: Seq<char>| #[trigger] cached_result(self.verification_cache@, k)
                == match cached_result(before, k) {
                    Some(c) => Some(c),
                    None => if self.verification_cache@.last().obligation_id@ == k { Some(self.verification_cache@.last()) } else { None },
                } by {
                lemma_cached_result_push(before, self.verification_cache@.last(), k);
            }
        }
        self.statistics.total_obligations = self.statistics.total_obligations + 1;
        self.statistics.total_time = self.statistics.total_time.add(time_taken);
        match outcome {
            VerificationOutcome::Success => {
                self.statistics.proven_obligations = self.statistics.proven_obligations + 1;
            },
            VerificationOutcome::Failure => {
                self.statistics.failed_obligations = self.statistics.failed_obligations + 1;
            },
            _ => {
                self.statistics.skipped_obligations = self.statistics.skipped_obligations + 1;
            },
        }
        Ok(result)
    }

    /// The obligations ready for proof (pending, with every dependency
    /// proven), in storage order.
    pub fn get_ready_obligations(&self) -> (r: Vec<&ProofObligation>)
        requires
            self.wf(),
        ensures
            r@.map_values(|o: &ProofObligation| *o) == self.obligations().filter(|o: ProofObligation| is_ready(self.obligations(), o)),
    {
        self.proof_obligations.get_ready_obligations()
    }

    /// The number of obligations.
    pub fn obligation_count(&self) -> (n: usize)
        ensures
            n == self.obligations().len(),
    {
        self.proof_obligations.obligations.len()
    }

    /// The number of obligations with the given status.
    pub fn count_with_status(&self, status: ProofStatus) -> (n: usize)
        ensures
            n == self.obligations().filter(|o: ProofObligation| o.status == status).len(),
    {
        let ghost obs = self.proof_obligations.obligations@;
        let ghost pred = |o: ProofObligation| o.status == status;
        let mut n: usize = 0;
        let mut i: usize = 0;
        while i < self.proof_obligations.obligations.len()
            invariant
                obs == self.proof_obligations.obligations@,
                pred == (|o: ProofObligation| o.status == status),
                i <= obs.len(),
                n == obs.take(i as int).filter(pred).len(),
                n <= i,
            decreases obs.len() - i,
        {
            proof {
                let t = obs.take(i as int + 1);
                assert(t.drop_last() =~= obs.take(i as int));
                assert(t.last() == obs[i as int]);
                reveal_with_fuel(Seq::filter, 1);
                assert(t.filter(pred) == if pred(t.last()) {
                    t.drop_last().filter(pred).push(t.last())
                } else {
                    t.drop_last().filter(pred)
                });
                assert(pred(obs[i as int]) == (obs[i as int].status == status));
            }
            if self.proof_obligations.obligations[i].status == status {
                n = n + 1;
            }
            i = i + 1;
        }
        assert(obs.take(obs.len() as int) =~= obs);
        n
    }

    /// Forget every cached verification result.
    pub fn clear_cache(&mut self)
        ensures
            final(self).results().len() == 0,
            final(self).obligations() == old(self).obligations(),
            final(self).wf() == old(self).wf(),
            final(self).stats() == old(self).stats(),
            final(self).config_view() == old(self).config_view(),
    {
        self.verification_cache.clear();
    }

    /// Replace the configuration.
    pub fn configure(&mut self, config: VerificationConfig)
        ensures
            final(self).config_view() == config,
            final(self).obligations() == old(self).obligations(),
            final(self).wf() == old(self).wf(),
            final(self).stats() == old(self).stats(),
    {
        self.config = config;
    }
}

} // verus!
