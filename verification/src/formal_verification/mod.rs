//! Formal verification support: proof obligations and the interface to
//! external proof assistants.
use vstd::prelude::*;

pub mod core_types;
pub mod proof_assistant;
pub mod verification_engine;

verus! {

/// System aspects that can be verified
#[derive(Debug, Clone, Copy, PartialEq, Eq, Structural)]
pub enum SystemAspect {
    /// Universe polymorphism correctness
    UniversePolymorphism,
    /// Combinatory logic equivalence
    CombinatoryLogic,
    /// Semantic evaluator correctness
    SemanticCorrectness,
    /// Type system soundness
    TypeSystemSoundness,
    /// Homotopy type theory consistency
    HomotopyTypeTheory,
    /// Monad transformer composition laws
    MonadTransformers,
}

/// The obligation that stands for an aspect of the system.
pub open spec fn aspect_obligation_id(aspect: SystemAspect) -> Seq<char> {
    match aspect {
        SystemAspect::UniversePolymorphism => "universe_level_consistency"@,
        SystemAspect::CombinatoryLogic => "ski_completeness"@,
        SystemAspect::SemanticCorrectness => "semantic_evaluator_correctness"@,
        SystemAspect::TypeSystemSoundness => "typeclass_instance_uniqueness"@,
        SystemAspect::HomotopyTypeTheory => "univalence_consistency"@,
        SystemAspect::MonadTransformers => "transformer_monad_laws"@,
    }
}

impl SystemAspect {
    /// Identifier of the proof obligation that verifies this aspect.
    pub fn obligation_id(&self) -> (s: &'static str)
        ensures
            s@ == aspect_obligation_id(*self),
    {
        match self {
            SystemAspect::UniversePolymorphism => "universe_level_consistency",
            SystemAspect::CombinatoryLogic => "ski_completeness",
            SystemAspect::SemanticCorrectness => "semantic_evaluator_correctness",
            SystemAspect::TypeSystemSoundness => "typeclass_instance_uniqueness",
            SystemAspect::HomotopyTypeTheory => "univalence_consistency",
            SystemAspect::MonadTransformers => "transformer_monad_laws",
        }
    }
}

} // verus!
