//! Dependent-type-aware hotspot analysis: the kinds and tiers of
//! specialization and the memory accesses observed while executing.
use vstd::prelude::*;
use crate::error::LambdustError;
use crate::jit::compilation_tiers::CompilationTier;
use crate::time::Duration;

verus! {

/// Types of specialization available.
#[derive(Debug, Clone, Copy, PartialEq, Eq, Structural)]
pub enum SpecializationKind {
    /// Monomorphization of polymorphic types
    TypeMonomorphization,
    /// Elimination of runtime proof checks
    ProofElimination,
    /// Specialization based on stable constraints
    ConstraintSpecialization,
    /// Memory layout optimization
    MemoryLayoutOptimization,
    /// SIMD vectorization of numeric operations
    VectorizationOptimization,
    /// Inlining of small dependent functions
    DependentInlining,
}

/// Specialization tiers for dependent types, in ascending order.
#[derive(Debug, Clone, Copy, PartialEq, Eq, PartialOrd, Ord, Structural)]
pub enum SpecializationTier {
    /// Basic optimization without specialization
    BasicOptimization,
    /// Type-only specialization
    TypeSpecialization,
    /// Proof elimination specialization
    ProofSpecialization,
    /// Full dependent type specialization
    FullSpecialization,
}

/// The compilation tier a specialization tier is compiled at.
pub open spec fn specialization_compilation_tier(t: SpecializationTier) -> CompilationTier {
    match t {
        SpecializationTier::BasicOptimization => CompilationTier::Bytecode,
        SpecializationTier::TypeSpecialization => CompilationTier::JitBasic,
        SpecializationTier::ProofSpecialization => CompilationTier::JitOptimized,
        SpecializationTier::FullSpecialization => CompilationTier::JitOptimized,
    }
}

impl SpecializationTier {
    /// The compilation tier this specialization is compiled at: basic
    /// optimization as bytecode, type specialization with the basic JIT, and
    /// proof or full specialization with the optimizing JIT.
    pub fn to_compilation_tier(&self) -> (t: CompilationTier)
        ensures
            t == specialization_compilation_tier(*self),
    {
        match self {
            SpecializationTier::BasicOptimization => CompilationTier::Bytecode,
            SpecializationTier::TypeSpecialization => CompilationTier::JitBasic,
            SpecializationTier::ProofSpecialization => CompilationTier::JitOptimized,
            SpecializationTier::FullSpecialization => CompilationTier::JitOptimized,
        }
    }
}

/// A more thorough specialization never compiles at a lower tier.
pub proof fn lemma_specialization_tier_monotone(a: SpecializationTier, b: SpecializationTier)
    ensures
        spec_tier_rank(a) <= spec_tier_rank(b) ==> crate::jit::compilation_tiers::tier_level(
            specialization_compilation_tier(a),
        ) <= crate::jit::compilation_tiers::tier_level(specialization_compilation_tier(b)),
{
}

/// Position of a specialization tier in ascending order.
pub open spec fn spec_tier_rank(t: SpecializationTier) -> nat {
    match t {
        SpecializationTier::BasicOptimization => 0,
        SpecializationTier::TypeSpecialization => 1,
        SpecializationTier::ProofSpecialization => 2,
        SpecializationTier::FullSpecialization => 3,
    }
}

/// A memory access observed during execution.
#[derive(Debug, Clone, Copy, PartialEq, Eq, Structural)]
pub struct MemoryAccess {
    pub address: usize,
    pub size: usize,
    pub pattern: MemoryAccessPattern,
    pub access_time: Duration,
}

/// Patterns of memory access.
#[derive(Debug, Clone, Copy, PartialEq, Eq, Structural)]
pub enum MemoryAccessPattern {
    Sequential,
    Random,
    CacheFriendly,
}

/// Analysis engine for dependent types.
#[derive(Debug, Clone, Copy)]
pub struct DependentTypeAnalyzer {}

impl DependentTypeAnalyzer {
    /// A new analyzer.
    pub fn new() -> (r: Result<Self, LambdustError>)
        ensures
            r is Ok,
    {
        Ok(DependentTypeAnalyzer {})
    }
}

} // verus!
