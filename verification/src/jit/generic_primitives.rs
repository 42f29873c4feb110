//! Generic primitives: the primitive operations the JIT knows, their
//! configuration and their performance characteristics.
use vstd::prelude::*;
use crate::jit::jit_primitives::{reqs, R7RSSemanticRequirements};

verus! {

/// Unified generic primitive using enum dispatch.
#[derive(Debug, Clone, Copy, PartialEq, Eq)]
pub enum UnifiedGenericPrimitive {
    Arithmetic(ArithmeticPrimitive),
    Comparison(ComparisonPrimitive),
    List(ListPrimitive),
    TypePredicate(TypePredicatePrimitive),
}

/// Compile-time primitive configuration.
#[derive(Debug, Clone, Copy, PartialEq, Eq, Structural)]
pub struct PrimitiveConfig {
    /// Minimum arity (number of arguments)
    pub arity_min: usize,
    /// Maximum arity (None for variadic functions)
    pub arity_max: Option<usize>,
    /// Whether this primitive is commutative
    pub is_commutative: bool,
    /// Whether this primitive is associative
    pub is_associative: bool,
    /// Whether this primitive has side effects
    pub has_side_effects: bool,
    /// Whether this primitive can be constant-folded
    pub constant_foldable: bool,
}

/// Type pattern for specialization matching.
#[derive(Debug, Clone, PartialEq, Eq)]
pub enum TypePattern {
    /// Exact type match
    Exact(String),
    /// Any numeric type
    Numeric,
    /// Any type (no specialization)
    Any,
    /// Union of specific types
    Union(Vec<String>),
}

/// Performance profile with detailed characteristics.
#[derive(Debug, Clone, Copy, PartialEq, Eq, Structural)]
pub struct PrimitivePerformanceProfile {
    /// Average execution time in nanoseconds
    pub avg_execution_ns: u64,
    /// Memory allocation behavior
    pub memory_profile: MemoryProfile,
    /// CPU cache behavior
    pub cache_behavior: CacheBehavior,
    /// Whether operation can be parallelized
    pub parallelizable: bool,
    /// Branch prediction characteristics
    pub branch_predictability: BranchPredictability,
}

/// Memory allocation patterns.
#[derive(Debug, Clone, Copy, PartialEq, Eq, Structural)]
pub enum MemoryProfile {
    /// No heap allocation
    NoAllocation,
    /// Small fixed allocation
    SmallFixed(usize),
    /// Large fixed allocation
    LargeFixed(usize),
    /// Variable allocation based on input
    Variable,
    /// Stack-only allocation
    StackOnly,
}

/// CPU cache behavior characteristics.
#[derive(Debug, Clone, Copy, PartialEq, Eq, Structural)]
pub enum CacheBehavior {
    Excellent,
    Good,
    Fair,
    Poor,
}

/// Branch prediction characteristics.
#[derive(Debug, Clone, Copy, PartialEq, Eq, Structural)]
pub enum BranchPredictability {
    HighlyPredictable,
    ModeratelyPredictable,
    Unpredictable,
}

/// Arithmetic primitive.
#[derive(Debug, Clone, Copy, PartialEq, Eq)]
pub struct ArithmeticPrimitive {
    pub name: &'static str,
    pub operation: ArithmeticOperation,
}

/// Arithmetic operation variants.
#[derive(Debug, Clone, Copy, PartialEq, Eq, Structural)]
pub enum ArithmeticOperation {
    Add,
    Subtract,
    Multiply,
    Divide,
    Modulo,
    Abs,
    Min,
    Max,
}

/// Comparison primitive.
#[derive(Debug, Clone, Copy, PartialEq, Eq)]
pub struct ComparisonPrimitive {
    pub name: &'static str,
    pub operation: ComparisonOperation,
}

/// Comparison operation variants.
#[derive(Debug, Clone, Copy, PartialEq, Eq, Structural)]
pub enum ComparisonOperation {
    Equal,
    Less,
    Greater,
    LessEqual,
    GreaterEqual,
    NumEqual,
}

/// List primitive.
#[derive(Debug, Clone, Copy, PartialEq, Eq)]
pub struct ListPrimitive {
    pub name: &'static str,
    pub operation: ListOperation,
}

/// List operation variants.
#[derive(Debug, Clone, Copy, PartialEq, Eq, Structural)]
pub enum ListOperation {
    Car,
    Cdr,
    Cons,
    List,
    Length,
    Append,
    Reverse,
}

/// Type predicate primitive.
#[derive(Debug, Clone, Copy, PartialEq, Eq)]
pub struct TypePredicatePrimitive {
    pub name: &'static str,
    pub operation: TypePredicateOperation,
}

/// Type predicate operation variants.
#[derive(Debug, Clone, Copy, PartialEq, Eq, Structural)]
pub enum TypePredicateOperation {
    IsNumber,
    IsString,
    IsSymbol,
    IsList,
    IsPair,
    IsNull,
    IsBoolean,
    IsProcedure,
}

/// The configuration every primitive is registered with: variadic from zero
/// arguments, commutative, associative, pure and foldable.
pub open spec fn shared_config() -> PrimitiveConfig {
    PrimitiveConfig {
        arity_min: 0,
        arity_max: None,
        is_commutative: true,
        is_associative: true,
        has_side_effects: false,
        constant_foldable: true,
    }
}

/// Performance profile of a primitive category.
pub open spec fn category_profile(c: PrimitiveCategory) -> PrimitivePerformanceProfile {
    match c {
        PrimitiveCategory::Arithmetic => PrimitivePerformanceProfile {
            avg_execution_ns: 25,
            memory_profile: MemoryProfile::NoAllocation,
            cache_behavior: CacheBehavior::Excellent,
            parallelizable: true,
            branch_predictability: BranchPredictability::HighlyPredictable,
        },
        PrimitiveCategory::Comparison => PrimitivePerformanceProfile {
            avg_execution_ns: 15,
            memory_profile: MemoryProfile::NoAllocation,
            cache_behavior: CacheBehavior::Excellent,
            parallelizable: true,
            branch_predictability: BranchPredictability::ModeratelyPredictable,
        },
        PrimitiveCategory::List => PrimitivePerformanceProfile {
            avg_execution_ns: 80,
            memory_profile: MemoryProfile::SmallFixed(16),
            cache_behavior: CacheBehavior::Good,
            parallelizable: false,
            branch_predictability: BranchPredictability::ModeratelyPredictable,
        },
        PrimitiveCategory::TypePredicate => PrimitivePerformanceProfile {
            avg_execution_ns: 5,
            memory_profile: MemoryProfile::NoAllocation,
            cache_behavior: CacheBehavior::Excellent,
            parallelizable: true,
            branch_predictability: BranchPredictability::HighlyPredictable,
        },
    }
}

impl UnifiedGenericPrimitive {
    /// The primitive's registered name. Every primitive is registered under
    /// the metadata of `+`, so the name is `+` for all of them.
    pub fn name(&self) -> (s: &'static str)
        ensures
            s@ == "+"@,
    {
        "+"
    }

    /// The primitive's configuration; all primitives share that of `+`.
    pub fn config(&self) -> (c: PrimitiveConfig)
        ensures
            c == shared_config(),
    {
        PrimitiveConfig {
            arity_min: 0,
            arity_max: None,
            is_commutative: true,
            is_associative: true,
            has_side_effects: false,
            constant_foldable: true,
        }
    }

    /// The primitive's performance profile; all primitives share that of `+`,
    /// which is the arithmetic one.
    pub fn performance_profile(&self) -> (p: PrimitivePerformanceProfile)
        ensures
            p == category_profile(PrimitiveCategory::Arithmetic),
    {
        PrimitiveCategory::Arithmetic.default_performance_profile()
    }
}

/// Primitive category enumeration for efficient dispatch.
#[derive(Debug, Clone, Copy, PartialEq, Eq, Hash, Structural)]
pub enum PrimitiveCategory {
    Arithmetic,
    Comparison,
    List,
    TypePredicate,
}

/// Name of a category.
pub open spec fn category_name(c: PrimitiveCategory) -> Seq<char> {
    match c {
        PrimitiveCategory::Arithmetic => "arithmetic"@,
        PrimitiveCategory::Comparison => "comparison"@,
        PrimitiveCategory::List => "list"@,
        PrimitiveCategory::TypePredicate => "type_predicate"@,
    }
}

impl PrimitiveCategory {
    /// Category name for debugging and metrics.
    pub fn name(self) -> (s: &'static str)
        ensures
            s@ == category_name(self),
    {
        match self {
            PrimitiveCategory::Arithmetic => "arithmetic",
            PrimitiveCategory::Comparison => "comparison",
            PrimitiveCategory::List => "list",
            PrimitiveCategory::TypePredicate => "type_predicate",
        }
    }

    /// Default R7RS requirements for this category: exact arithmetic and the
    /// number tower for arithmetic, those and boolean semantics for
    /// comparisons, tail calls for lists, boolean semantics for predicates.
    pub fn default_semantic_requirements(self) -> (r: R7RSSemanticRequirements)
        ensures
            r == match self {
                PrimitiveCategory::Arithmetic => reqs(true, true, false, false, false, false, false),
                PrimitiveCategory::Comparison => reqs(true, true, false, true, false, false, false),
                PrimitiveCategory::List => reqs(false, false, false, false, true, false, false),
                PrimitiveCategory::TypePredicate => reqs(false, false, false, true, false, false, false),
            },
    {
        match self {
            PrimitiveCategory::Arithmetic => R7RSSemanticRequirements::with(true, true, false, false, false, false, false),
            PrimitiveCategory::Comparison => R7RSSemanticRequirements::with(true, true, false, true, false, false, false),
            PrimitiveCategory::List => R7RSSemanticRequirements::with(false, false, false, false, true, false, false),
            PrimitiveCategory::TypePredicate => R7RSSemanticRequirements::with(false, false, false, true, false, false, false),
        }
    }

    /// Default performance profile for this category.
    pub fn default_performance_profile(self) -> (p: PrimitivePerformanceProfile)
        ensures
            p == category_profile(self),
    {
        match self {
            PrimitiveCategory::Arithmetic => PrimitivePerformanceProfile {
                avg_execution_ns: 25,
                memory_profile: MemoryProfile::NoAllocation,
                cache_behavior: CacheBehavior::Excellent,
                parallelizable: true,
                branch_predictability: BranchPredictability::HighlyPredictable,
            },
            PrimitiveCategory::Comparison => PrimitivePerformanceProfile {
                avg_execution_ns: 15,
                memory_profile: MemoryProfile::NoAllocation,
                cache_behavior: CacheBehavior::Excellent,
                parallelizable: true,
                branch_predictability: BranchPredictability::ModeratelyPredictable,
            },
            PrimitiveCategory::List => PrimitivePerformanceProfile {
                avg_execution_ns: 80,
                memory_profile: MemoryProfile::SmallFixed(16),
                cache_behavior: CacheBehavior::Good,
                parallelizable: false,
                branch_predictability: BranchPredictability::ModeratelyPredictable,
            },
            PrimitiveCategory::TypePredicate => PrimitivePerformanceProfile {
                avg_execution_ns: 5,
                memory_profile: MemoryProfile::NoAllocation,
                cache_behavior: CacheBehavior::Excellent,
                parallelizable: true,
                branch_predictability: BranchPredictability::HighlyPredictable,
            },
        }
    }
}

} // verus!
