//! JIT-aware descriptions of the 42 core primitives: their arity, the R7RS
//! semantics they must keep, how the JIT compiles them, their type
//! specializations and performance profile, and the registry that holds them.
use vstd::prelude::*;
use crate::error::LambdustError;
use crate::value::Value;
use crate::text::{decimal_text, push_decimal};
use crate::jit::compilation_tiers::CompilationTier;
use crate::formal_verification::core_types::same_text;

verus! {

/// Performance profile for a primitive.
#[derive(Debug, Clone, PartialEq, Eq)]
pub struct PrimitivePerformanceProfile {
    /// Average execution time in nanoseconds
    pub avg_execution_ns: u64,
    /// Memory allocation characteristics
    pub memory_profile: MemoryProfile,
    /// Cache behavior
    pub cache_behavior: CacheBehavior,
    /// Parallelization potential
    pub parallelizable: bool,
}

/// Memory allocation profile.
#[derive(Debug, Clone, PartialEq, Eq)]
pub enum MemoryProfile {
    /// No memory allocation
    NoAllocation,
    /// Constant allocation
    ConstantAllocation { bytes: usize },
    /// Linear allocation based on input size
    LinearAllocation { bytes_per_element: usize },
    /// Complex allocation pattern
    ComplexAllocation { description: String },
}

/// Cache behavior characteristics.
#[derive(Debug, Clone, Copy, PartialEq, Eq, Structural)]
pub enum CacheBehavior {
    Excellent,
    Good,
    Fair,
    Poor,
}


/// The R7RS semantics a primitive must keep.
#[derive(Debug, Clone, Copy, PartialEq, Eq, Structural)]
pub struct R7RSSemanticRequirements {
    pub requires_exact_arithmetic: bool,
    pub requires_number_tower: bool,
    pub requires_r7rs_errors: bool,
    pub requires_boolean_semantics: bool,
    pub requires_tail_calls: bool,
    pub requires_continuations: bool,
    pub requires_symbol_identity: bool,
}

/// Requirements with the given flags set.
pub open spec fn reqs(
    exact: bool,
    tower: bool,
    errors: bool,
    boolean: bool,
    tail: bool,
    continuations: bool,
    symbol: bool,
) -> R7RSSemanticRequirements {
    R7RSSemanticRequirements {
        requires_exact_arithmetic: exact,
        requires_number_tower: tower,
        requires_r7rs_errors: errors,
        requires_boolean_semantics: boolean,
        requires_tail_calls: tail,
        requires_continuations: continuations,
        requires_symbol_identity: symbol,
    }
}

impl R7RSSemanticRequirements {
    /// Requirements with the given flags set.
    pub fn with(
        exact: bool,
        tower: bool,
        errors: bool,
        boolean: bool,
        tail: bool,
        continuations: bool,
        symbol: bool,
    ) -> (r: Self)
        ensures
            r == reqs(exact, tower, errors, boolean, tail, continuations, symbol),
    {
        R7RSSemanticRequirements {
            requires_exact_arithmetic: exact,
            requires_number_tower: tower,
            requires_r7rs_errors: errors,
            requires_boolean_semantics: boolean,
            requires_tail_calls: tail,
            requires_continuations: continuations,
            requires_symbol_identity: symbol,
        }
    }

    /// No requirement set.
    pub fn default() -> (r: Self)
        ensures
            r == reqs(false, false, false, false, false, false, false),
    {
        Self::with(false, false, false, false, false, false, false)
    }
}

/// The implementation a primitive runs when interpreted.
#[derive(Debug, Clone, Copy, PartialEq, Eq, Structural)]
pub enum PrimitiveKind {
    Add, Subtract, Multiply, Divide, Quotient, Remainder, Modulo, Abs, Gcd, Lcm, Floor, Ceiling,
    NumEq, Less, Greater, LessEq, GreaterEq, Max,
    Cons, Car, Cdr, NullP, PairP, List, Length, Append,
    NumberP, StringP, SymbolP, BooleanP, ProcedureP, VectorP,
    EqP, EqvP, EqualP, Not,
    Apply, CallCC, Values,
    Display, Newline, Read,
}

/// Custom code generators.
#[derive(Debug, Clone, Copy, PartialEq, Eq, Structural)]
pub enum CodeGenerator {
    Apply,
    CallCC,
}

/// How the JIT compiles a primitive.
#[derive(Debug, Clone, Copy, PartialEq, Eq, Structural)]
pub enum JitCompilationStrategy {
    /// Inline directly into generated code
    Inline { complexity_cost: u32, benefits_from_inlining: bool },
    /// Call as specialized native function
    SpecializedCall { min_beneficial_tier: CompilationTier, multi_specializable: bool },
    /// Call interpreter fallback
    InterpreterFallback,
    /// Custom JIT generation
    Custom { generator: CodeGenerator },
}

/// A type specialization of a primitive; the benefit factor is in thousandths.
#[derive(Debug, Clone)]
pub struct TypeSpecialization {
    pub input_types: Vec<String>,
    pub output_type: String,
    pub benefit_factor_milli: u32,
    pub compilation_cost: u32,
}

/// A type specialization as its input type names, output type name, benefit
/// (in thousandths) and compilation cost.
pub type SpecializationView = (Seq<Seq<char>>, Seq<char>, u32, u32);

/// A memory profile as its kind (none, constant, linear, complex), its byte
/// count and its description.
pub type MemoryView = (u8, usize, Seq<char>);

/// A performance profile as its average time, memory, cache behaviour and
/// whether it parallelizes.
pub type ProfileView = (u64, MemoryView, CacheBehavior, bool);

/// A primitive as its name, arity bounds, requirements, implementation,
/// strategy, specializations and performance profile.
pub type PrimitiveView = (
    Seq<char>,
    usize,
    Option<usize>,
    R7RSSemanticRequirements,
    PrimitiveKind,
    JitCompilationStrategy,
    Seq<SpecializationView>,
    ProfileView,
);

pub open spec fn texts_of(v: Vec<String>) -> Seq<Seq<char>> {
    v@.map_values(|s: String| s@)
}

pub open spec fn specialization_view(t: TypeSpecialization) -> SpecializationView {
    (texts_of(t.input_types), t.output_type@, t.benefit_factor_milli, t.compilation_cost)
}

pub open spec fn memory_view(m: MemoryProfile) -> MemoryView {
    match m {
        MemoryProfile::NoAllocation => (0u8, 0usize, Seq::empty()),
        MemoryProfile::ConstantAllocation { bytes } => (1u8, bytes, Seq::empty()),
        MemoryProfile::LinearAllocation { bytes_per_element } => (2u8, bytes_per_element, Seq::empty()),
        MemoryProfile::ComplexAllocation { description } => (3u8, 0usize, description@),
    }
}

pub open spec fn profile_view(p: PrimitivePerformanceProfile) -> ProfileView {
    (p.avg_execution_ns, memory_view(p.memory_profile), p.cache_behavior, p.parallelizable)
}

/// JIT-aware primitive.
#[derive(Debug, Clone)]
pub struct JitPrimitive {
    pub name: String,
    pub arity_min: usize,
    /// Maximum arity (None for variadic)
    pub arity_max: Option<usize>,
    pub semantic_requirements: R7RSSemanticRequirements,
    /// The implementation run when interpreted
    pub kind: PrimitiveKind,
    pub jit_strategy: JitCompilationStrategy,
    pub type_specializations: Vec<TypeSpecialization>,
    pub performance_profile: PrimitivePerformanceProfile,
}

impl View for JitPrimitive {
    type V = PrimitiveView;

    open spec fn view(&self) -> PrimitiveView {
        (
            self.name@,
            self.arity_min,
            self.arity_max,
            self.semantic_requirements,
            self.kind,
            self.jit_strategy,
            self.type_specializations@.map_values(|t: TypeSpecialization| specialization_view(t)),
            profile_view(self.performance_profile),
        )
    }
}

/// The first primitive in `s` named `n`.
pub open spec fn find_view(s: Seq<PrimitiveView>, n: Seq<char>) -> Option<PrimitiveView>
    decreases s.len(),
{
    if s.len() == 0 {
        None
    } else if s[0].0 == n {
        Some(s[0])
    } else {
        find_view(s.drop_first(), n)
    }
}

/// No two primitives share a name.
pub open spec fn names_unique(s: Seq<PrimitiveView>) -> bool {
    forall|i: int, j: int| 0 <= i < s.len() && 0 <= j < s.len() && i != j ==> #[trigger] s[i].0 != #[trigger] s[j].0
}

/// The last primitive in `s` named `n`: the one a registration in order leaves.
pub open spec fn find_last_view(s: Seq<PrimitiveView>, n: Seq<char>) -> Option<PrimitiveView>
    decreases s.len(),
{
    if s.len() == 0 {
        None
    } else if s.last().0 == n {
        Some(s.last())
    } else {
        find_last_view(s.drop_last(), n)
    }
}

/// `entries` registered in order over `previous`: a name of `entries` gives
/// the last entry of that name, any other name what `previous` gives.
pub open spec fn overlay(entries: Seq<PrimitiveView>, previous: Option<PrimitiveView>, n: Seq<char>) -> Option<PrimitiveView> {
    match find_last_view(entries, n) {
        Some(v) => Some(v),
        None => previous,
    }
}

/// Finding the last entry in a concatenation looks in the second part first.
pub proof fn lemma_find_last_view_concat(a: Seq<PrimitiveView>, b: Seq<PrimitiveView>, n: Seq<char>)
    ensures
        find_last_view(a + b, n) == match find_last_view(b, n) {
            Some(v) => Some(v),
            None => find_last_view(a, n),
        },
    decreases b.len(),
{
    if b.len() == 0 {
        assert(a + b =~= a);
    } else {
        assert((a + b).drop_last() =~= a + b.drop_last());
        assert((a + b).last() == b.last());
        lemma_find_last_view_concat(a, b.drop_last(), n);
    }
}

proof fn lemma_find_view_none(s: Seq<PrimitiveView>, n: Seq<char>)
    ensures
        find_view(s, n) is None <==> forall|k: int| 0 <= k < s.len() ==> #[trigger] s[k].0 != n,
        find_view(s, n) matches Some(v) ==> v.0 == n && s.contains(v),
    decreases s.len(),
{
    if s.len() > 0 {
        let t = s.drop_first();
        lemma_find_view_none(t, n);
        assert forall|k: int| 0 <= k < t.len() implies t[k] == s[k + 1] by {}
        if find_view(s, n) is None {
            assert forall|k: int| 0 <= k < s.len() implies #[trigger] s[k].0 != n by {
                if k > 0 {
                    assert(t[k - 1] == s[k]);
                }
            }
        }
        if forall|k: int| 0 <= k < s.len() ==> #[trigger] s[k].0 != n {
            assert(s[0].0 != n);
            assert forall|k: int| 0 <= k < t.len() implies #[trigger] t[k].0 != n by {
                assert(t[k] == s[k + 1]);
            }
        }
        if let Some(v) = find_view(s.drop_first(), n) {
            let k = choose|k: int| 0 <= k < s.drop_first().len() && s.drop_first()[k] == v;
            assert(s[k + 1] == v);
        }
    }
}

proof fn lemma_find_view_push(s: Seq<PrimitiveView>, x: PrimitiveView, n: Seq<char>)
    ensures
        find_view(s.push(x), n) == match find_view(s, n) {
            Some(v) => Some(v),
            None => if x.0 == n { Some(x) } else { None },
        },
    decreases s.len(),
{
    if s.len() == 0 {
        let e = Seq::<PrimitiveView>::empty();
        assert(s.push(x).drop_first() =~= e);
        assert(s.push(x)[0] == x);
        assert(find_view(e, n) is None);
        assert(find_view(s, n) is None);
        if x.0 != n {
            assert(find_view(s.push(x), n) == find_view(s.push(x).drop_first(), n));
        }
    } else {
        assert(s.push(x).drop_first() =~= s.drop_first().push(x));
        assert(s.push(x)[0] == s[0]);
        lemma_find_view_push(s.drop_first(), x, n);
    }
}

proof fn lemma_find_view_unique(s: Seq<PrimitiveView>, i: int)
    requires
        names_unique(s),
        0 <= i < s.len(),
    ensures
        find_view(s, s[i].0) == Some(s[i]),
    decreases s.len(),
{
    if i > 0 {
        let t = s.drop_first();
        assert(names_unique(t)) by {
            assert forall|a: int, b: int| 0 <= a < t.len() && 0 <= b < t.len() && a != b implies #[trigger] t[a].0 != #[trigger] t[b].0 by {
                assert(t[a] == s[a + 1] && t[b] == s[b + 1]);
            }
        }
        assert(t[i - 1] == s[i]);
        assert(s[0].0 != s[i].0);
        lemma_find_view_unique(t, i - 1);
    }
}

proof fn lemma_find_view_update(s: Seq<PrimitiveView>, i: int, x: PrimitiveView, n: Seq<char>)
    requires
        names_unique(s),
        0 <= i < s.len(),
        x.0 == s[i].0,
    ensures
        find_view(s.update(i, x), n) == if n == x.0 { Some(x) } else { find_view(s, n) },
    decreases s.len(),
{
    if i == 0 {
        if n != x.0 {
            assert(s.update(i, x).drop_first() =~= s.drop_first());
        }
    } else {
        let t = s.drop_first();
        assert(names_unique(t)) by {
            assert forall|a: int, b: int| 0 <= a < t.len() && 0 <= b < t.len() && a != b implies #[trigger] t[a].0 != #[trigger] t[b].0 by {
                assert(t[a] == s[a + 1] && t[b] == s[b + 1]);
            }
        }
        assert(s.update(i, x).drop_first() =~= t.update(i - 1, x));
        assert(s[0].0 != s[i].0);
        lemma_find_view_update(t, i - 1, x, n);
    }
}


/// A primitive view from its parts.
pub open spec fn pv(
    name: Seq<char>,
    arity_min: usize,
    arity_max: Option<usize>,
    requirements: R7RSSemanticRequirements,
    kind: PrimitiveKind,
    strategy: JitCompilationStrategy,
    specializations: Seq<SpecializationView>,
    avg_execution_ns: u64,
    memory: MemoryView,
    cache: CacheBehavior,
    parallelizable: bool,
) -> PrimitiveView {
    (name, arity_min, arity_max, requirements, kind, strategy, specializations,
        (avg_execution_ns, memory, cache, parallelizable))
}

pub open spec fn specialization_views(v: Vec<TypeSpecialization>) -> Seq<SpecializationView> {
    v@.map_values(|t: TypeSpecialization| specialization_view(t))
}

pub open spec fn primitive_views(v: Vec<JitPrimitive>) -> Seq<PrimitiveView> {
    v@.map_values(|p: JitPrimitive| p@)
}

fn specialization1(a: &str, out: &str, milli: u32, cost: u32) -> (t: TypeSpecialization)
    ensures
        specialization_view(t) == (seq![a@], out@, milli, cost),
{
    let inputs = vec![String::from_str(a)];
    assert(texts_of(inputs) =~= seq![a@]);
    TypeSpecialization { input_types: inputs, output_type: String::from_str(out), benefit_factor_milli: milli, compilation_cost: cost }
}

fn specialization2(a: &str, b: &str, out: &str, milli: u32, cost: u32) -> (t: TypeSpecialization)
    ensures
        specialization_view(t) == (seq![a@, b@], out@, milli, cost),
{
    let inputs = vec![String::from_str(a), String::from_str(b)];
    assert(texts_of(inputs) =~= seq![a@, b@]);
    TypeSpecialization { input_types: inputs, output_type: String::from_str(out), benefit_factor_milli: milli, compilation_cost: cost }
}

fn no_specializations() -> (v: Vec<TypeSpecialization>)
    ensures
        specialization_views(v) == Seq::<SpecializationView>::empty(),
{
    let v: Vec<TypeSpecialization> = Vec::new();
    assert(specialization_views(v) =~= Seq::<SpecializationView>::empty());
    v
}

fn specializations1(t: TypeSpecialization) -> (v: Vec<TypeSpecialization>)
    ensures
        specialization_views(v) == seq![specialization_view(t)],
{
    let ghost tv = specialization_view(t);
    let v = vec![t];
    assert(specialization_views(v) =~= seq![tv]);
    v
}

fn specializations2(t: TypeSpecialization, u: TypeSpecialization) -> (v: Vec<TypeSpecialization>)
    ensures
        specialization_views(v) == seq![specialization_view(t), specialization_view(u)],
{
    let ghost tv = specialization_view(t);
    let ghost uv = specialization_view(u);
    let v = vec![t, u];
    assert(specialization_views(v) =~= seq![tv, uv]);
    v
}

fn make_primitive(
    name: &str,
    arity_min: usize,
    arity_max: Option<usize>,
    requirements: R7RSSemanticRequirements,
    kind: PrimitiveKind,
    strategy: JitCompilationStrategy,
    specializations: Vec<TypeSpecialization>,
    avg_execution_ns: u64,
    memory: MemoryProfile,
    cache: CacheBehavior,
    parallelizable: bool,
) -> (p: JitPrimitive)
    ensures
        p@ == pv(name@, arity_min, arity_max, requirements, kind, strategy, specialization_views(specializations),
            avg_execution_ns, memory_view(memory), cache, parallelizable),
{
    JitPrimitive {
        name: String::from_str(name),
        arity_min,
        arity_max,
        semantic_requirements: requirements,
        kind,
        jit_strategy: strategy,
        type_specializations: specializations,
        performance_profile: PrimitivePerformanceProfile {
            avg_execution_ns,
            memory_profile: memory,
            cache_behavior: cache,
            parallelizable,
        },
    }
}

fn push_primitive(ps: &mut Vec<JitPrimitive>, p: JitPrimitive)
    ensures
        primitive_views(*final(ps)) == primitive_views(*old(ps)).push(p@),
{
    let ghost pv = p@;
    ps.push(p);
    assert(primitive_views(*ps) =~= primitive_views(*old(ps)).push(pv));
}

/// The arithmetic primitives, in registration order.
pub open spec fn arithmetic_entries() -> Seq<PrimitiveView> {
    seq![
        pv("+"@, 0usize, None, reqs(true, true, false, false, false, false, false), PrimitiveKind::Add, JitCompilationStrategy::Inline { complexity_cost: 10u32, benefits_from_inlining: true }, seq![(seq!["integer"@, "integer"@], "integer"@, 2000u32, 5u32), (seq!["real"@, "real"@], "real"@, 1500u32, 8u32)], 50u64, (0u8, 0usize, Seq::<char>::empty()), CacheBehavior::Excellent, true),
        pv("-"@, 1usize, None, reqs(true, true, false, false, false, false, false), PrimitiveKind::Subtract, JitCompilationStrategy::Inline { complexity_cost: 10u32, benefits_from_inlining: true }, seq![(seq!["integer"@], "integer"@, 2000u32, 5u32)], 50u64, (0u8, 0usize, Seq::<char>::empty()), CacheBehavior::Excellent, false),
        pv("*"@, 0usize, None, reqs(true, true, false, false, false, false, false), PrimitiveKind::Multiply, JitCompilationStrategy::Inline { complexity_cost: 15u32, benefits_from_inlining: true }, seq![(seq!["integer"@, "integer"@], "integer"@, 2500u32, 8u32)], 75u64, (0u8, 0usize, Seq::<char>::empty()), CacheBehavior::Excellent, true),
        pv("/"@, 1usize, None, reqs(true, true, true, false, false, false, false), PrimitiveKind::Divide, JitCompilationStrategy::SpecializedCall { min_beneficial_tier: CompilationTier::JitBasic, multi_specializable: true }, seq![(seq!["integer"@, "integer"@], "rational"@, 3000u32, 20u32)], 200u64, (1u8, 32usize, Seq::<char>::empty()), CacheBehavior::Good, false),
        pv("quotient"@, 2usize, Some(2usize), reqs(true, true, false, false, false, false, false), PrimitiveKind::Quotient, JitCompilationStrategy::SpecializedCall { min_beneficial_tier: CompilationTier::JitBasic, multi_specializable: false }, Seq::<SpecializationView>::empty(), 100u64, (0u8, 0usize, Seq::<char>::empty()), CacheBehavior::Good, false),
        pv("remainder"@, 2usize, Some(2usize), reqs(true, true, false, false, false, false, false), PrimitiveKind::Remainder, JitCompilationStrategy::SpecializedCall { min_beneficial_tier: CompilationTier::JitBasic, multi_specializable: false }, Seq::<SpecializationView>::empty(), 100u64, (0u8, 0usize, Seq::<char>::empty()), CacheBehavior::Good, false),
        pv("modulo"@, 2usize, Some(2usize), reqs(true, true, false, false, false, false, false), PrimitiveKind::Modulo, JitCompilationStrategy::SpecializedCall { min_beneficial_tier: CompilationTier::JitBasic, multi_specializable: false }, Seq::<SpecializationView>::empty(), 100u64, (0u8, 0usize, Seq::<char>::empty()), CacheBehavior::Good, false),
        pv("abs"@, 1usize, Some(2usize), reqs(true, true, false, false, false, false, false), PrimitiveKind::Abs, JitCompilationStrategy::SpecializedCall { min_beneficial_tier: CompilationTier::JitBasic, multi_specializable: false }, Seq::<SpecializationView>::empty(), 100u64, (0u8, 0usize, Seq::<char>::empty()), CacheBehavior::Good, false),
        pv("gcd"@, 2usize, Some(2usize), reqs(true, true, false, false, false, false, false), PrimitiveKind::Gcd, JitCompilationStrategy::SpecializedCall { min_beneficial_tier: CompilationTier::JitBasic, multi_specializable: false }, Seq::<SpecializationView>::empty(), 100u64, (0u8, 0usize, Seq::<char>::empty()), CacheBehavior::Good, false),
        pv("lcm"@, 2usize, Some(2usize), reqs(true, true, false, false, false, false, false), PrimitiveKind::Lcm, JitCompilationStrategy::SpecializedCall { min_beneficial_tier: CompilationTier::JitBasic, multi_specializable: false }, Seq::<SpecializationView>::empty(), 100u64, (0u8, 0usize, Seq::<char>::empty()), CacheBehavior::Good, false),
        pv("floor"@, 1usize, Some(2usize), reqs(true, true, false, false, false, false, false), PrimitiveKind::Floor, JitCompilationStrategy::SpecializedCall { min_beneficial_tier: CompilationTier::JitBasic, multi_specializable: false }, Seq::<SpecializationView>::empty(), 100u64, (0u8, 0usize, Seq::<char>::empty()), CacheBehavior::Good, false),
        pv("ceiling"@, 1usize, Some(2usize), reqs(true, true, false, false, false, false, false), PrimitiveKind::Ceiling, JitCompilationStrategy::SpecializedCall { min_beneficial_tier: CompilationTier::JitBasic, multi_specializable: false }, Seq::<SpecializationView>::empty(), 100u64, (0u8, 0usize, Seq::<char>::empty()), CacheBehavior::Good, false)
    ]
}

/// The comparison primitives, in registration order.
pub open spec fn comparison_entries() -> Seq<PrimitiveView> {
    seq![
        pv("="@, 2usize, None, reqs(true, true, false, true, false, false, false), PrimitiveKind::NumEq, JitCompilationStrategy::Inline { complexity_cost: 8u32, benefits_from_inlining: true }, seq![(seq!["integer"@, "integer"@], "boolean"@, 3000u32, 5u32)], 30u64, (0u8, 0usize, Seq::<char>::empty()), CacheBehavior::Excellent, true),
        pv("<"@, 2usize, None, reqs(true, true, false, true, false, false, false), PrimitiveKind::Less, JitCompilationStrategy::Inline { complexity_cost: 8u32, benefits_from_inlining: true }, seq![(seq!["integer"@, "integer"@], "boolean"@, 3000u32, 5u32)], 30u64, (0u8, 0usize, Seq::<char>::empty()), CacheBehavior::Excellent, true),
        pv(">"@, 2usize, None, reqs(true, true, false, true, false, false, false), PrimitiveKind::Greater, JitCompilationStrategy::Inline { complexity_cost: 8u32, benefits_from_inlining: true }, seq![(seq!["integer"@, "integer"@], "boolean"@, 3000u32, 5u32)], 30u64, (0u8, 0usize, Seq::<char>::empty()), CacheBehavior::Excellent, true),
        pv("<="@, 2usize, None, reqs(true, true, false, true, false, false, false), PrimitiveKind::LessEq, JitCompilationStrategy::Inline { complexity_cost: 8u32, benefits_from_inlining: true }, seq![(seq!["integer"@, "integer"@], "boolean"@, 3000u32, 5u32)], 30u64, (0u8, 0usize, Seq::<char>::empty()), CacheBehavior::Excellent, true),
        pv(">="@, 2usize, None, reqs(true, true, false, true, false, false, false), PrimitiveKind::GreaterEq, JitCompilationStrategy::Inline { complexity_cost: 8u32, benefits_from_inlining: true }, seq![(seq!["integer"@, "integer"@], "boolean"@, 3000u32, 5u32)], 30u64, (0u8, 0usize, Seq::<char>::empty()), CacheBehavior::Excellent, true),
        pv("max"@, 1usize, None, reqs(true, true, false, true, false, false, false), PrimitiveKind::Max, JitCompilationStrategy::Inline { complexity_cost: 8u32, benefits_from_inlining: true }, seq![(seq!["integer"@, "integer"@], "boolean"@, 3000u32, 5u32)], 30u64, (0u8, 0usize, Seq::<char>::empty()), CacheBehavior::Excellent, true)
    ]
}

/// The list primitives, in registration order.
pub open spec fn list_entries() -> Seq<PrimitiveView> {
    seq![
        pv("cons"@, 2usize, Some(2usize), reqs(false, false, false, false, false, false, false), PrimitiveKind::Cons, JitCompilationStrategy::SpecializedCall { min_beneficial_tier: CompilationTier::JitBasic, multi_specializable: false }, Seq::<SpecializationView>::empty(), 100u64, (1u8, 16usize, Seq::<char>::empty()), CacheBehavior::Good, false),
        pv("car"@, 1usize, Some(1usize), reqs(false, false, true, false, false, false, false), PrimitiveKind::Car, JitCompilationStrategy::Inline { complexity_cost: 5u32, benefits_from_inlining: true }, Seq::<SpecializationView>::empty(), 20u64, (0u8, 0usize, Seq::<char>::empty()), CacheBehavior::Excellent, true),
        pv("cdr"@, 1usize, Some(1usize), reqs(false, false, true, false, false, false, false), PrimitiveKind::Cdr, JitCompilationStrategy::Inline { complexity_cost: 5u32, benefits_from_inlining: true }, Seq::<SpecializationView>::empty(), 20u64, (0u8, 0usize, Seq::<char>::empty()), CacheBehavior::Excellent, true),
        pv("null?"@, 1usize, Some(1usize), reqs(false, false, false, true, false, false, false), PrimitiveKind::NullP, JitCompilationStrategy::Inline { complexity_cost: 10u32, benefits_from_inlining: true }, Seq::<SpecializationView>::empty(), 50u64, (0u8, 0usize, Seq::<char>::empty()), CacheBehavior::Good, false),
        pv("pair?"@, 1usize, Some(1usize), reqs(false, false, false, true, false, false, false), PrimitiveKind::PairP, JitCompilationStrategy::Inline { complexity_cost: 10u32, benefits_from_inlining: true }, Seq::<SpecializationView>::empty(), 50u64, (0u8, 0usize, Seq::<char>::empty()), CacheBehavior::Good, false),
        pv("list"@, 0usize, None, reqs(false, false, false, false, false, false, false), PrimitiveKind::List, JitCompilationStrategy::Inline { complexity_cost: 10u32, benefits_from_inlining: true }, Seq::<SpecializationView>::empty(), 50u64, (2u8, 16usize, Seq::<char>::empty()), CacheBehavior::Good, false),
        pv("length"@, 1usize, Some(1usize), reqs(false, false, false, false, true, false, false), PrimitiveKind::Length, JitCompilationStrategy::SpecializedCall { min_beneficial_tier: CompilationTier::JitOptimized, multi_specializable: true }, Seq::<SpecializationView>::empty(), 500u64, (0u8, 0usize, Seq::<char>::empty()), CacheBehavior::Fair, false),
        pv("append"@, 0usize, None, reqs(false, false, false, false, true, false, false), PrimitiveKind::Append, JitCompilationStrategy::SpecializedCall { min_beneficial_tier: CompilationTier::JitOptimized, multi_specializable: true }, Seq::<SpecializationView>::empty(), 500u64, (2u8, 16usize, Seq::<char>::empty()), CacheBehavior::Fair, false)
    ]
}

/// The type predicate primitives, in registration order.
pub open spec fn type_predicate_entries() -> Seq<PrimitiveView> {
    seq![
        pv("number?"@, 1usize, Some(1usize), reqs(false, false, false, true, false, false, false), PrimitiveKind::NumberP, JitCompilationStrategy::Inline { complexity_cost: 3u32, benefits_from_inlining: true }, seq![(seq!["any"@], "boolean"@, 4000u32, 2u32)], 15u64, (0u8, 0usize, Seq::<char>::empty()), CacheBehavior::Excellent, true),
        pv("string?"@, 1usize, Some(1usize), reqs(false, false, false, true, false, false, false), PrimitiveKind::StringP, JitCompilationStrategy::Inline { complexity_cost: 3u32, benefits_from_inlining: true }, seq![(seq!["any"@], "boolean"@, 4000u32, 2u32)], 15u64, (0u8, 0usize, Seq::<char>::empty()), CacheBehavior::Excellent, true),
        pv("symbol?"@, 1usize, Some(1usize), reqs(false, false, false, true, false, false, false), PrimitiveKind::SymbolP, JitCompilationStrategy::Inline { complexity_cost: 3u32, benefits_from_inlining: true }, seq![(seq!["any"@], "boolean"@, 4000u32, 2u32)], 15u64, (0u8, 0usize, Seq::<char>::empty()), CacheBehavior::Excellent, true),
        pv("boolean?"@, 1usize, Some(1usize), reqs(false, false, false, true, false, false, false), PrimitiveKind::BooleanP, JitCompilationStrategy::Inline { complexity_cost: 3u32, benefits_from_inlining: true }, seq![(seq!["any"@], "boolean"@, 4000u32, 2u32)], 15u64, (0u8, 0usize, Seq::<char>::empty()), CacheBehavior::Excellent, true),
        pv("procedure?"@, 1usize, Some(1usize), reqs(false, false, false, true, false, false, false), PrimitiveKind::ProcedureP, JitCompilationStrategy::Inline { complexity_cost: 3u32, benefits_from_inlining: true }, seq![(seq!["any"@], "boolean"@, 4000u32, 2u32)], 15u64, (0u8, 0usize, Seq::<char>::empty()), CacheBehavior::Excellent, true),
        pv("vector?"@, 1usize, Some(1usize), reqs(false, false, false, true, false, false, false), PrimitiveKind::VectorP, JitCompilationStrategy::Inline { complexity_cost: 3u32, benefits_from_inlining: true }, seq![(seq!["any"@], "boolean"@, 4000u32, 2u32)], 15u64, (0u8, 0usize, Seq::<char>::empty()), CacheBehavior::Excellent, true)
    ]
}

/// The equality primitives, in registration order.
pub open spec fn equality_entries() -> Seq<PrimitiveView> {
    seq![
        pv("eq?"@, 2usize, Some(2usize), reqs(false, false, false, true, false, false, true), PrimitiveKind::EqP, JitCompilationStrategy::Inline { complexity_cost: 5u32, benefits_from_inlining: true }, Seq::<SpecializationView>::empty(), 25u64, (0u8, 0usize, Seq::<char>::empty()), CacheBehavior::Good, true),
        pv("eqv?"@, 2usize, Some(2usize), reqs(false, false, false, true, false, false, true), PrimitiveKind::EqvP, JitCompilationStrategy::Inline { complexity_cost: 5u32, benefits_from_inlining: true }, Seq::<SpecializationView>::empty(), 25u64, (0u8, 0usize, Seq::<char>::empty()), CacheBehavior::Good, true),
        pv("equal?"@, 2usize, Some(2usize), reqs(false, false, false, true, false, false, true), PrimitiveKind::EqualP, JitCompilationStrategy::Inline { complexity_cost: 20u32, benefits_from_inlining: true }, Seq::<SpecializationView>::empty(), 200u64, (0u8, 0usize, Seq::<char>::empty()), CacheBehavior::Good, false),
        pv("not"@, 1usize, Some(1usize), reqs(false, false, false, true, false, false, false), PrimitiveKind::Not, JitCompilationStrategy::Inline { complexity_cost: 5u32, benefits_from_inlining: true }, Seq::<SpecializationView>::empty(), 25u64, (0u8, 0usize, Seq::<char>::empty()), CacheBehavior::Good, true)
    ]
}

/// The control flow primitives, in registration order.
pub open spec fn control_flow_entries() -> Seq<PrimitiveView> {
    seq![
        pv("apply"@, 2usize, None, reqs(false, false, false, false, true, true, false), PrimitiveKind::Apply, JitCompilationStrategy::Custom { generator: CodeGenerator::Apply }, Seq::<SpecializationView>::empty(), 500u64, (2u8, 8usize, Seq::<char>::empty()), CacheBehavior::Fair, false),
        pv("call/cc"@, 1usize, Some(1usize), reqs(false, false, false, false, true, true, false), PrimitiveKind::CallCC, JitCompilationStrategy::Custom { generator: CodeGenerator::CallCC }, Seq::<SpecializationView>::empty(), 2000u64, (3u8, 0usize, "Stack capture and continuation object"@), CacheBehavior::Poor, false),
        pv("values"@, 0usize, None, reqs(false, false, false, false, false, false, false), PrimitiveKind::Values, JitCompilationStrategy::Inline { complexity_cost: 10u32, benefits_from_inlining: true }, Seq::<SpecializationView>::empty(), 50u64, (2u8, 8usize, Seq::<char>::empty()), CacheBehavior::Good, false)
    ]
}

/// The io primitives, in registration order.
pub open spec fn io_entries() -> Seq<PrimitiveView> {
    seq![
        pv("display"@, 1usize, Some(2usize), reqs(false, false, true, false, false, false, false), PrimitiveKind::Display, JitCompilationStrategy::InterpreterFallback, Seq::<SpecializationView>::empty(), 10000u64, (1u8, 64usize, Seq::<char>::empty()), CacheBehavior::Poor, false),
        pv("newline"@, 0usize, Some(1usize), reqs(false, false, true, false, false, false, false), PrimitiveKind::Newline, JitCompilationStrategy::InterpreterFallback, Seq::<SpecializationView>::empty(), 10000u64, (1u8, 64usize, Seq::<char>::empty()), CacheBehavior::Poor, false),
        pv("read"@, 1usize, Some(2usize), reqs(false, false, true, false, false, false, false), PrimitiveKind::Read, JitCompilationStrategy::InterpreterFallback, Seq::<SpecializationView>::empty(), 10000u64, (1u8, 64usize, Seq::<char>::empty()), CacheBehavior::Poor, false)
    ]
}

/// All 42 core primitives, in registration order.
pub open spec fn core_entries() -> Seq<PrimitiveView> {
    arithmetic_entries() + comparison_entries() + list_entries() + type_predicate_entries()
        + equality_entries() + control_flow_entries() + io_entries()
}

/// The core primitive registered under `n`: the last of that name.
pub open spec fn core_primitive_table(n: Seq<char>) -> Option<PrimitiveView> {
    find_last_view(core_entries(), n)
}

/// Registry of the JIT-aware primitives, one per name.
pub struct JitPrimitiveRegistry {
    primitives: Vec<JitPrimitive>,
}

impl JitPrimitiveRegistry {
    /// The registered primitives, in registration order.
    pub closed spec fn views(&self) -> Seq<PrimitiveView> {
        self.primitives@.map_values(|p: JitPrimitive| p@)
    }

    /// The primitive registered under `n`.
    pub open spec fn lookup(&self, n: Seq<char>) -> Option<PrimitiveView> {
        find_view(self.views(), n)
    }

    /// No name is registered twice.
    pub open spec fn wf(&self) -> bool {
        names_unique(self.views())
    }

    fn find(&self, name: &String) -> (r: Option<usize>)
        ensures
            match r {
                Some(i) => i < self.views().len() && self.views()[i as int].0 == name@,
                None => forall|k: int| 0 <= k < self.views().len() ==> #[trigger] self.views()[k].0 != name@,
            },
    {
        let mut i: usize = 0;
        while i < self.primitives.len()
            invariant
                i <= self.primitives@.len(),
                forall|k: int| 0 <= k < i ==> #[trigger] self.views()[k].0 != name@,
            decreases self.primitives@.len() - i,
        {
            if self.primitives[i].name == *name {
                return Some(i);
            }
            i = i + 1;
        }
        None
    }

    /// Registers `p` under its name, replacing a primitive of that name.
    fn insert(&mut self, p: JitPrimitive)
        requires
            old(self).wf(),
        ensures
            final(self).wf(),
            forall|n: Seq<char>| #[trigger] final(self).lookup(n)
                == if n == p@.0 { Some(p@) } else { old(self).lookup(n) },
    {
        let ghost pv = p@;
        let ghost old_v = self.views();
        match self.find(&p.name) {
            Some(i) => {
                self.primitives.set(i, p);
                proof {
                    assert(self.views() =~= old_v.update(i as int, pv));
                    assert forall|n: Seq<char>| #[trigger] self.lookup(n) == if n == pv.0 { Some(pv) } else { old(self).lookup(n) } by {
                        lemma_find_view_update(old_v, i as int, pv, n);
                    }
                    assert forall|a: int, b: int| 0 <= a < self.views().len() && 0 <= b < self.views().len() && a != b
                        implies #[trigger] self.views()[a].0 != #[trigger] self.views()[b].0 by {
                        assert(self.views()[a].0 == old_v[a].0);
                        assert(self.views()[b].0 == old_v[b].0);
                    }
                }
            },
            None => {
                self.primitives.push(p);
                proof {
                    assert(self.views() =~= old_v.push(pv));
                    lemma_find_view_none(old_v, pv.0);
                    assert forall|n: Seq<char>| #[trigger] self.lookup(n) == if n == pv.0 { Some(pv) } else { old(self).lookup(n) } by {
                        lemma_find_view_push(old_v, pv, n);
                        lemma_find_view_none(old_v, n);
                    }
                    let m = old_v.len() as int;
                    assert forall|a: int, b: int| 0 <= a < self.views().len() && 0 <= b < self.views().len() && a != b
                        implies #[trigger] self.views()[a].0 != #[trigger] self.views()[b].0 by {
                        if a < m { assert(self.views()[a] == old_v[a]); }
                        if b < m { assert(self.views()[b] == old_v[b]); }
                    }
                }
            },
        }
    }

    /// Registers each primitive of `ps` in turn, later ones replacing
    /// earlier ones of the same name.
    fn insert_all(&mut self, ps: Vec<JitPrimitive>)
        requires
            old(self).wf(),
        ensures
            final(self).wf(),
            forall|n: Seq<char>| #[trigger] final(self).lookup(n)
                == overlay(ps@.map_values(|p: JitPrimitive| p@), old(self).lookup(n), n),
    {
        let ghost all = ps@.map_values(|p: JitPrimitive| p@);
        let mut i: usize = 0;
        let total = ps.len();
        let mut rest = ps;
        proof {
            assert forall|k: int| 0 <= k < rest@.len() implies #[trigger] rest@[k]@ == all[i + k] by {}
            assert(all.take(0) =~= Seq::<PrimitiveView>::empty());
            assert forall|n: Seq<char>| #[trigger] self.lookup(n) == overlay(all.take(0), old(self).lookup(n), n) by {}
        }
        while rest.len() > 0
            invariant
                self.wf(),
                i + rest@.len() == total,
                total == all.len(),
                forall|k: int| 0 <= k < rest@.len() ==> #[trigger] rest@[k]@ == all[i + k],
                forall|n: Seq<char>| #[trigger] self.lookup(n) == overlay(all.take(i as int), old(self).lookup(n), n),
            decreases rest@.len(),
        {
            let ghost old_rest = rest@;
            let p = rest.remove(0);
            let ghost pv = p@;
            assert(pv == all[i as int]);
            let ghost before = *self;
            self.insert(p);
            proof {
                let t = all.take(i as int);
                assert(all.take(i + 1) =~= t.push(pv));
                assert(t.push(pv).drop_last() =~= t);
                assert forall|n: Seq<char>| #[trigger] self.lookup(n) == overlay(all.take(i + 1), old(self).lookup(n), n) by {
                    assert(before.lookup(n) == overlay(t, old(self).lookup(n), n));
                }
                assert forall|k: int| 0 <= k < rest@.len() implies #[trigger] rest@[k]@ == all[i + 1 + k] by {
                    assert(rest@[k] == old_rest[k + 1]);
                }
            }
            i = i + 1;
        }
        proof {
            assert(all.take(i as int) =~= all);
        }
    }

    /// Registers the arithmetic primitives; see `arithmetic_entries`.
    fn register_arithmetic_primitives(&mut self) -> (r: Result<(), LambdustError>)
        requires
            old(self).wf(),
        ensures
            r is Ok,
            final(self).wf(),
            forall|n: Seq<char>| #[trigger] final(self).lookup(n) == overlay(arithmetic_entries(), old(self).lookup(n), n),
    {
        let mut ps: Vec<JitPrimitive> = Vec::new();
        push_primitive(&mut ps, make_primitive("+", 0, None, R7RSSemanticRequirements::with(true, true, false, false, false, false, false), PrimitiveKind::Add, JitCompilationStrategy::Inline { complexity_cost: 10, benefits_from_inlining: true }, specializations2(specialization2("integer", "integer", "integer", 2000, 5), specialization2("real", "real", "real", 1500, 8)), 50, MemoryProfile::NoAllocation, CacheBehavior::Excellent, true));
        push_primitive(&mut ps, make_primitive("-", 1, None, R7RSSemanticRequirements::with(true, true, false, false, false, false, false), PrimitiveKind::Subtract, JitCompilationStrategy::Inline { complexity_cost: 10, benefits_from_inlining: true }, specializations1(specialization1("integer", "integer", 2000, 5)), 50, MemoryProfile::NoAllocation, CacheBehavior::Excellent, false));
        push_primitive(&mut ps, make_primitive("*", 0, None, R7RSSemanticRequirements::with(true, true, false, false, false, false, false), PrimitiveKind::Multiply, JitCompilationStrategy::Inline { complexity_cost: 15, benefits_from_inlining: true }, specializations1(specialization2("integer", "integer", "integer", 2500, 8)), 75, MemoryProfile::NoAllocation, CacheBehavior::Excellent, true));
        push_primitive(&mut ps, make_primitive("/", 1, None, R7RSSemanticRequirements::with(true, true, true, false, false, false, false), PrimitiveKind::Divide, JitCompilationStrategy::SpecializedCall { min_beneficial_tier: CompilationTier::JitBasic, multi_specializable: true }, specializations1(specialization2("integer", "integer", "rational", 3000, 20)), 200, MemoryProfile::ConstantAllocation { bytes: 32 }, CacheBehavior::Good, false));
        push_primitive(&mut ps, make_primitive("quotient", 2, Some(2), R7RSSemanticRequirements::with(true, true, false, false, false, false, false), PrimitiveKind::Quotient, JitCompilationStrategy::SpecializedCall { min_beneficial_tier: CompilationTier::JitBasic, multi_specializable: false }, no_specializations(), 100, MemoryProfile::NoAllocation, CacheBehavior::Good, false));
        push_primitive(&mut ps, make_primitive("remainder", 2, Some(2), R7RSSemanticRequirements::with(true, true, false, false, false, false, false), PrimitiveKind::Remainder, JitCompilationStrategy::SpecializedCall { min_beneficial_tier: CompilationTier::JitBasic, multi_specializable: false }, no_specializations(), 100, MemoryProfile::NoAllocation, CacheBehavior::Good, false));
        push_primitive(&mut ps, make_primitive("modulo", 2, Some(2), R7RSSemanticRequirements::with(true, true, false, false, false, false, false), PrimitiveKind::Modulo, JitCompilationStrategy::SpecializedCall { min_beneficial_tier: CompilationTier::JitBasic, multi_specializable: false }, no_specializations(), 100, MemoryProfile::NoAllocation, CacheBehavior::Good, false));
        push_primitive(&mut ps, make_primitive("abs", 1, Some(2), R7RSSemanticRequirements::with(true, true, false, false, false, false, false), PrimitiveKind::Abs, JitCompilationStrategy::SpecializedCall { min_beneficial_tier: CompilationTier::JitBasic, multi_specializable: false }, no_specializations(), 100, MemoryProfile::NoAllocation, CacheBehavior::Good, false));
        push_primitive(&mut ps, make_primitive("gcd", 2, Some(2), R7RSSemanticRequirements::with(true, true, false, false, false, false, false), PrimitiveKind::Gcd, JitCompilationStrategy::SpecializedCall { min_beneficial_tier: CompilationTier::JitBasic, multi_specializable: false }, no_specializations(), 100, MemoryProfile::NoAllocation, CacheBehavior::Good, false));
        push_primitive(&mut ps, make_primitive("lcm", 2, Some(2), R7RSSemanticRequirements::with(true, true, false, false, false, false, false), PrimitiveKind::Lcm, JitCompilationStrategy::SpecializedCall { min_beneficial_tier: CompilationTier::JitBasic, multi_specializable: false }, no_specializations(), 100, MemoryProfile::NoAllocation, CacheBehavior::Good, false));
        push_primitive(&mut ps, make_primitive("floor", 1, Some(2), R7RSSemanticRequirements::with(true, true, false, false, false, false, false), PrimitiveKind::Floor, JitCompilationStrategy::SpecializedCall { min_beneficial_tier: CompilationTier::JitBasic, multi_specializable: false }, no_specializations(), 100, MemoryProfile::NoAllocation, CacheBehavior::Good, false));
        push_primitive(&mut ps, make_primitive("ceiling", 1, Some(2), R7RSSemanticRequirements::with(true, true, false, false, false, false, false), PrimitiveKind::Ceiling, JitCompilationStrategy::SpecializedCall { min_beneficial_tier: CompilationTier::JitBasic, multi_specializable: false }, no_specializations(), 100, MemoryProfile::NoAllocation, CacheBehavior::Good, false));
        assert(primitive_views(ps) =~= arithmetic_entries());
        self.insert_all(ps);
        Ok(())
    }

    /// Registers the comparison primitives; see `comparison_entries`.
    fn register_comparison_primitives(&mut self) -> (r: Result<(), LambdustError>)
        requires
            old(self).wf(),
        ensures
            r is Ok,
            final(self).wf(),
            forall|n: Seq<char>| #[trigger] final(self).lookup(n) == overlay(comparison_entries(), old(self).lookup(n), n),
    {
        let mut ps: Vec<JitPrimitive> = Vec::new();
        push_primitive(&mut ps, make_primitive("=", 2, None, R7RSSemanticRequirements::with(true, true, false, true, false, false, false), PrimitiveKind::NumEq, JitCompilationStrategy::Inline { complexity_cost: 8, benefits_from_inlining: true }, specializations1(specialization2("integer", "integer", "boolean", 3000, 5)), 30, MemoryProfile::NoAllocation, CacheBehavior::Excellent, true));
        push_primitive(&mut ps, make_primitive("<", 2, None, R7RSSemanticRequirements::with(true, true, false, true, false, false, false), PrimitiveKind::Less, JitCompilationStrategy::Inline { complexity_cost: 8, benefits_from_inlining: true }, specializations1(specialization2("integer", "integer", "boolean", 3000, 5)), 30, MemoryProfile::NoAllocation, CacheBehavior::Excellent, true));
        push_primitive(&mut ps, make_primitive(">", 2, None, R7RSSemanticRequirements::with(true, true, false, true, false, false, false), PrimitiveKind::Greater, JitCompilationStrategy::Inline { complexity_cost: 8, benefits_from_inlining: true }, specializations1(specialization2("integer", "integer", "boolean", 3000, 5)), 30, MemoryProfile::NoAllocation, CacheBehavior::Excellent, true));
        push_primitive(&mut ps, make_primitive("<=", 2, None, R7RSSemanticRequirements::with(true, true, false, true, false, false, false), PrimitiveKind::LessEq, JitCompilationStrategy::Inline { complexity_cost: 8, benefits_from_inlining: true }, specializations1(specialization2("integer", "integer", "boolean", 3000, 5)), 30, MemoryProfile::NoAllocation, CacheBehavior::Excellent, true));
        push_primitive(&mut ps, make_primitive(">=", 2, None, R7RSSemanticRequirements::with(true, true, false, true, false, false, false), PrimitiveKind::GreaterEq, JitCompilationStrategy::Inline { complexity_cost: 8, benefits_from_inlining: true }, specializations1(specialization2("integer", "integer", "boolean", 3000, 5)), 30, MemoryProfile::NoAllocation, CacheBehavior::Excellent, true));
        push_primitive(&mut ps, make_primitive("max", 1, None, R7RSSemanticRequirements::with(true, true, false, true, false, false, false), PrimitiveKind::Max, JitCompilationStrategy::Inline { complexity_cost: 8, benefits_from_inlining: true }, specializations1(specialization2("integer", "integer", "boolean", 3000, 5)), 30, MemoryProfile::NoAllocation, CacheBehavior::Excellent, true));
        assert(primitive_views(ps) =~= comparison_entries());
        self.insert_all(ps);
        Ok(())
    }

    /// Registers the list primitives; see `list_entries`.
    fn register_list_primitives(&mut self) -> (r: Result<(), LambdustError>)
        requires
            old(self).wf(),
        ensures
            r is Ok,
            final(self).wf(),
            forall|n: Seq<char>| #[trigger] final(self).lookup(n) == overlay(list_entries(), old(self).lookup(n), n),
    {
        let mut ps: Vec<JitPrimitive> = Vec::new();
        push_primitive(&mut ps, make_primitive("cons", 2, Some(2), R7RSSemanticRequirements::with(false, false, false, false, false, false, false), PrimitiveKind::Cons, JitCompilationStrategy::SpecializedCall { min_beneficial_tier: CompilationTier::JitBasic, multi_specializable: false }, no_specializations(), 100, MemoryProfile::ConstantAllocation { bytes: 16 }, CacheBehavior::Good, false));
        push_primitive(&mut ps, make_primitive("car", 1, Some(1), R7RSSemanticRequirements::with(false, false, true, false, false, false, false), PrimitiveKind::Car, JitCompilationStrategy::Inline { complexity_cost: 5, benefits_from_inlining: true }, no_specializations(), 20, MemoryProfile::NoAllocation, CacheBehavior::Excellent, true));
        push_primitive(&mut ps, make_primitive("cdr", 1, Some(1), R7RSSemanticRequirements::with(false, false, true, false, false, false, false), PrimitiveKind::Cdr, JitCompilationStrategy::Inline { complexity_cost: 5, benefits_from_inlining: true }, no_specializations(), 20, MemoryProfile::NoAllocation, CacheBehavior::Excellent, true));
        push_primitive(&mut ps, make_primitive("null?", 1, Some(1), R7RSSemanticRequirements::with(false, false, false, true, false, false, false), PrimitiveKind::NullP, JitCompilationStrategy::Inline { complexity_cost: 10, benefits_from_inlining: true }, no_specializations(), 50, MemoryProfile::NoAllocation, CacheBehavior::Good, false));
        push_primitive(&mut ps, make_primitive("pair?", 1, Some(1), R7RSSemanticRequirements::with(false, false, false, true, false, false, false), PrimitiveKind::PairP, JitCompilationStrategy::Inline { complexity_cost: 10, benefits_from_inlining: true }, no_specializations(), 50, MemoryProfile::NoAllocation, CacheBehavior::Good, false));
        push_primitive(&mut ps, make_primitive("list", 0, None, R7RSSemanticRequirements::with(false, false, false, false, false, false, false), PrimitiveKind::List, JitCompilationStrategy::Inline { complexity_cost: 10, benefits_from_inlining: true }, no_specializations(), 50, MemoryProfile::LinearAllocation { bytes_per_element: 16 }, CacheBehavior::Good, false));
        push_primitive(&mut ps, make_primitive("length", 1, Some(1), R7RSSemanticRequirements::with(false, false, false, false, true, false, false), PrimitiveKind::Length, JitCompilationStrategy::SpecializedCall { min_beneficial_tier: CompilationTier::JitOptimized, multi_specializable: true }, no_specializations(), 500, MemoryProfile::NoAllocation, CacheBehavior::Fair, false));
        push_primitive(&mut ps, make_primitive("append", 0, None, R7RSSemanticRequirements::with(false, false, false, false, true, false, false), PrimitiveKind::Append, JitCompilationStrategy::SpecializedCall { min_beneficial_tier: CompilationTier::JitOptimized, multi_specializable: true }, no_specializations(), 500, MemoryProfile::LinearAllocation { bytes_per_element: 16 }, CacheBehavior::Fair, false));
        assert(primitive_views(ps) =~= list_entries());
        self.insert_all(ps);
        Ok(())
    }

    /// Registers the type predicate primitives; see `type_predicate_entries`.
    fn register_type_predicate_primitives(&mut self) -> (r: Result<(), LambdustError>)
        requires
            old(self).wf(),
        ensures
            r is Ok,
            final(self).wf(),
            forall|n: Seq<char>| #[trigger] final(self).lookup(n) == overlay(type_predicate_entries(), old(self).lookup(n), n),
    {
        let mut ps: Vec<JitPrimitive> = Vec::new();
        push_primitive(&mut ps, make_primitive("number?", 1, Some(1), R7RSSemanticRequirements::with(false, false, false, true, false, false, false), PrimitiveKind::NumberP, JitCompilationStrategy::Inline { complexity_cost: 3, benefits_from_inlining: true }, specializations1(specialization1("any", "boolean", 4000, 2)), 15, MemoryProfile::NoAllocation, CacheBehavior::Excellent, true));
        push_primitive(&mut ps, make_primitive("string?", 1, Some(1), R7RSSemanticRequirements::with(false, false, false, true, false, false, false), PrimitiveKind::StringP, JitCompilationStrategy::Inline { complexity_cost: 3, benefits_from_inlining: true }, specializations1(specialization1("any", "boolean", 4000, 2)), 15, MemoryProfile::NoAllocation, CacheBehavior::Excellent, true));
        push_primitive(&mut ps, make_primitive("symbol?", 1, Some(1), R7RSSemanticRequirements::with(false, false, false, true, false, false, false), PrimitiveKind::SymbolP, JitCompilationStrategy::Inline { complexity_cost: 3, benefits_from_inlining: true }, specializations1(specialization1("any", "boolean", 4000, 2)), 15, MemoryProfile::NoAllocation, CacheBehavior::Excellent, true));
        push_primitive(&mut ps, make_primitive("boolean?", 1, Some(1), R7RSSemanticRequirements::with(false, false, false, true, false, false, false), PrimitiveKind::BooleanP, JitCompilationStrategy::Inline { complexity_cost: 3, benefits_from_inlining: true }, specializations1(specialization1("any", "boolean", 4000, 2)), 15, MemoryProfile::NoAllocation, CacheBehavior::Excellent, true));
        push_primitive(&mut ps, make_primitive("procedure?", 1, Some(1), R7RSSemanticRequirements::with(false, false, false, true, false, false, false), PrimitiveKind::ProcedureP, JitCompilationStrategy::Inline { complexity_cost: 3, benefits_from_inlining: true }, specializations1(specialization1("any", "boolean", 4000, 2)), 15, MemoryProfile::NoAllocation, CacheBehavior::Excellent, true));
        push_primitive(&mut ps, make_primitive("vector?", 1, Some(1), R7RSSemanticRequirements::with(false, false, false, true, false, false, false), PrimitiveKind::VectorP, JitCompilationStrategy::Inline { complexity_cost: 3, benefits_from_inlining: true }, specializations1(specialization1("any", "boolean", 4000, 2)), 15, MemoryProfile::NoAllocation, CacheBehavior::Excellent, true));
        assert(primitive_views(ps) =~= type_predicate_entries());
        self.insert_all(ps);
        Ok(())
    }

    /// Registers the equality primitives; see `equality_entries`.
    fn register_equality_primitives(&mut self) -> (r: Result<(), LambdustError>)
        requires
            old(self).wf(),
        ensures
            r is Ok,
            final(self).wf(),
            forall|n: Seq<char>| #[trigger] final(self).lookup(n) == overlay(equality_entries(), old(self).lookup(n), n),
    {
        let mut ps: Vec<JitPrimitive> = Vec::new();
        push_primitive(&mut ps, make_primitive("eq?", 2, Some(2), R7RSSemanticRequirements::with(false, false, false, true, false, false, true), PrimitiveKind::EqP, JitCompilationStrategy::Inline { complexity_cost: 5, benefits_from_inlining: true }, no_specializations(), 25, MemoryProfile::NoAllocation, CacheBehavior::Good, true));
        push_primitive(&mut ps, make_primitive("eqv?", 2, Some(2), R7RSSemanticRequirements::with(false, false, false, true, false, false, true), PrimitiveKind::EqvP, JitCompilationStrategy::Inline { complexity_cost: 5, benefits_from_inlining: true }, no_specializations(), 25, MemoryProfile::NoAllocation, CacheBehavior::Good, true));
        push_primitive(&mut ps, make_primitive("equal?", 2, Some(2), R7RSSemanticRequirements::with(false, false, false, true, false, false, true), PrimitiveKind::EqualP, JitCompilationStrategy::Inline { complexity_cost: 20, benefits_from_inlining: true }, no_specializations(), 200, MemoryProfile::NoAllocation, CacheBehavior::Good, false));
        push_primitive(&mut ps, make_primitive("not", 1, Some(1), R7RSSemanticRequirements::with(false, false, false, true, false, false, false), PrimitiveKind::Not, JitCompilationStrategy::Inline { complexity_cost: 5, benefits_from_inlining: true }, no_specializations(), 25, MemoryProfile::NoAllocation, CacheBehavior::Good, true));
        assert(primitive_views(ps) =~= equality_entries());
        self.insert_all(ps);
        Ok(())
    }

    /// Registers the control flow primitives; see `control_flow_entries`.
    fn register_control_flow_primitives(&mut self) -> (r: Result<(), LambdustError>)
        requires
            old(self).wf(),
        ensures
            r is Ok,
            final(self).wf(),
            forall|n: Seq<char>| #[trigger] final(self).lookup(n) == overlay(control_flow_entries(), old(self).lookup(n), n),
    {
        let mut ps: Vec<JitPrimitive> = Vec::new();
        push_primitive(&mut ps, make_primitive("apply", 2, None, R7RSSemanticRequirements::with(false, false, false, false, true, true, false), PrimitiveKind::Apply, JitCompilationStrategy::Custom { generator: CodeGenerator::Apply }, no_specializations(), 500, MemoryProfile::LinearAllocation { bytes_per_element: 8 }, CacheBehavior::Fair, false));
        push_primitive(&mut ps, make_primitive("call/cc", 1, Some(1), R7RSSemanticRequirements::with(false, false, false, false, true, true, false), PrimitiveKind::CallCC, JitCompilationStrategy::Custom { generator: CodeGenerator::CallCC }, no_specializations(), 2000, MemoryProfile::ComplexAllocation { description: String::from_str("Stack capture and continuation object") }, CacheBehavior::Poor, false));
        push_primitive(&mut ps, make_primitive("values", 0, None, R7RSSemanticRequirements::with(false, false, false, false, false, false, false), PrimitiveKind::Values, JitCompilationStrategy::Inline { complexity_cost: 10, benefits_from_inlining: true }, no_specializations(), 50, MemoryProfile::LinearAllocation { bytes_per_element: 8 }, CacheBehavior::Good, false));
        assert(primitive_views(ps) =~= control_flow_entries());
        self.insert_all(ps);
        Ok(())
    }

    /// Registers the io primitives; see `io_entries`.
    fn register_io_primitives(&mut self) -> (r: Result<(), LambdustError>)
        requires
            old(self).wf(),
        ensures
            r is Ok,
            final(self).wf(),
            forall|n: Seq<char>| #[trigger] final(self).lookup(n) == overlay(io_entries(), old(self).lookup(n), n),
    {
        let mut ps: Vec<JitPrimitive> = Vec::new();
        push_primitive(&mut ps, make_primitive("display", 1, Some(2), R7RSSemanticRequirements::with(false, false, true, false, false, false, false), PrimitiveKind::Display, JitCompilationStrategy::InterpreterFallback, no_specializations(), 10000, MemoryProfile::ConstantAllocation { bytes: 64 }, CacheBehavior::Poor, false));
        push_primitive(&mut ps, make_primitive("newline", 0, Some(1), R7RSSemanticRequirements::with(false, false, true, false, false, false, false), PrimitiveKind::Newline, JitCompilationStrategy::InterpreterFallback, no_specializations(), 10000, MemoryProfile::ConstantAllocation { bytes: 64 }, CacheBehavior::Poor, false));
        push_primitive(&mut ps, make_primitive("read", 1, Some(2), R7RSSemanticRequirements::with(false, false, true, false, false, false, false), PrimitiveKind::Read, JitCompilationStrategy::InterpreterFallback, no_specializations(), 10000, MemoryProfile::ConstantAllocation { bytes: 64 }, CacheBehavior::Poor, false));
        assert(primitive_views(ps) =~= io_entries());
        self.insert_all(ps);
        Ok(())
    }

    /// Registers the 42 core primitives, group by group: arithmetic,
    /// comparison, list, type predicate, equality, control flow and I/O.
    fn register_core_primitives(&mut self) -> (r: Result<(), LambdustError>)
        requires
            old(self).wf(),
        ensures
            r is Ok,
            final(self).wf(),
            forall|n: Seq<char>| #[trigger] final(self).lookup(n) == overlay(core_entries(), old(self).lookup(n), n),
    {
        let ghost s0 = *self;
        let _ = self.register_arithmetic_primitives();
        let ghost s1 = *self;
        let _ = self.register_comparison_primitives();
        let ghost s2 = *self;
        let _ = self.register_list_primitives();
        let ghost s3 = *self;
        let _ = self.register_type_predicate_primitives();
        let ghost s4 = *self;
        let _ = self.register_equality_primitives();
        let ghost s5 = *self;
        let _ = self.register_control_flow_primitives();
        let ghost s6 = *self;
        let _ = self.register_io_primitives();
        proof {
            let g1 = arithmetic_entries();
            let g2 = g1 + comparison_entries();
            let g3 = g2 + list_entries();
            let g4 = g3 + type_predicate_entries();
            let g5 = g4 + equality_entries();
            let g6 = g5 + control_flow_entries();
            let g7 = g6 + io_entries();
            assert forall|n: Seq<char>| #[trigger] self.lookup(n) == overlay(core_entries(), s0.lookup(n), n) by {
                assert(s1.lookup(n) == overlay(g1, s0.lookup(n), n));
                lemma_find_last_view_concat(g1, comparison_entries(), n);
                assert(s2.lookup(n) == overlay(g2, s0.lookup(n), n));
                lemma_find_last_view_concat(g2, list_entries(), n);
                assert(s3.lookup(n) == overlay(g3, s0.lookup(n), n));
                lemma_find_last_view_concat(g3, type_predicate_entries(), n);
                assert(s4.lookup(n) == overlay(g4, s0.lookup(n), n));
                lemma_find_last_view_concat(g4, equality_entries(), n);
                assert(s5.lookup(n) == overlay(g5, s0.lookup(n), n));
                lemma_find_last_view_concat(g5, control_flow_entries(), n);
                assert(s6.lookup(n) == overlay(g6, s0.lookup(n), n));
                lemma_find_last_view_concat(g6, io_entries(), n);
                assert(self.lookup(n) == overlay(g7, s0.lookup(n), n));
            }
        }
        Ok(())
    }

    /// A registry holding the 42 core primitives; see `core_primitive_table`.
    pub fn new() -> (r: Result<Self, LambdustError>)
        ensures
            r matches Ok(reg) && reg.wf() && forall|n: Seq<char>| #[trigger] reg.lookup(n) == core_primitive_table(n),
    {
        let mut registry = JitPrimitiveRegistry { primitives: Vec::new() };
        proof {
            assert(registry.views() =~= Seq::<PrimitiveView>::empty());
        }
        match registry.register_core_primitives() {
            Ok(()) => {},
            Err(e) => {
                return Err(e);
            },
        }
        Ok(registry)
    }

    /// The primitive registered under `name`.
    pub fn get_primitive(&self, name: &str) -> (r: Option<&JitPrimitive>)
        requires
            self.wf(),
        ensures
            match r {
                Some(p) => self.lookup(name@) == Some(p@),
                None => self.lookup(name@) is None,
            },
    {
        let mut i: usize = 0;
        while i < self.primitives.len()
            invariant
                self.wf(),
                i <= self.primitives@.len(),
                forall|k: int| 0 <= k < i ==> #[trigger] self.views()[k].0 != name@,
            decreases self.primitives@.len() - i,
        {
            if same_text(&self.primitives[i].name, name) {
                proof {
                    lemma_find_view_unique(self.views(), i as int);
                }
                return Some(&self.primitives[i]);
            }
            i = i + 1;
        }
        proof {
            lemma_find_view_none(self.views(), name@);
        }
        None
    }

    /// The names of the registered primitives, in registration order.
    pub fn get_primitive_names(&self) -> (v: Vec<String>)
        ensures
            texts_of(v) == self.views().map_values(|p: PrimitiveView| p.0),
    {
        let mut v: Vec<String> = Vec::new();
        let mut i: usize = 0;
        while i < self.primitives.len()
            invariant
                i <= self.primitives@.len(),
                v@.len() == i,
                texts_of(v) == self.views().take(i as int).map_values(|p: PrimitiveView| p.0),
            decreases self.primitives@.len() - i,
        {
            let ghost before = v@;
            let name = self.primitives[i].name.clone();
            v.push(name);
            proof {
                let f = |p: PrimitiveView| p.0;
                let g = |s: String| s@;
                assert(self.views()[i as int].0 == self.primitives@[i as int].name@);
                assert forall|k: int| 0 <= k < i + 1 implies #[trigger] v@.map_values(g)[k] == self.views().take(i + 1).map_values(f)[k] by {
                    if k < i {
                        assert(v@[k] == before[k]);
                        assert(before.map_values(g)[k] == self.views().take(i as int).map_values(f)[k]);
                    }
                }
                assert(texts_of(v) =~= self.views().take(i + 1).map_values(f));
            }
            i = i + 1;
        }
        proof {
            assert(self.views().take(i as int) =~= self.views());
        }
        v
    }
}


/// Whether `name` is one of the six type predicates.
pub open spec fn is_type_predicate(name: Seq<char>) -> bool {
    name == "number?"@ || name == "string?"@ || name == "symbol?"@ || name == "boolean?"@
        || name == "procedure?"@ || name == "vector?"@
}

/// What the type predicate `name` says of `v`; values hold no vectors, so
/// `vector?` is always false.
pub open spec fn type_predicate_holds(name: Seq<char>, v: Value) -> bool {
    if name == "number?"@ {
        v is Number
    } else if name == "string?"@ {
        v is String
    } else if name == "symbol?"@ {
        v is Symbol
    } else if name == "boolean?"@ {
        v is Boolean
    } else if name == "procedure?"@ {
        v is Procedure
    } else {
        false
    }
}

fn same_str(a: &str, b: &str) -> (r: bool)
    ensures
        r == (a@ == b@),
{
    let x = String::from_str(a);
    same_text(&x, b)
}

/// Applies the type predicate `name`: one argument gives whether it has the
/// type; another count is an error naming the predicate. A name that is no
/// type predicate gives false.
pub fn apply_type_predicate(name: &str, args: &[Value]) -> (r: Result<Value, LambdustError>)
    ensures
        !is_type_predicate(name@) ==> r == Ok::<Value, LambdustError>(Value::Boolean(false)),
        is_type_predicate(name@) && args@.len() != 1 ==> (r matches Err(e)
            && e matches LambdustError::RuntimeError { message }
            && message@ == name@ + " expects 1 argument"@),
        is_type_predicate(name@) && args@.len() == 1
            ==> r == Ok::<Value, LambdustError>(Value::Boolean(type_predicate_holds(name@, args@[0]))),
{
    let known = same_str(name, "number?") || same_str(name, "string?") || same_str(name, "symbol?")
        || same_str(name, "boolean?") || same_str(name, "procedure?") || same_str(name, "vector?");
    if !known {
        return Ok(Value::Boolean(false));
    }
    if args.len() != 1 {
        let mut message = String::from_str(name);
        message.append(" expects 1 argument");
        return Err(LambdustError::runtime_error(message));
    }
    let v = &args[0];
    let holds = if same_str(name, "number?") {
        match v { Value::Number(_) => true, _ => false }
    } else if same_str(name, "string?") {
        match v { Value::String(_) => true, _ => false }
    } else if same_str(name, "symbol?") {
        match v { Value::Symbol(_) => true, _ => false }
    } else if same_str(name, "boolean?") {
        match v { Value::Boolean(_) => true, _ => false }
    } else if same_str(name, "procedure?") {
        v.is_procedure()
    } else {
        false
    };
    Ok(Value::Boolean(holds))
}


/// The proper list of the values of `s`.
pub open spec fn list_value(s: Seq<Value>) -> Value
    decreases s.len(),
{
    if s.len() == 0 {
        Value::Nil
    } else {
        Value::Pair(Box::new(s[0]), Box::new(list_value(s.drop_first())))
    }
}

/// The number of pairs along the spine of `v`.
pub open spec fn list_length(v: Value) -> nat
    decreases v,
{
    match v {
        Value::Pair(_, d) => 1 + list_length(*d),
        _ => 0,
    }
}

/// What the interpreted implementation of a primitive of kind `kind` gives
/// for `args`: a value, or the text of the runtime error it raises. `None`
/// for the kinds the library does not compute here (the arithmetic and
/// comparisons, which the interpreter runs in floating point, `append`, and
/// the equality tests), and for a list too long for an `i64` length.
pub open spec fn interpreted_outcome(kind: PrimitiveKind, args: Seq<Value>) -> Option<Result<Value, Seq<char>>> {
    let n = args.len();
    match kind {
        PrimitiveKind::Cons => Some(if n != 2 {
            Err("cons expects 2 arguments, got "@ + decimal_text(n))
        } else {
            Ok(Value::Pair(Box::new(args[0]), Box::new(args[1])))
        }),
        PrimitiveKind::Car => Some(if n != 1 {
            Err("car expects 1 argument, got "@ + decimal_text(n))
        } else {
            match args[0] {
                Value::Pair(a, _) => Ok(*a),
                _ => Err("car expects a pair"@),
            }
        }),
        PrimitiveKind::Cdr => Some(if n != 1 {
            Err("cdr expects 1 argument, got "@ + decimal_text(n))
        } else {
            match args[0] {
                Value::Pair(_, d) => Ok(*d),
                _ => Err("cdr expects a pair"@),
            }
        }),
        PrimitiveKind::NullP => Some(if n != 1 { Err("null? expects 1 argument"@) } else { Ok(Value::Boolean(args[0] is Nil)) }),
        PrimitiveKind::PairP => Some(if n != 1 { Err("pair? expects 1 argument"@) } else { Ok(Value::Boolean(args[0] is Pair)) }),
        PrimitiveKind::List => Some(Ok(list_value(args))),
        PrimitiveKind::Length => if n != 1 {
            Some(Err("length expects 1 argument"@))
        } else if !args[0].spec_is_list() {
            Some(Err("length expects a list"@))
        } else if list_length(args[0]) <= i64::MAX {
            Some(Ok(Value::integer_spec(list_length(args[0]) as i64)))
        } else {
            None
        },
        PrimitiveKind::NumberP => Some(predicate_outcome("number?"@, args)),
        PrimitiveKind::StringP => Some(predicate_outcome("string?"@, args)),
        PrimitiveKind::SymbolP => Some(predicate_outcome("symbol?"@, args)),
        PrimitiveKind::BooleanP => Some(predicate_outcome("boolean?"@, args)),
        PrimitiveKind::ProcedureP => Some(predicate_outcome("procedure?"@, args)),
        PrimitiveKind::VectorP => Some(predicate_outcome("vector?"@, args)),
        PrimitiveKind::Not => Some(if n != 1 { Err("not expects 1 argument"@) } else { Ok(Value::Boolean(args[0] == Value::Boolean(false))) }),
        PrimitiveKind::Apply => Some(if n < 2 { Err("apply expects at least 2 arguments"@) } else { Ok(Value::Nil) }),
        PrimitiveKind::CallCC => Some(if n != 1 { Err("call/cc expects 1 argument"@) } else { Ok(Value::Nil) }),
        PrimitiveKind::Values => Some(if n == 1 { Ok(args[0]) } else { Ok(list_value(args)) }),
        PrimitiveKind::Display => Some(if n == 0 || n > 2 { Err("display expects 1 or 2 arguments"@) } else { Ok(Value::Unspecified) }),
        PrimitiveKind::Newline => Some(if n > 1 { Err("newline expects 0 or 1 arguments"@) } else { Ok(Value::Unspecified) }),
        PrimitiveKind::Read => Some(if n > 1 { Err("read expects 0 or 1 arguments"@) } else { Ok(Value::Nil) }),
        _ => None,
    }
}

/// The outcome of the type predicate `name` on `args`.
pub open spec fn predicate_outcome(name: Seq<char>, args: Seq<Value>) -> Result<Value, Seq<char>> {
    if args.len() != 1 {
        Err(name + " expects 1 argument"@)
    } else {
        Ok(Value::Boolean(type_predicate_holds(name, args[0])))
    }
}

/// Whether a result is the given outcome: the same value, or a runtime error
/// with that text.
pub open spec fn is_outcome(r: Result<Value, LambdustError>, o: Result<Value, Seq<char>>) -> bool {
    match (r, o) {
        (Ok(v), Ok(w)) => v == w,
        (Err(LambdustError::RuntimeError { message }), Err(m)) => message@ == m,
        _ => false,
    }
}

fn runtime_error_text(text: &str) -> (e: LambdustError)
    ensures
        e matches LambdustError::RuntimeError { message } && message@ == text@,
{
    LambdustError::runtime_error(String::from_str(text))
}

fn count_error(prefix: &str, n: usize) -> (e: LambdustError)
    ensures
        e matches LambdustError::RuntimeError { message } && message@ == prefix@ + decimal_text(n as nat),
{
    let mut message = String::from_str(prefix);
    push_decimal(&mut message, n as u64);
    LambdustError::runtime_error(message)
}

fn build_list(args: &[Value]) -> (v: Value)
    ensures
        v == list_value(args@),
{
    let mut r = Value::Nil;
    let mut i: usize = args.len();
    assert(list_value(args@.subrange(args@.len() as int, args@.len() as int)) == Value::Nil) by {
        assert(args@.subrange(args@.len() as int, args@.len() as int) =~= Seq::<Value>::empty());
    }
    while i > 0
        invariant
            i <= args@.len(),
            r == list_value(args@.subrange(i as int, args@.len() as int)),
        decreases i,
    {
        i = i - 1;
        let head = args[i].clone();
        proof {
            let t = args@.subrange(i as int, args@.len() as int);
            assert(t.drop_first() =~= args@.subrange(i + 1, args@.len() as int));
            assert(t[0] == args@[i as int]);
        }
        r = Value::Pair(Box::new(head), Box::new(r));
    }
    assert(args@.subrange(0, args@.len() as int) =~= args@);
    r
}

/// `cons` builds the pair whose `car` is its first argument and whose `cdr`
/// is its second: taking the pair apart gives the arguments back, in order.
pub proof fn lemma_car_cdr_of_cons(a: Value, b: Value)
    ensures
        interpreted_outcome(PrimitiveKind::Cons, seq![a, b]) matches Some(Ok(p)) && {
            &&& p is Pair
            &&& interpreted_outcome(PrimitiveKind::Car, seq![p]) == Some(Ok::<Value, Seq<char>>(a))
            &&& interpreted_outcome(PrimitiveKind::Cdr, seq![p]) == Some(Ok::<Value, Seq<char>>(b))
            &&& interpreted_outcome(PrimitiveKind::PairP, seq![p]) == Some(Ok::<Value, Seq<char>>(Value::Boolean(true)))
            &&& interpreted_outcome(PrimitiveKind::NullP, seq![p]) == Some(Ok::<Value, Seq<char>>(Value::Boolean(false)))
        },
{
}

proof fn lemma_list_value_shape(s: Seq<Value>)
    ensures
        list_value(s).spec_is_list(),
        list_length(list_value(s)) == s.len(),
    decreases s.len(),
{
    if s.len() > 0 {
        lemma_list_value_shape(s.drop_first());
    }
}

/// `list` builds a proper list of its arguments: `length` of it is the number
/// of arguments, its `car` is the first argument and its `cdr` is the list of
/// the others; `list` of nothing is the empty list.
pub proof fn lemma_list_length_car_cdr(args: Seq<Value>)
    requires
        args.len() <= i64::MAX,
    ensures
        interpreted_outcome(PrimitiveKind::List, args) matches Some(Ok(l)) && {
            &&& interpreted_outcome(PrimitiveKind::Length, seq![l])
                == Some(Ok::<Value, Seq<char>>(Value::integer_spec(args.len() as i64)))
            &&& args.len() == 0 ==> interpreted_outcome(PrimitiveKind::NullP, seq![l])
                == Some(Ok::<Value, Seq<char>>(Value::Boolean(true)))
            &&& args.len() > 0 ==> interpreted_outcome(PrimitiveKind::Car, seq![l]) == Some(Ok::<Value, Seq<char>>(args[0]))
            &&& args.len() > 0 ==> interpreted_outcome(PrimitiveKind::Cdr, seq![l])
                == Some(Ok::<Value, Seq<char>>(list_value(args.drop_first())))
        },
{
    lemma_list_value_shape(args);
}

/// `not` is true exactly of false; each type predicate holds of the values of
/// its type; `values` of one argument is that argument.
pub proof fn lemma_not_predicates_values(v: Value, n: i64)
    ensures
        interpreted_outcome(PrimitiveKind::Not, seq![v])
            == Some(Ok::<Value, Seq<char>>(Value::Boolean(v == Value::Boolean(false)))),
        interpreted_outcome(PrimitiveKind::Not, seq![Value::Boolean(false)])
            == Some(Ok::<Value, Seq<char>>(Value::Boolean(true))),
        interpreted_outcome(PrimitiveKind::NumberP, seq![Value::integer_spec(n)])
            == Some(Ok::<Value, Seq<char>>(Value::Boolean(true))),
        interpreted_outcome(PrimitiveKind::NumberP, seq![Value::Nil])
            == Some(Ok::<Value, Seq<char>>(Value::Boolean(false))),
        interpreted_outcome(PrimitiveKind::Values, seq![v]) == Some(Ok::<Value, Seq<char>>(v)),
{
    reveal_strlit("number?");
    reveal_strlit("string?");
}

fn spine_length(v: &Value) -> (n: u64)
    requires
        list_length(*v) <= i64::MAX,
    ensures
        n == list_length(*v),
    decreases v,
{
    match v {
        Value::Pair(_, d) => 1 + spine_length(&**d),
        _ => 0,
    }
}

impl JitPrimitive {
    /// Runs the primitive's interpreted implementation on `args`; see
    /// `interpreted_outcome`.
    pub fn call_interpreted(&self, args: &[Value]) -> (r: Result<Value, LambdustError>)
        requires
            interpreted_outcome(self.kind, args@) is Some,
        ensures
            is_outcome(r, interpreted_outcome(self.kind, args@).unwrap()),
    {
        let n = args.len();
        match self.kind {
            PrimitiveKind::Cons => {
                if n != 2 {
                    return Err(count_error("cons expects 2 arguments, got ", n));
                }
                Ok(Value::Pair(Box::new(args[0].clone()), Box::new(args[1].clone())))
            },
            PrimitiveKind::Car => {
                if n != 1 {
                    return Err(count_error("car expects 1 argument, got ", n));
                }
                match &args[0] {
                    Value::Pair(a, _) => Ok((**a).clone()),
                    _ => Err(runtime_error_text("car expects a pair")),
                }
            },
            PrimitiveKind::Cdr => {
                if n != 1 {
                    return Err(count_error("cdr expects 1 argument, got ", n));
                }
                match &args[0] {
                    Value::Pair(_, d) => Ok((**d).clone()),
                    _ => Err(runtime_error_text("cdr expects a pair")),
                }
            },
            PrimitiveKind::NullP => {
                if n != 1 {
                    return Err(runtime_error_text("null? expects 1 argument"));
                }
                Ok(Value::Boolean(match &args[0] { Value::Nil => true, _ => false }))
            },
            PrimitiveKind::PairP => {
                if n != 1 {
                    return Err(runtime_error_text("pair? expects 1 argument"));
                }
                Ok(Value::Boolean(match &args[0] { Value::Pair(_, _) => true, _ => false }))
            },
            PrimitiveKind::List => Ok(build_list(args)),
            PrimitiveKind::Length => {
                if n != 1 {
                    return Err(runtime_error_text("length expects 1 argument"));
                }
                if !args[0].is_list() {
                    return Err(runtime_error_text("length expects a list"));
                }
                let len = spine_length(&args[0]);
                Ok(Value::integer(len as i64))
            },
            PrimitiveKind::NumberP => apply_type_predicate("number?", args),
            PrimitiveKind::StringP => apply_type_predicate("string?", args),
            PrimitiveKind::SymbolP => apply_type_predicate("symbol?", args),
            PrimitiveKind::BooleanP => apply_type_predicate("boolean?", args),
            PrimitiveKind::ProcedureP => apply_type_predicate("procedure?", args),
            PrimitiveKind::VectorP => apply_type_predicate("vector?", args),
            PrimitiveKind::Not => {
                if n != 1 {
                    return Err(runtime_error_text("not expects 1 argument"));
                }
                Ok(Value::Boolean(match &args[0] { Value::Boolean(b) => !*b, _ => false }))
            },
            PrimitiveKind::Apply => {
                if n < 2 {
                    return Err(runtime_error_text("apply expects at least 2 arguments"));
                }
                Ok(Value::Nil)
            },
            PrimitiveKind::CallCC => {
                if n != 1 {
                    return Err(runtime_error_text("call/cc expects 1 argument"));
                }
                Ok(Value::Nil)
            },
            PrimitiveKind::Values => {
                if n == 1 {
                    Ok(args[0].clone())
                } else {
                    Ok(build_list(args))
                }
            },
            PrimitiveKind::Display => {
                if n == 0 || n > 2 {
                    return Err(runtime_error_text("display expects 1 or 2 arguments"));
                }
                Ok(Value::Unspecified)
            },
            PrimitiveKind::Newline => {
                if n > 1 {
                    return Err(runtime_error_text("newline expects 0 or 1 arguments"));
                }
                Ok(Value::Unspecified)
            },
            PrimitiveKind::Read => {
                if n > 1 {
                    return Err(runtime_error_text("read expects 0 or 1 arguments"));
                }
                Ok(Value::Nil)
            },
            _ => {
                assert(false);
                Err(runtime_error_text("primitive not computed by the library"))
            },
        }
    }
}

} // verus!
