//! Native code representation and the low-level pieces of code generation:
//! register allocation, the instruction buffer, SIMD emission and frame layout.
use vstd::prelude::*;
use crate::error::LambdustError;
use crate::jit::compilation_tiers::CompilationTier;
use crate::formal_verification::core_types::same_text;
use crate::value::{Environment, Expr, SchemeNumber, Value};
use vstd::arithmetic::power2::is_pow2;

verus! {

/// Native code representation.
#[derive(Debug, Clone)]
pub struct NativeCode {
    /// Compiled machine code
    pub machine_code: Vec<u8>,
    /// Entry point offset
    pub entry_point: usize,
    /// Metadata for debugging and deoptimization
    pub metadata: CodeMetadata,
    /// Function signature information
    pub signature: FunctionSignature,
    /// Memory layout information
    pub memory_layout: MemoryLayout,
}

impl NativeCode {
    /// Executes the native code in the given environment. No calling convention
    /// is set up yet, so every run yields the unspecified value and leaves the
    /// environment as it was.
    pub fn execute(&self, context: &mut Environment) -> (r: Result<Value, LambdustError>)
        ensures
            r == Ok::<Value, LambdustError>(Value::Unspecified),
            final(context).bindings@ == old(context).bindings@,
    {
        Ok(Value::Unspecified)
    }

    /// Returns the size of the generated code in bytes.
    pub fn code_size(&self) -> (n: usize)
        ensures
            n == self.machine_code@.len(),
    {
        self.machine_code.len()
    }
}

/// The texts of a list of names.
pub open spec fn name_texts(v: Seq<String>) -> Seq<Seq<char>> {
    v.map_values(|n: String| n@)
}

/// A safe point as plain values: offset, AST node and live variables.
pub open spec fn safe_point_view(p: SafePoint) -> (usize, Seq<char>, Seq<Seq<char>>) {
    (p.code_offset, p.ast_node@, name_texts(p.live_variables@))
}

/// An inlined function as plain values: name and code range.
pub open spec fn inlined_view(f: InlinedFunction) -> (Seq<char>, usize, usize) {
    (f.name@, f.code_range.start, f.code_range.end)
}

/// Safe points as plain values.
pub open spec fn safe_points_view(v: Seq<SafePoint>) -> Seq<(usize, Seq<char>, Seq<Seq<char>>)> {
    v.map_values(|p: SafePoint| safe_point_view(p))
}

/// Variable locations as plain values.
pub open spec fn locations_view(v: Seq<(String, VariableLocation)>) -> Seq<(Seq<char>, VariableLocation)> {
    v.map_values(|l: (String, VariableLocation)| (l.0@, l.1))
}

/// Inlined functions as plain values.
pub open spec fn inlined_views(v: Seq<InlinedFunction>) -> Seq<(Seq<char>, usize, usize)> {
    v.map_values(|f: InlinedFunction| inlined_view(f))
}

/// Native code as plain values, field by field and element by element.
pub open spec fn native_code_view(c: NativeCode) -> (
    (Seq<u8>, usize),
    (Seq<char>, CompilationTier, Seq<(usize, Seq<char>, Seq<Seq<char>>)>, Seq<(Seq<char>, VariableLocation)>, Seq<(Seq<char>, usize, usize)>),
    (usize, bool, SchemeType, Seq<SchemeType>),
    (usize, Seq<GcRoot>, MemoryRequirements),
) {
    (
        (c.machine_code@, c.entry_point),
        (
            c.metadata.source_expr@,
            c.metadata.compilation_tier,
            safe_points_view(c.metadata.safe_points@),
            locations_view(c.metadata.variable_locations@),
            inlined_views(c.metadata.inlined_functions@),
        ),
        (c.signature.parameter_count, c.signature.is_variadic, c.signature.return_type, c.signature.parameter_types@),
        (c.memory_layout.stack_frame_size, c.memory_layout.gc_roots@, c.memory_layout.memory_requirements),
    )
}

fn copy_plain<T: Copy>(v: &Vec<T>) -> (r: Vec<T>)
    ensures
        r@ == v@,
{
    let mut r: Vec<T> = Vec::new();
    let mut i: usize = 0;
    while i < v.len()
        invariant
            i <= v@.len(),
            r@ == v@.subrange(0, i as int),
        decreases v@.len() - i,
    {
        r.push(v[i]);
        i = i + 1;
    }
    assert(v@.subrange(0, v@.len() as int) =~= v@);
    r
}

fn copy_strings(v: &Vec<String>) -> (r: Vec<String>)
    ensures
        name_texts(r@) == name_texts(v@),
{
    let mut r: Vec<String> = Vec::new();
    let mut i: usize = 0;
    while i < v.len()
        invariant
            i <= v@.len(),
            r@.len() == i,
            name_texts(r@) == name_texts(v@.subrange(0, i as int)),
        decreases v@.len() - i,
    {
        let ghost before = r@;
        r.push(v[i].clone());
        proof {
            assert forall|j: int| 0 <= j < i + 1 implies #[trigger] name_texts(r@)[j] == name_texts(v@.subrange(0, i + 1))[j] by {
                if j < i {
                    assert(name_texts(before)[j] == name_texts(v@.subrange(0, i as int))[j]);
                    assert(r@[j] == before[j]);
                }
            }
            assert(name_texts(r@) =~= name_texts(v@.subrange(0, i + 1)));
        }
        i = i + 1;
    }
    assert(v@.subrange(0, v@.len() as int) =~= v@);
    r
}

fn copy_safe_points(v: &Vec<SafePoint>) -> (r: Vec<SafePoint>)
    ensures
        safe_points_view(r@) == safe_points_view(v@),
{
    let mut r: Vec<SafePoint> = Vec::new();
    let mut i: usize = 0;
    while i < v.len()
        invariant
            i <= v@.len(),
            r@.len() == i,
            safe_points_view(r@) == safe_points_view(v@.subrange(0, i as int)),
        decreases v@.len() - i,
    {
        let p = &v[i];
        let q = SafePoint {
            code_offset: p.code_offset,
            ast_node: p.ast_node.clone(),
            live_variables: copy_strings(&p.live_variables),
        };
        let ghost before = r@;
        r.push(q);
        proof {
            assert forall|j: int| 0 <= j < i + 1 implies #[trigger] safe_points_view(r@)[j] == safe_points_view(v@.subrange(0, i + 1))[j] by {
                if j < i {
                    assert(safe_points_view(before)[j] == safe_points_view(v@.subrange(0, i as int))[j]);
                    assert(r@[j] == before[j]);
                }
            }
            assert(safe_points_view(r@) =~= safe_points_view(v@.subrange(0, i + 1)));
        }
        i = i + 1;
    }
    assert(v@.subrange(0, v@.len() as int) =~= v@);
    r
}

fn copy_locations(v: &Vec<(String, VariableLocation)>) -> (r: Vec<(String, VariableLocation)>)
    ensures
        locations_view(r@) == locations_view(v@),
{
    let mut r: Vec<(String, VariableLocation)> = Vec::new();
    let mut i: usize = 0;
    while i < v.len()
        invariant
            i <= v@.len(),
            r@.len() == i,
            locations_view(r@)
                == locations_view(v@.subrange(0, i as int)),
        decreases v@.len() - i,
    {
        let ghost before = r@;
        r.push((v[i].0.clone(), v[i].1));
        proof {
            assert forall|j: int| 0 <= j < i + 1 implies #[trigger] locations_view(r@)[j] == locations_view(v@.subrange(0, i + 1))[j] by {
                if j < i {
                    assert(locations_view(before)[j] == locations_view(v@.subrange(0, i as int))[j]);
                    assert(r@[j] == before[j]);
                }
            }
            assert(locations_view(r@) =~= locations_view(v@.subrange(0, i + 1)));
        }
        i = i + 1;
    }
    assert(v@.subrange(0, v@.len() as int) =~= v@);
    r
}

fn copy_inlined(v: &Vec<InlinedFunction>) -> (r: Vec<InlinedFunction>)
    ensures
        inlined_views(r@) == inlined_views(v@),
{
    let mut r: Vec<InlinedFunction> = Vec::new();
    let mut i: usize = 0;
    while i < v.len()
        invariant
            i <= v@.len(),
            r@.len() == i,
            inlined_views(r@) == inlined_views(v@.subrange(0, i as int)),
        decreases v@.len() - i,
    {
        let ghost before = r@;
        r.push(v[i].clone());
        proof {
            assert forall|j: int| 0 <= j < i + 1 implies #[trigger] inlined_views(r@)[j] == inlined_views(v@.subrange(0, i + 1))[j] by {
                if j < i {
                    assert(inlined_views(before)[j] == inlined_views(v@.subrange(0, i as int))[j]);
                    assert(r@[j] == before[j]);
                }
            }
            assert(inlined_views(r@) =~= inlined_views(v@.subrange(0, i + 1)));
        }
        i = i + 1;
    }
    assert(v@.subrange(0, v@.len() as int) =~= v@);
    r
}

/// A copy of `c`, equal to it field by field and element by element.
pub fn copy_native_code(c: &NativeCode) -> (r: NativeCode)
    ensures
        native_code_view(r) == native_code_view(*c),
{
    NativeCode {
        machine_code: copy_plain(&c.machine_code),
        entry_point: c.entry_point,
        metadata: CodeMetadata {
            source_expr: c.metadata.source_expr.clone(),
            compilation_tier: c.metadata.compilation_tier,
            safe_points: copy_safe_points(&c.metadata.safe_points),
            variable_locations: copy_locations(&c.metadata.variable_locations),
            inlined_functions: copy_inlined(&c.metadata.inlined_functions),
        },
        signature: FunctionSignature {
            parameter_count: c.signature.parameter_count,
            is_variadic: c.signature.is_variadic,
            return_type: c.signature.return_type,
            parameter_types: copy_plain(&c.signature.parameter_types),
        },
        memory_layout: MemoryLayout {
            stack_frame_size: c.memory_layout.stack_frame_size,
            gc_roots: copy_plain(&c.memory_layout.gc_roots),
            memory_requirements: c.memory_layout.memory_requirements,
        },
    }
}

/// Code metadata for debugging and deoptimization.
#[derive(Debug, Clone)]
pub struct CodeMetadata {
    /// Source expression this code was compiled from
    pub source_expr: String,
    /// Compilation tier used
    pub compilation_tier: CompilationTier,
    /// Safe points for deoptimization
    pub safe_points: Vec<SafePoint>,
    /// Variable locations for debugging, one entry per variable name
    pub variable_locations: Vec<(String, VariableLocation)>,
    /// Inlined function information
    pub inlined_functions: Vec<InlinedFunction>,
}

/// Safe point for deoptimization.
#[derive(Debug, Clone)]
pub struct SafePoint {
    /// Offset in machine code
    pub code_offset: usize,
    /// AST node this safe point corresponds to
    pub ast_node: String,
    /// Live variables at this point
    pub live_variables: Vec<String>,
}

/// Variable location in generated code.
#[derive(Debug, Clone, Copy, PartialEq, Eq, Structural)]
pub enum VariableLocation {
    /// Variable stored in a register
    Register(u8),
    /// Variable stored on the stack
    Stack(i32),
    /// Variable stored in memory
    Memory(usize),
}

/// Information about inlined functions.
#[derive(Debug)]
pub struct InlinedFunction {
    /// Name of inlined function
    pub name: String,
    /// Code range where function is inlined
    pub code_range: std::ops::Range<usize>,
}

impl Clone for InlinedFunction {
    fn clone(&self) -> (r: Self)
        ensures
            r.name@ == self.name@,
            r.code_range.start == self.code_range.start,
            r.code_range.end == self.code_range.end,
    {
        InlinedFunction {
            name: self.name.clone(),
            code_range: self.code_range.start..self.code_range.end,
        }
    }
}

/// Function signature information.
#[derive(Debug, Clone)]
pub struct FunctionSignature {
    /// Number of parameters
    pub parameter_count: usize,
    /// Whether function accepts variable arguments
    pub is_variadic: bool,
    /// Return type information
    pub return_type: SchemeType,
    /// Parameter types (if known)
    pub parameter_types: Vec<SchemeType>,
}

/// Scheme type information for optimization.
#[derive(Debug, Clone, Copy, PartialEq, Eq, Structural)]
pub enum SchemeType {
    /// Any Scheme value (no type information)
    Any,
    /// Exact integer
    Integer,
    /// Floating point number
    Real,
    /// Complex number
    Complex,
    /// Boolean value
    Boolean,
    /// String
    String,
    /// Symbol
    Symbol,
    /// Cons pair
    Pair,
    /// Vector
    Vector,
    /// Procedure
    Procedure,
}

/// Memory layout information for GC integration.
#[derive(Debug, Clone)]
pub struct MemoryLayout {
    /// Stack frame size
    pub stack_frame_size: usize,
    /// Locations of GC roots in the stack frame
    pub gc_roots: Vec<GcRoot>,
    /// Total memory requirements
    pub memory_requirements: MemoryRequirements,
}

/// GC root information.
#[derive(Debug, Clone, Copy, PartialEq, Eq, Structural)]
pub struct GcRoot {
    /// Offset in stack frame
    pub stack_offset: i32,
    /// Type of the root
    pub root_type: SchemeType,
}

/// Memory requirements for code execution.
#[derive(Debug, Clone, Copy, PartialEq, Eq, Structural)]
pub struct MemoryRequirements {
    /// Stack space needed
    pub stack_bytes: usize,
    /// Heap allocations needed
    pub heap_bytes: usize,
    /// Additional temporary space
    pub temp_bytes: usize,
}

/// Code generation configuration.
#[derive(Debug, Clone, Copy, PartialEq, Eq, Structural)]
pub struct CodegenConfig {
    /// Target CPU features to use
    pub target_features: TargetFeatures,
    /// Optimization level
    pub optimization_level: OptimizationLevel,
    /// Enable debug information generation
    pub debug_info: bool,
    /// Enable bounds checking
    pub bounds_checking: bool,
    /// Enable overflow checking
    pub overflow_checking: bool,
    /// Enable SIMD optimizations
    pub simd_optimizations: bool,
}

impl CodegenConfig {
    /// The default configuration for the given CPU features: balanced
    /// optimization, no debug information, all checks and SIMD on.
    pub fn with_target_features(target_features: TargetFeatures) -> (c: Self)
        ensures
            c.target_features == target_features,
            c.optimization_level == OptimizationLevel::Balanced,
            !c.debug_info,
            c.bounds_checking,
            c.overflow_checking,
            c.simd_optimizations,
    {
        CodegenConfig {
            target_features,
            optimization_level: OptimizationLevel::Balanced,
            debug_info: false,
            bounds_checking: true,
            overflow_checking: true,
            simd_optimizations: true,
        }
    }
}

/// Target CPU features.
#[derive(Debug, Clone, Copy, PartialEq, Eq, Structural)]
pub struct TargetFeatures {
    /// Support for AVX-512 instructions
    pub avx512: bool,
    /// Support for AVX2 instructions
    pub avx2: bool,
    /// Support for BMI2 instructions
    pub bmi2: bool,
    /// Support for FMA instructions
    pub fma: bool,
    /// Support for NEON instructions (ARM)
    pub neon: bool,
}

/// Optimization levels for code generation.
#[derive(Debug, Clone, Copy, PartialEq, Eq, Structural)]
pub enum OptimizationLevel {
    /// No optimizations - fastest compilation
    Unoptimized,
    /// Basic optimizations - good balance of compilation speed and performance
    Balanced,
    /// Aggressive optimizations - slower compilation, maximum performance
    Aggressive,
}

/// Whether register `i` is free in the bit mask `mask`.
pub open spec fn reg_free(mask: u64, i: u64) -> bool {
    mask & (1u64 << i) != 0
}

/// Scan of the first `n` registers for the least-used free one: the lowest
/// usage seen so far and the register that has it (`u64::MAX` and register 0
/// while none has been found). Only a strictly lower usage replaces the pick,
/// so among equally used registers the lowest index wins.
pub open spec fn lru_scan(available: u64, usage: Seq<u64>, n: nat) -> (u64, u8)
    decreases n,
{
    if n == 0 {
        (u64::MAX, 0u8)
    } else {
        let prev = lru_scan(available, usage, (n - 1) as nat);
        let i = (n - 1) as int;
        if reg_free(available, i as u64) && usage[i] < prev.0 {
            (usage[i], i as u8)
        } else {
            prev
        }
    }
}

/// The register the pool hands out next from the free mask `available`.
pub open spec fn lru_register(available: u64, usage: Seq<u64>) -> u8 {
    lru_scan(available, usage, 16).1
}

/// A use count after one more use; the counter wraps around.
pub open spec fn bump(count: u64) -> u64 {
    if count == u64::MAX {
        0
    } else {
        (count + 1) as u64
    }
}

/// What the scan finds: a free register whose usage is no higher than that of
/// any other free register among the first `n`, or register 0 when no free
/// register with a usage below `u64::MAX` exists among them.
pub proof fn lemma_lru_scan(available: u64, usage: Seq<u64>, n: nat)
    requires
        n <= 16,
        usage.len() >= 16,
    ensures
        forall|k: int|
            0 <= k < n && reg_free(available, k as u64) ==> lru_scan(available, usage, n).0 <= usage[k],
        lru_scan(available, usage, n).0 < u64::MAX ==> {
            let b = lru_scan(available, usage, n).1;
            &&& b < n
            &&& reg_free(available, b as u64)
            &&& usage[b as int] == lru_scan(available, usage, n).0
        },
        lru_scan(available, usage, n).0 == u64::MAX ==> lru_scan(available, usage, n).1 == 0,
    decreases n,
{
    if n > 0 {
        lemma_lru_scan(available, usage, (n - 1) as nat);
    }
}

/// Returning a register that was just taken out of a mask gives back the mask
/// as it was before.
pub proof fn lemma_release_restores_mask(mask: u64, reg: u64)
    requires
        reg < 64,
        reg_free(mask, reg),
    ensures
        (mask & !(1u64 << reg)) | (1u64 << reg) == mask,
        !reg_free(mask & !(1u64 << reg), reg),
{
    assert((mask & (1u64 << reg)) != 0 ==> (mask & !(1u64 << reg)) | (1u64 << reg) == mask) by (bit_vector)
        requires
            reg < 64,
    ;
    assert(((mask & !(1u64 << reg)) & (1u64 << reg)) == 0) by (bit_vector)
        requires
            reg < 64,
    ;
}

/// Register allocation pool: free-register bit masks and per-register use counts.
#[derive(Debug)]
pub struct RegisterPool {
    available_int_regs: u64,
    available_float_regs: u64,
    register_usage: [u64; 32],
}

impl RegisterPool {
    /// Bit mask of the free integer registers.
    pub closed spec fn int_mask(&self) -> u64 {
        self.available_int_regs
    }

    /// Bit mask of the free floating-point registers.
    pub closed spec fn float_mask(&self) -> u64 {
        self.available_float_regs
    }

    /// Use count of each of the 32 registers.
    pub closed spec fn usage(&self) -> Seq<u64> {
        self.register_usage@
    }

    /// A pool with the 16 low integer and floating-point registers free and
    /// no register used yet.
    pub fn new() -> (p: Self)
        ensures
            p.int_mask() == 0xFFFF,
            p.float_mask() == 0xFFFF,
            p.usage() == Seq::new(32, |i: int| 0u64),
    {
        let usage: [u64; 32] = [0u64; 32];
        proof {
            assert(usage@ =~= Seq::new(32, |i: int| 0u64));
        }
        RegisterPool { available_int_regs: 0xFFFF, available_float_regs: 0xFFFF, register_usage: usage }
    }

    /// The least-used register among the free low registers (0 to 15) of
    /// `available`.
    pub fn find_lru_register(&self, available: u64) -> (r: u8)
        ensures
            r == lru_register(available, self.usage()),
            r < 16,
    {
        proof {
            lemma_lru_scan(available, self.usage(), 16);
        }
        let mut min_usage: u64 = u64::MAX;
        let mut best_reg: u8 = 0;
        let mut i: u64 = 0;
        while i < 16
            invariant
                i <= 16,
                (min_usage, best_reg) == lru_scan(available, self.usage(), i as nat),
            decreases 16 - i,
        {
            if (available & (1u64 << i)) != 0 {
                let usage = self.register_usage[i as usize];
                if usage < min_usage {
                    min_usage = usage;
                    best_reg = i as u8;
                }
            }
            i = i + 1;
        }
        best_reg
    }

    /// Takes the least-used free integer register out of the pool and counts
    /// one more use of it; `None` when no integer register is free.
    pub fn allocate_int_register(&mut self) -> (r: Option<u8>)
        ensures
            old(self).int_mask() == 0 ==> r is None && final(self).int_mask() == old(self).int_mask()
                && final(self).usage() == old(self).usage(),
            old(self).int_mask() != 0 ==> {
                let reg = lru_register(old(self).int_mask(), old(self).usage());
                &&& r == Some(reg)
                &&& final(self).int_mask() == old(self).int_mask() & !(1u64 << reg)
                &&& !reg_free(final(self).int_mask(), reg as u64)
                &&& final(self).usage() == old(self).usage().update(
                    reg as int,
                    bump(old(self).usage()[reg as int]),
                )
            },
            final(self).float_mask() == old(self).float_mask(),
    {
        if self.available_int_regs == 0 {
            return None;
        }
        let reg = self.find_lru_register(self.available_int_regs);
        let mask = 1u64 << reg;
        let avail = self.available_int_regs;
        assert((avail & !(1u64 << reg)) & (1u64 << reg) == 0) by (bit_vector)
            requires
                reg < 16,
        ;
        self.available_int_regs = avail & !mask;
        let count = self.register_usage[reg as usize];
        self.register_usage[reg as usize] = count.wrapping_add(1);
        Some(reg)
    }

    /// Marks register `reg` as taken, counts one more use of it, and reports
    /// whether it was free before.
    pub fn allocate_register_unchecked(&mut self, reg_index: usize) -> (was_free: bool)
        requires
            reg_index < 32,
        ensures
            was_free == reg_free(old(self).int_mask(), reg_index as u64),
            final(self).int_mask() == old(self).int_mask() & !(1u64 << reg_index as u64),
            !reg_free(final(self).int_mask(), reg_index as u64),
            final(self).usage() == old(self).usage().update(
                reg_index as int,
                bump(old(self).usage()[reg_index as int]),
            ),
            final(self).float_mask() == old(self).float_mask(),
    {
        let r = reg_index as u64;
        let mask = 1u64 << r;
        let old_available = self.available_int_regs;
        assert((old_available & !(1u64 << r)) & (1u64 << r) == 0) by (bit_vector)
            requires
                r < 32,
        ;
        self.available_int_regs = old_available & !mask;
        let count = self.register_usage[reg_index];
        self.register_usage[reg_index] = count.wrapping_add(1);
        (old_available & mask) != 0
    }

    /// Returns register `reg` to the integer or floating-point pool.
    pub fn deallocate_register(&mut self, reg: u8, is_float: bool)
        requires
            reg < 64,
        ensures
            is_float ==> final(self).float_mask() == old(self).float_mask() | (1u64 << reg)
                && final(self).int_mask() == old(self).int_mask(),
            !is_float ==> final(self).int_mask() == old(self).int_mask() | (1u64 << reg)
                && final(self).float_mask() == old(self).float_mask(),
            is_float ==> reg_free(final(self).float_mask(), reg as u64),
            !is_float ==> reg_free(final(self).int_mask(), reg as u64),
            final(self).usage() == old(self).usage(),
    {
        let mask = 1u64 << reg;
        if is_float {
            let f = self.available_float_regs;
            assert((f | (1u64 << reg)) & (1u64 << reg) != 0) by (bit_vector)
                requires
                    reg < 64,
            ;
            self.available_float_regs = f | mask;
        } else {
            let a = self.available_int_regs;
            assert((a | (1u64 << reg)) & (1u64 << reg) != 0) by (bit_vector)
                requires
                    reg < 64,
            ;
            self.available_int_regs = a | mask;
        }
    }
}

/// The smallest power of two that is at least `n` (one for `n` of zero).
pub open spec fn is_next_pow2(p: int, n: int) -> bool {
    &&& is_pow2(p)
    &&& p >= n
    &&& (p == 1 || p / 2 < n)
}

/// The smallest power of two that is at least `n`.
fn next_power_of_two(n: usize) -> (p: usize)
    requires
        n <= usize::MAX / 2 + 1,
    ensures
        is_next_pow2(p as int, n as int),
{
    let mut p: usize = 1;
    proof {
        reveal(is_pow2);
    }
    while p < n
        invariant
            p >= 1,
            n <= usize::MAX / 2 + 1,
            is_pow2(p as int),
            p == 1 || p / 2 < n,
        decreases usize::MAX - p,
    {
        proof {
            reveal(is_pow2);
            assert((2 * p) % 2 == 0 && (2 * p) / 2 == p);
        }
        p = p * 2;
    }
    p
}

/// A slice of the first `n` bytes of `v`.
fn byte_prefix(v: &Vec<u8>, n: usize) -> (s: &[u8])
    requires
        n <= v.len(),
    ensures
        s@ == v@.subrange(0, n as int),
{
    vstd::slice::slice_subrange(v.as_slice(), 0, n)
}

/// `x` rounded up to a multiple of 64 by masking.
pub open spec fn align_up_64(x: usize) -> usize {
    ((x + 63) as usize) & !63usize
}

/// Rounding up to a multiple of 64 gives the least such multiple not below `x`.
pub proof fn lemma_align_up_64(x: usize)
    requires
        x + 63 <= usize::MAX,
    ensures
        align_up_64(x) % 64 == 0,
        x <= align_up_64(x) < x + 64,
{
    let y = (x + 63) as usize;
    assert((y & !63usize) % 64 == 0 && (y & !63usize) <= y && y < (y & !63usize) + 64) by (bit_vector);
}

/// All the bytes of a sequence of instruction blocks, in order.
pub open spec fn concat_blocks(blocks: Seq<&[u8]>) -> Seq<u8>
    decreases blocks.len(),
{
    if blocks.len() == 0 {
        Seq::empty()
    } else {
        concat_blocks(blocks.drop_last()) + blocks.last()@
    }
}

proof fn lemma_concat_prefix_len(blocks: Seq<&[u8]>, i: int, j: int)
    requires
        0 <= i <= j <= blocks.len(),
    ensures
        concat_blocks(blocks.subrange(0, i)).len() <= concat_blocks(blocks.subrange(0, j)).len(),
    decreases j - i,
{
    if i < j {
        lemma_concat_prefix_len(blocks, i, j - 1);
        assert(blocks.subrange(0, j).drop_last() =~= blocks.subrange(0, j - 1));
    }
}

/// Instruction buffer: a zero-initialised byte buffer whose first `position`
/// bytes are the instructions emitted so far.
#[derive(Debug)]
pub struct InstructionBuffer {
    buffer: Vec<u8>,
    position: usize,
    capacity: usize,
}

impl InstructionBuffer {
    /// The buffer spans `capacity` bytes and the write position lies within it.
    pub closed spec fn wf(&self) -> bool {
        &&& self.buffer.len() == self.capacity
        &&& self.position <= self.capacity
    }

    /// The instruction bytes emitted so far.
    pub closed spec fn bytes(&self) -> Seq<u8> {
        self.buffer@.subrange(0, self.position as int)
    }

    /// The number of bytes the buffer holds before it must grow.
    pub closed spec fn capacity_of(&self) -> nat {
        self.capacity as nat
    }

    /// Whether `n` more bytes can be emitted without overflowing `usize`,
    /// growth included.
    pub open spec fn can_emit(&self, n: nat) -> bool {
        let new_pos = self.bytes().len() + n;
        &&& new_pos <= usize::MAX
        &&& new_pos > self.capacity_of() ==> new_pos * 2 <= usize::MAX / 2 + 1
    }

    /// An empty buffer whose capacity is `initial_capacity` rounded up to a
    /// whole number of 64-byte cache lines.
    pub fn new_aligned(initial_capacity: usize) -> (b: Self)
        requires
            initial_capacity + 63 <= usize::MAX,
        ensures
            b.wf(),
            b.bytes() == Seq::<u8>::empty(),
            b.capacity_of() == align_up_64(initial_capacity),
            b.capacity_of() % 64 == 0,
            initial_capacity <= b.capacity_of() < initial_capacity + 64,
    {
        proof {
            lemma_align_up_64(initial_capacity);
        }
        let capacity = (initial_capacity + 63) & !63usize;
        let mut buffer: Vec<u8> = Vec::with_capacity(capacity);
        buffer.resize(capacity, 0);
        InstructionBuffer { buffer, position: 0, capacity }
    }

    /// Writes `bytes` at the current position; the room must already be there.
    pub fn emit_unchecked(&mut self, bytes: &[u8])
        requires
            old(self).wf(),
            old(self).bytes().len() + bytes@.len() <= old(self).capacity_of(),
        ensures
            final(self).wf(),
            final(self).bytes() == old(self).bytes() + bytes@,
            final(self).capacity_of() == old(self).capacity_of(),
    {
        let start = self.position;
        let mut k: usize = 0;
        while k < bytes.len()
            invariant
                self.buffer.len() == self.capacity,
                self.capacity == old(self).capacity,
                start == old(self).position,
                self.position == start,
                start + bytes@.len() <= self.capacity,
                k <= bytes@.len(),
                self.buffer@.subrange(0, start + k) == old(self).bytes() + bytes@.subrange(0, k as int),
            decreases bytes@.len() - k,
        {
            let ghost prev = self.buffer@;
            self.buffer.set(start + k, bytes[k]);
            proof {
                assert(self.buffer@.subrange(0, start + k + 1) =~= prev.subrange(0, start + k).push(bytes@[k as int]));
                assert(bytes@.subrange(0, k + 1) =~= bytes@.subrange(0, k as int).push(bytes@[k as int]));
                assert(self.buffer@.subrange(0, start + k + 1) =~= old(self).bytes() + bytes@.subrange(0, k + 1));
            }
            k = k + 1;
        }
        self.position = start + bytes.len();
        proof {
            assert(bytes@.subrange(0, bytes@.len() as int) =~= bytes@);
        }
    }

    /// Grows the buffer to the next power of two at or above twice
    /// `min_size`, and to at least 4096 bytes, keeping what was emitted.
    pub fn grow_buffer(&mut self, min_size: usize)
        requires
            old(self).wf(),
            min_size > old(self).capacity_of(),
            min_size * 2 <= usize::MAX / 2 + 1,
        ensures
            final(self).wf(),
            final(self).bytes() == old(self).bytes(),
            exists|p: int|
                #[trigger] is_next_pow2(p, min_size * 2) && final(self).capacity_of() == if p < 4096 {
                    4096
                } else {
                    p
                },
            final(self).capacity_of() >= min_size * 2,
    {
        let p = next_power_of_two(min_size * 2);
        let new_capacity = if p < 4096 { 4096 } else { p };
        assert(is_next_pow2(p as int, min_size * 2));
        let ghost old_buffer = self.buffer@;
        self.buffer.resize(new_capacity, 0);
        proof {
            assert(self.buffer@.subrange(0, self.position as int) =~= old_buffer.subrange(0, self.position as int));
        }
        self.capacity = new_capacity;
    }

    /// Appends `bytes`, growing the buffer first when they do not fit.
    pub fn emit_bytes(&mut self, bytes: &[u8])
        requires
            old(self).wf(),
            old(self).can_emit(bytes@.len()),
        ensures
            final(self).wf(),
            final(self).bytes() == old(self).bytes() + bytes@,
    {
        let new_pos = self.position + bytes.len();
        if new_pos > self.capacity {
            self.grow_buffer(new_pos);
        }
        self.emit_unchecked(bytes);
    }

    /// Appends a sequence of instruction blocks, growing the buffer once for
    /// all of them when they do not fit.
    pub fn emit_bulk_instructions(&mut self, instruction_blocks: &[&[u8]])
        requires
            old(self).wf(),
            old(self).can_emit(concat_blocks(instruction_blocks@).len()),
        ensures
            final(self).wf(),
            final(self).bytes() == old(self).bytes() + concat_blocks(instruction_blocks@),
    {
        let ghost blocks = instruction_blocks@;
        let n = instruction_blocks.len();
        let mut total_size: usize = 0;
        let mut i: usize = 0;
        proof {
            assert(blocks.subrange(0, n as int) =~= blocks);
        }
        while i < n
            invariant
                n == blocks.len(),
                blocks == instruction_blocks@,
                i <= n,
                total_size == concat_blocks(blocks.subrange(0, i as int)).len(),
                self.position + concat_blocks(blocks).len() <= usize::MAX,
            decreases n - i,
        {
            proof {
                assert(blocks.subrange(0, i + 1).drop_last() =~= blocks.subrange(0, i as int));
                lemma_concat_prefix_len(blocks, i + 1, n as int);
                assert(blocks.subrange(0, n as int) =~= blocks);
            }
            total_size = total_size + instruction_blocks[i].len();
            i = i + 1;
        }
        proof {
            assert(blocks.subrange(0, n as int) =~= blocks);
        }
        let new_pos = self.position + total_size;
        if new_pos > self.capacity {
            self.grow_buffer(new_pos);
        }
        let ghost start_bytes = self.bytes();
        let mut j: usize = 0;
        while j < n
            invariant
                n == blocks.len(),
                blocks == instruction_blocks@,
                j <= n,
                self.wf(),
                new_pos == start_bytes.len() + concat_blocks(blocks).len(),
                new_pos <= self.capacity_of(),
                self.bytes() == start_bytes + concat_blocks(blocks.subrange(0, j as int)),
            decreases n - j,
        {
            proof {
                assert(blocks.subrange(0, j + 1).drop_last() =~= blocks.subrange(0, j as int));
                lemma_concat_prefix_len(blocks, j + 1, n as int);
                assert(blocks.subrange(0, n as int) =~= blocks);
            }
            self.emit_unchecked(instruction_blocks[j]);
            proof {
                assert(start_bytes + concat_blocks(blocks.subrange(0, j + 1)) =~= start_bytes
                    + concat_blocks(blocks.subrange(0, j as int)) + blocks[j as int]@);
            }
            j = j + 1;
        }
        proof {
            assert(blocks.subrange(0, n as int) =~= blocks);
        }
    }

    /// The instruction bytes emitted so far.
    pub fn as_bytes(&self) -> (s: &[u8])
        requires
            self.wf(),
        ensures
            s@ == self.bytes(),
    {
        byte_prefix(&self.buffer, self.position)
    }
}

/// Encoding of a 256-bit packed integer add (AVX2 `VPADDD`).
pub open spec fn avx2_add_bytes() -> Seq<u8> {
    seq![0xC5u8, 0xF5u8, 0xFEu8, 0xC1u8]
}

/// Encoding of the scalar `ADD %rax, %rcx`.
pub open spec fn scalar_add_bytes() -> Seq<u8> {
    seq![0x48u8, 0x01u8, 0xC1u8]
}

/// Vectorising emitter for numeric operations.
#[derive(Debug, Clone, Copy)]
pub struct SIMDOptimizer {
    target_width: usize,
    features: TargetFeatures,
}

impl SIMDOptimizer {
    /// Number of lanes processed at once.
    pub closed spec fn width(&self) -> usize {
        self.target_width
    }

    /// CPU features the emitter targets.
    pub closed spec fn target(&self) -> TargetFeatures {
        self.features
    }

    /// An emitter for the given features: 8 lanes with AVX-512, 4 with AVX2,
    /// otherwise the SSE2 baseline of 2.
    pub fn new(features: TargetFeatures) -> (o: Self)
        ensures
            o.target() == features,
            o.width() == if features.avx512 {
                8usize
            } else if features.avx2 {
                4usize
            } else {
                2usize
            },
    {
        let target_width = if features.avx512 {
            8
        } else if features.avx2 {
            4
        } else {
            2
        };
        SIMDOptimizer { target_width, features }
    }

    /// Emits an integer add: the AVX2 form when the target has AVX2, the
    /// scalar form otherwise.
    pub fn generate_vectorized_add(&self, buffer: &mut InstructionBuffer) -> (r: Result<(), LambdustError>)
        requires
            old(buffer).wf(),
            old(buffer).can_emit(4),
        ensures
            r is Ok,
            final(buffer).wf(),
            final(buffer).bytes() == old(buffer).bytes() + if self.target().avx2 {
                avx2_add_bytes()
            } else {
                scalar_add_bytes()
            },
    {
        if self.features.avx2 {
            self.emit_avx2_add(buffer)
        } else {
            self.emit_scalar_add(buffer)
        }
    }

    /// Emits the AVX2 packed integer add.
    pub fn emit_avx2_add(&self, buffer: &mut InstructionBuffer) -> (r: Result<(), LambdustError>)
        requires
            old(buffer).wf(),
            old(buffer).can_emit(4),
        ensures
            r is Ok,
            final(buffer).wf(),
            final(buffer).bytes() == old(buffer).bytes() + avx2_add_bytes(),
    {
        let code: [u8; 4] = [0xC5, 0xF5, 0xFE, 0xC1];
        proof {
            assert(code@ =~= avx2_add_bytes());
        }
        buffer.emit_bytes(code.as_slice());
        Ok(())
    }

    /// Emits the scalar add.
    pub fn emit_scalar_add(&self, buffer: &mut InstructionBuffer) -> (r: Result<(), LambdustError>)
        requires
            old(buffer).wf(),
            old(buffer).can_emit(3),
        ensures
            r is Ok,
            final(buffer).wf(),
            final(buffer).bytes() == old(buffer).bytes() + scalar_add_bytes(),
    {
        let code: [u8; 3] = [0x48, 0x01, 0xC1];
        proof {
            assert(code@ =~= scalar_add_bytes());
        }
        buffer.emit_bytes(code.as_slice());
        Ok(())
    }
}

/// `o` rounded up to a multiple of 8 by masking.
pub open spec fn align_up_8(o: i32) -> i32 {
    ((o + 7) as i32) & !7i32
}

/// Rounding a stack offset up to a multiple of 8 moves it by at most 7.
pub proof fn lemma_align_up_8(o: i32)
    requires
        o + 7 <= i32::MAX,
    ensures
        align_up_8(o) & 7 == 0,
        o <= align_up_8(o) <= o + 7,
{
    let y = (o + 7) as i32;
    assert((y & !7i32) & 7 == 0 && y - 7 <= (y & !7i32) <= y) by (bit_vector);
}

/// `x` placed into the offset-sorted `sorted` after every root whose offset
/// is not above its own, so that roots with equal offsets keep their order.
pub open spec fn insert_by_offset(sorted: Seq<GcRoot>, x: GcRoot) -> Seq<GcRoot>
    decreases sorted.len(),
{
    if sorted.len() == 0 {
        seq![x]
    } else if sorted.last().stack_offset <= x.stack_offset {
        sorted.push(x)
    } else {
        insert_by_offset(sorted.drop_last(), x).push(sorted.last())
    }
}

/// Roots stably sorted by stack offset.
pub open spec fn sort_by_offset(s: Seq<GcRoot>) -> Seq<GcRoot>
    decreases s.len(),
{
    if s.len() == 0 {
        s
    } else {
        insert_by_offset(sort_by_offset(s.drop_last()), s.last())
    }
}

/// Roots ordered by non-decreasing stack offset.
pub open spec fn offsets_sorted(s: Seq<GcRoot>) -> bool {
    forall|i: int, j: int| 0 <= i <= j < s.len() ==> s[i].stack_offset <= s[j].stack_offset
}

/// A root with its offset aligned to 8 bytes.
pub open spec fn aligned_root(r: GcRoot) -> GcRoot {
    GcRoot { stack_offset: align_up_8(r.stack_offset), root_type: r.root_type }
}

proof fn lemma_insert_at(sorted: Seq<GcRoot>, x: GcRoot, j: int)
    requires
        0 <= j <= sorted.len(),
        forall|k: int| j <= k < sorted.len() ==> sorted[k].stack_offset > x.stack_offset,
        j == 0 || sorted[j - 1].stack_offset <= x.stack_offset,
    ensures
        insert_by_offset(sorted, x) == sorted.insert(j, x),
    decreases sorted.len(),
{
    if sorted.len() == 0 {
        assert(sorted.insert(j, x) =~= seq![x]);
    } else if sorted.last().stack_offset <= x.stack_offset {
        assert(sorted.insert(j, x) =~= sorted.push(x));
    } else {
        lemma_insert_at(sorted.drop_last(), x, j);
        assert(sorted.insert(j, x) =~= sorted.drop_last().insert(j, x).push(sorted.last()));
    }
}

proof fn lemma_insert_keeps_order(sorted: Seq<GcRoot>, x: GcRoot)
    requires
        offsets_sorted(sorted),
    ensures
        offsets_sorted(insert_by_offset(sorted, x)),
        insert_by_offset(sorted, x).to_multiset() == sorted.to_multiset().insert(x),
        insert_by_offset(sorted, x).len() == sorted.len() + 1,
    decreases sorted.len(),
{
    broadcast use vstd::seq_lib::group_to_multiset_ensures;
    if sorted.len() == 0 {
        assert(seq![x] =~= Seq::<GcRoot>::empty().push(x));
    } else if sorted.last().stack_offset <= x.stack_offset {
    } else {
        let rest = sorted.drop_last();
        assert(sorted =~= rest.push(sorted.last()));
        lemma_insert_keeps_order(rest, x);
        let ins = insert_by_offset(rest, x);
        assert forall|k: int| 0 <= k < ins.len() implies ins[k].stack_offset <= sorted.last().stack_offset by {
            assert(ins.to_multiset().count(ins[k]) > 0);
            if ins[k] != x {
                assert(rest.to_multiset().count(ins[k]) > 0);
                assert(rest.contains(ins[k]));
            }
        }
    }
}

/// Stable sorting by offset keeps exactly the same roots and orders them by
/// non-decreasing offset.
pub proof fn lemma_sort_by_offset(s: Seq<GcRoot>)
    ensures
        offsets_sorted(sort_by_offset(s)),
        sort_by_offset(s).to_multiset() == s.to_multiset(),
        sort_by_offset(s).len() == s.len(),
    decreases s.len(),
{
    broadcast use vstd::seq_lib::group_to_multiset_ensures;
    if s.len() > 0 {
        lemma_sort_by_offset(s.drop_last());
        lemma_insert_keeps_order(sort_by_offset(s.drop_last()), s.last());
        assert(s =~= s.drop_last().push(s.last()));
    }
}

/// Lays out stack frames and GC roots for cache-friendly access.
#[derive(Debug, Clone, Copy)]
pub struct MemoryLayoutOptimizer {
    cache_line_size: usize,
    page_size: usize,
}

impl MemoryLayoutOptimizer {
    #[verifier::type_invariant]
    spec fn inv(self) -> bool {
        self.cache_line_size == 64 && self.page_size == 4096
    }

    /// Cache line size the optimizer aligns to.
    pub closed spec fn line_size(&self) -> usize {
        self.cache_line_size
    }

    /// Page size the optimizer assumes.
    pub closed spec fn page_bytes(&self) -> usize {
        self.page_size
    }

    /// An optimizer for 64-byte cache lines and 4096-byte pages.
    pub fn new() -> (o: Self)
        ensures
            o.line_size() == 64,
            o.page_bytes() == 4096,
    {
        MemoryLayoutOptimizer { cache_line_size: 64, page_size: 4096 }
    }

    /// Rounds the stack frame up to a whole cache line, then sorts and aligns
    /// the GC roots.
    pub fn optimize_layout(&self, layout: &mut MemoryLayout)
        requires
            old(layout).stack_frame_size + 64 <= usize::MAX,
            forall|i: int| 0 <= i < old(layout).gc_roots@.len() ==> old(layout).gc_roots@[i].stack_offset + 7 <= i32::MAX,
        ensures
            final(layout).stack_frame_size == align_up_64(old(layout).stack_frame_size),
            final(layout).gc_roots@ == sort_by_offset(old(layout).gc_roots@).map_values(|r: GcRoot| aligned_root(r)),
            final(layout).memory_requirements == old(layout).memory_requirements,
    {
        proof {
            use_type_invariant(self);
            lemma_align_up_64(layout.stack_frame_size);
        }
        layout.stack_frame_size = (layout.stack_frame_size + self.cache_line_size - 1) & !(self.cache_line_size - 1);
        self.optimize_gc_roots(layout);
    }

    /// Sorts the GC roots by stack offset, keeping the order of roots with
    /// equal offsets, and rounds each offset up to a multiple of 8.
    pub fn optimize_gc_roots(&self, layout: &mut MemoryLayout)
        requires
            forall|i: int| 0 <= i < old(layout).gc_roots@.len() ==> old(layout).gc_roots@[i].stack_offset + 7 <= i32::MAX,
        ensures
            final(layout).gc_roots@ == sort_by_offset(old(layout).gc_roots@).map_values(|r: GcRoot| aligned_root(r)),
            final(layout).stack_frame_size == old(layout).stack_frame_size,
            final(layout).memory_requirements == old(layout).memory_requirements,
    {
        let ghost roots = layout.gc_roots@;
        let n = layout.gc_roots.len();
        let mut sorted: Vec<GcRoot> = Vec::new();
        let mut i: usize = 0;
        while i < n
            invariant
                n == roots.len(),
                layout.gc_roots@ == roots,
                i <= n,
                sorted@ == sort_by_offset(roots.subrange(0, i as int)),
            decreases n - i,
        {
            let x = layout.gc_roots[i];
            let mut j = sorted.len();
            while j > 0 && sorted[j - 1].stack_offset > x.stack_offset
                invariant
                    j <= sorted.len(),
                    forall|k: int| j <= k < sorted.len() ==> sorted@[k].stack_offset > x.stack_offset,
                decreases j,
            {
                j = j - 1;
            }
            proof {
                lemma_insert_at(sorted@, x, j as int);
                assert(roots.subrange(0, i + 1).drop_last() =~= roots.subrange(0, i as int));
            }
            sorted.insert(j, x);
            i = i + 1;
        }
        proof {
            assert(roots.subrange(0, n as int) =~= roots);
            lemma_sort_by_offset(roots);
            assert forall|k: int| 0 <= k < sorted@.len() implies sorted@[k].stack_offset + 7 <= i32::MAX by {
                broadcast use vstd::seq_lib::group_to_multiset_ensures;
                assert(sorted@.contains(sorted@[k]));
                assert(sorted@.to_multiset().count(sorted@[k]) > 0);
                assert(roots.to_multiset().count(sorted@[k]) > 0);
                assert(roots.contains(sorted@[k]));
            }
        }
        let mut aligned: Vec<GcRoot> = Vec::new();
        let mut k: usize = 0;
        while k < sorted.len()
            invariant
                k <= sorted.len(),
                forall|m: int| 0 <= m < sorted@.len() ==> sorted@[m].stack_offset + 7 <= i32::MAX,
                aligned@ == sorted@.subrange(0, k as int).map_values(|r: GcRoot| aligned_root(r)),
            decreases sorted.len() - k,
        {
            let r = sorted[k];
            aligned.push(GcRoot { stack_offset: (r.stack_offset + 7) & !7i32, root_type: r.root_type });
            proof {
                assert(sorted@.subrange(0, k + 1).map_values(|r: GcRoot| aligned_root(r)) =~= sorted@.subrange(
                    0,
                    k as int,
                ).map_values(|r: GcRoot| aligned_root(r)).push(aligned_root(r)));
            }
            k = k + 1;
        }
        proof {
            assert(sorted@.subrange(0, sorted@.len() as int) =~= sorted@);
        }
        layout.gc_roots = aligned;
    }
}

/// Known types of variables, looked up by name.
#[derive(Debug, Clone)]
pub struct TypeInfo {
    variable_types: Vec<(String, SchemeType)>,
}

/// The type recorded first for `name` among `entries`.
pub open spec fn type_lookup(entries: Seq<(String, SchemeType)>, name: Seq<char>) -> Option<SchemeType>
    decreases entries.len(),
{
    if entries.len() == 0 {
        None
    } else if entries[0].0@ == name {
        Some(entries[0].1)
    } else {
        type_lookup(entries.drop_first(), name)
    }
}

impl TypeInfo {
    /// The recorded variable types.
    pub closed spec fn entries(&self) -> Seq<(String, SchemeType)> {
        self.variable_types@
    }

    /// Type information with no variable types known.
    pub fn new() -> (t: Self)
        ensures
            t.entries().len() == 0,
    {
        TypeInfo { variable_types: Vec::new() }
    }

    /// The recorded type of variable `name`, if any.
    pub fn get_variable_type(&self, name: &str) -> (r: Option<SchemeType>)
        ensures
            r == type_lookup(self.entries(), name@),
    {
        let mut i: usize = 0;
        proof {
            assert(self.entries().subrange(0, self.entries().len() as int) =~= self.entries());
        }
        while i < self.variable_types.len()
            invariant
                i <= self.variable_types.len(),
                type_lookup(self.entries(), name@) == type_lookup(self.entries().subrange(i as int, self.entries().len() as int), name@),
            decreases self.variable_types.len() - i,
        {
            let ghost rest = self.entries().subrange(i as int, self.entries().len() as int);
            if same_text(&self.variable_types[i].0, name) {
                return Some(self.variable_types[i].1);
            }
            proof {
                assert(rest.drop_first() =~= self.entries().subrange(i + 1, self.entries().len() as int));
            }
            i = i + 1;
        }
        None
    }

    /// The type an expression is known to have: literals by their kind,
    /// variables by their recorded type, anything else `Any`.
    pub fn infer_expr_type(&self, expr: &Expr) -> (t: SchemeType)
        ensures
            t == match *expr {
                Expr::Literal(Value::Number(SchemeNumber::Integer(_))) => SchemeType::Integer,
                Expr::Literal(Value::Boolean(_)) => SchemeType::Boolean,
                Expr::Literal(Value::String(_)) => SchemeType::String,
                Expr::Variable(name) => match type_lookup(self.entries(), name@) {
                    Some(ty) => ty,
                    None => SchemeType::Any,
                },
                _ => SchemeType::Any,
            },
    {
        match expr {
            Expr::Literal(Value::Number(SchemeNumber::Integer(_))) => SchemeType::Integer,
            Expr::Literal(Value::Boolean(_)) => SchemeType::Boolean,
            Expr::Literal(Value::String(_)) => SchemeType::String,
            Expr::Variable(name) => match self.get_variable_type(name.as_str()) {
                Some(ty) => ty,
                None => SchemeType::Any,
            },
            _ => SchemeType::Any,
        }
    }

    /// The type an expression returns; no return types are inferred yet.
    pub fn infer_return_type(&self, expr: &Expr) -> (t: SchemeType)
        ensures
            t == SchemeType::Any,
    {
        SchemeType::Any
    }
}

} // verus!
