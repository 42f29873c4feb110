//! Compilation tiers, from the tree-walking interpreter up to optimized native
//! code, and the per-expression execution record that tier decisions read.
use vstd::prelude::*;
use crate::jit::code_generator::NativeCode;
use crate::time::{Duration, MAX_NANOS};
use crate::value::{expr_text, expression_text, Expr};
use crate::formal_verification::core_types::same_text;

verus! {

/// Number of recent executions kept for trend analysis.
pub const TREND_WINDOW: usize = 20;

/// Fewest recorded executions from which a trend is reported.
pub const TREND_MIN_SAMPLES: usize = 10;

/// Compilation tiers in ascending order of optimization.
#[derive(Debug, Clone, Copy, PartialEq, Eq, PartialOrd, Ord, Hash, Structural)]
pub enum CompilationTier {
    /// Direct AST interpretation - fastest to start, slowest execution
    Interpreter,
    /// Stack-based bytecode - moderate startup cost, good execution speed
    Bytecode,
    /// Basic JIT with simple optimizations
    JitBasic,
    /// Optimized JIT with aggressive optimizations
    JitOptimized,
}

/// Position of a tier in the ascending order of optimization.
pub open spec fn tier_level(t: CompilationTier) -> nat {
    match t {
        CompilationTier::Interpreter => 0,
        CompilationTier::Bytecode => 1,
        CompilationTier::JitBasic => 2,
        CompilationTier::JitOptimized => 3,
    }
}

/// Display name of a tier.
pub open spec fn tier_name(t: CompilationTier) -> Seq<char> {
    match t {
        CompilationTier::Interpreter => "Interpreter"@,
        CompilationTier::Bytecode => "Bytecode"@,
        CompilationTier::JitBasic => "JIT Basic"@,
        CompilationTier::JitOptimized => "JIT Optimized"@,
    }
}

/// Expected compilation time of a tier, in nanoseconds.
pub open spec fn tier_compilation_nanos(t: CompilationTier) -> nat {
    match t {
        CompilationTier::Interpreter => 0,
        CompilationTier::Bytecode => 100_000,
        CompilationTier::JitBasic => 5_000_000,
        CompilationTier::JitOptimized => 50_000_000,
    }
}

/// The tier one step up, if there is one.
pub open spec fn next_tier_of(t: CompilationTier) -> Option<CompilationTier> {
    match t {
        CompilationTier::Interpreter => Some(CompilationTier::Bytecode),
        CompilationTier::Bytecode => Some(CompilationTier::JitBasic),
        CompilationTier::JitBasic => Some(CompilationTier::JitOptimized),
        CompilationTier::JitOptimized => None,
    }
}

impl CompilationTier {
    /// Returns the name of this compilation tier.
    pub fn name(&self) -> (s: &'static str)
        ensures
            s@ == tier_name(*self),
    {
        match self {
            CompilationTier::Interpreter => "Interpreter",
            CompilationTier::Bytecode => "Bytecode",
            CompilationTier::JitBasic => "JIT Basic",
            CompilationTier::JitOptimized => "JIT Optimized",
        }
    }

    /// Returns the expected compilation time for this tier.
    pub fn compilation_time(&self) -> (d: Duration)
        ensures
            d@ == tier_compilation_nanos(*self),
    {
        match self {
            CompilationTier::Interpreter => Duration::zero(),
            CompilationTier::Bytecode => Duration::from_micros(100),
            CompilationTier::JitBasic => Duration::from_millis(5),
            CompilationTier::JitOptimized => Duration::from_millis(50),
        }
    }

    /// Returns the next higher tier, if any.
    pub fn next_tier(&self) -> (r: Option<CompilationTier>)
        ensures
            r == next_tier_of(*self),
    {
        match self {
            CompilationTier::Interpreter => Some(CompilationTier::Bytecode),
            CompilationTier::Bytecode => Some(CompilationTier::JitBasic),
            CompilationTier::JitBasic => Some(CompilationTier::JitOptimized),
            CompilationTier::JitOptimized => None,
        }
    }
}

/// Stepping up a tier moves exactly one place up the order, only the top
/// tier has no successor, and a higher tier always costs more compilation time.
pub proof fn lemma_tier_order(a: CompilationTier, b: CompilationTier)
    ensures
        next_tier_of(a) matches Some(n) ==> tier_level(n) == tier_level(a) + 1,
        next_tier_of(a) is None <==> a == CompilationTier::JitOptimized,
        tier_level(a) < tier_level(b) ==> tier_compilation_nanos(a) < tier_compilation_nanos(b),
        tier_level(a) == tier_level(b) ==> a == b,
{
}

/// Tier transition reason.
#[derive(Debug, Clone)]
pub enum TierTransition {
    /// Automatic tier-up based on execution profile
    AutoTierUp { from: CompilationTier, to: CompilationTier, reason: String },
    /// Forced tier-up (e.g., user request)
    ForcedTierUp { from: CompilationTier, to: CompilationTier },
    /// Deoptimization (tier-down due to failed assumptions)
    Deoptimization { from: CompilationTier, to: CompilationTier, reason: String },
    /// Speculative compilation
    SpeculativeCompilation { to: CompilationTier, reason: String },
}

/// Performance trend analysis.
#[derive(Debug, Clone, Copy, PartialEq, Eq, Structural)]
pub enum PerformanceTrend {
    /// Performance is improving over time
    Improving,
    /// Performance is stable
    Stable,
    /// Performance is degrading over time
    Degrading,
    /// Insufficient data to determine trend
    Insufficient,
}

/// Total length of a sequence of spans, in nanoseconds.
pub open spec fn total_nanos(s: Seq<Duration>) -> nat
    decreases s.len(),
{
    if s.len() == 0 {
        0
    } else {
        total_nanos(s.drop_last()) + s.last()@
    }
}

/// The recorded window after one more execution: the oldest entry leaves once
/// the window is full.
pub open spec fn window_push(s: Seq<Duration>, t: Duration) -> Seq<Duration> {
    if s.len() + 1 > TREND_WINDOW {
        s.push(t).remove(0)
    } else {
        s.push(t)
    }
}

/// Trend of a window of execution times: the mean of the later half against the
/// mean of the earlier half. A ratio below 0.9 is an improvement, above 1.1 a
/// degradation; an earlier half of zero length in time counts any later time as
/// a degradation.
pub open spec fn trend_of(s: Seq<Duration>) -> PerformanceTrend {
    if s.len() < TREND_MIN_SAMPLES {
        PerformanceTrend::Insufficient
    } else {
        let mid = s.len() / 2;
        let s1 = total_nanos(s.subrange(0, mid as int));
        let s2 = total_nanos(s.subrange(mid as int, s.len() as int));
        let n1 = mid;
        let n2 = s.len() - mid;
        if s1 == 0 {
            if s2 > 0 {
                PerformanceTrend::Degrading
            } else {
                PerformanceTrend::Stable
            }
        } else if 10 * s2 * n1 < 9 * s1 * n2 {
            PerformanceTrend::Improving
        } else if 10 * s2 * n1 > 11 * s1 * n2 {
            PerformanceTrend::Degrading
        } else {
            PerformanceTrend::Stable
        }
    }
}

proof fn lemma_total_nanos_constant(s: Seq<Duration>, c: nat)
    requires
        forall|i: int| 0 <= i < s.len() ==> (#[trigger] s[i])@ == c,
    ensures
        total_nanos(s) == s.len() * c,
    decreases s.len(),
{
    if s.len() > 0 {
        lemma_total_nanos_constant(s.drop_last(), c);
        assert(s.last()@ == c);
        assert((s.len() - 1) * c + c == s.len() * c) by (nonlinear_arith);
    }
}

/// Steady execution times give a stable trend once there are enough of them.
pub proof fn lemma_steady_times_are_stable(s: Seq<Duration>, c: nat)
    requires
        s.len() >= TREND_MIN_SAMPLES,
        forall|i: int| 0 <= i < s.len() ==> (#[trigger] s[i])@ == c,
    ensures
        trend_of(s) == PerformanceTrend::Stable,
{
    let mid = s.len() / 2;
    let first = s.subrange(0, mid as int);
    let second = s.subrange(mid as int, s.len() as int);
    assert forall|i: int| 0 <= i < first.len() implies (#[trigger] first[i])@ == c by {
        assert(first[i] == s[i]);
    }
    assert forall|i: int| 0 <= i < second.len() implies (#[trigger] second[i])@ == c by {
        assert(second[i] == s[i + mid]);
    }
    lemma_total_nanos_constant(first, c);
    lemma_total_nanos_constant(second, c);
    let n1 = mid as int;
    let n2 = (s.len() - mid) as int;
    assert(10 * (n2 * c) * n1 >= 9 * (n1 * c) * n2 && 10 * (n2 * c) * n1 <= 11 * (n1 * c) * n2) by (nonlinear_arith)
        requires
            n1 >= 0,
            n2 >= 0,
            c >= 0,
    ;
    assert(c > 0 ==> n1 * c > 0) by (nonlinear_arith)
        requires
            n1 >= 5,
    ;
    assert(total_nanos(first) == n1 * c);
    assert(total_nanos(second) == n2 * c);
    if c == 0 {
        assert(n1 * c == 0 && n2 * c == 0) by (nonlinear_arith)
            requires
                c == 0,
        ;
    }
}

/// Performance metrics over a sliding window of recent execution times.
#[derive(Debug)]
pub struct PerformanceMetrics {
    execution_times: Vec<Duration>,
    window_size: usize,
}

impl Clone for PerformanceMetrics {
    fn clone(&self) -> (r: Self)
        ensures
            r.times() == self.times(),
    {
        proof {
            use_type_invariant(self);
        }
        let mut times: Vec<Duration> = Vec::new();
        let mut i: usize = 0;
        while i < self.execution_times.len()
            invariant
                i <= self.execution_times.len() <= TREND_WINDOW,
                times@ == self.execution_times@.subrange(0, i as int),
            decreases self.execution_times.len() - i,
        {
            times.push(self.execution_times[i]);
            i = i + 1;
        }
        PerformanceMetrics { execution_times: times, window_size: self.window_size }
    }
}

/// Sum of the spans `v[lo..hi]`, in nanoseconds.
fn sum_nanos_range(v: &Vec<Duration>, lo: usize, hi: usize) -> (s: u128)
    requires
        lo <= hi <= v.len(),
        hi - lo <= TREND_WINDOW,
    ensures
        s == total_nanos(v@.subrange(lo as int, hi as int)),
        s <= (hi - lo) * 18_446_744_073_709_551_616_000_000_000,
{
    let mut acc: u128 = 0;
    let mut i = lo;
    while i < hi
        invariant
            lo <= i <= hi,
            hi <= v.len(),
            hi - lo <= TREND_WINDOW,
            acc == total_nanos(v@.subrange(lo as int, i as int)),
            acc <= (i - lo) * 18_446_744_073_709_551_616_000_000_000,
        decreases hi - i,
    {
        let n = v[i].as_nanos();
        proof {
            assert(v@.subrange(lo as int, i + 1 as int).drop_last() =~= v@.subrange(lo as int, i as int));
        }
        acc = acc + n;
        i = i + 1;
    }
    acc
}

impl PerformanceMetrics {
    #[verifier::type_invariant]
    spec fn inv(self) -> bool {
        &&& self.window_size == TREND_WINDOW
        &&& self.execution_times.len() <= TREND_WINDOW
    }

    /// The recorded execution times, oldest first.
    pub closed spec fn times(&self) -> Seq<Duration> {
        self.execution_times@
    }

    /// An empty window of the default size.
    pub fn new() -> (m: Self)
        ensures
            m.times() == Seq::<Duration>::empty(),
    {
        PerformanceMetrics { execution_times: Vec::new(), window_size: TREND_WINDOW }
    }

    /// Records one execution time, dropping the oldest once the window is full.
    pub fn record_execution(&mut self, execution_time: Duration)
        ensures
            final(self).times() == window_push(old(self).times(), execution_time),
            final(self).times().len() <= TREND_WINDOW,
            final(self).times().last() == execution_time,
    {
        proof {
            use_type_invariant(&*self);
        }
        let mut times: Vec<Duration> = Vec::new();
        std::mem::swap(&mut times, &mut self.execution_times);
        times.push(execution_time);
        if times.len() > self.window_size {
            times.remove(0);
        }
        self.execution_times = times;
    }

    /// The trend over the recorded window.
    pub fn trend(&self) -> (t: PerformanceTrend)
        ensures
            t == trend_of(self.times()),
    {
        proof {
            use_type_invariant(self);
        }
        let len = self.execution_times.len();
        if len < TREND_MIN_SAMPLES {
            return PerformanceTrend::Insufficient;
        }
        let mid = len / 2;
        let s1 = sum_nanos_range(&self.execution_times, 0, mid);
        let s2 = sum_nanos_range(&self.execution_times, mid, len);
        let n1 = mid as u128;
        let n2 = (len - mid) as u128;
        if s1 == 0 {
            if s2 > 0 {
                PerformanceTrend::Degrading
            } else {
                PerformanceTrend::Stable
            }
        } else {
            assert(10 * s2 * n1 <= 10 * 400_000_000_000_000_000_000_000_000_000 * 20) by (nonlinear_arith)
                requires
                    s2 <= 400_000_000_000_000_000_000_000_000_000,
                    n1 <= 20,
            ;
            assert(11 * s1 * n2 <= 11 * 400_000_000_000_000_000_000_000_000_000 * 20
                && 9 * s1 * n2 <= 9 * 400_000_000_000_000_000_000_000_000_000 * 20) by (nonlinear_arith)
                requires
                    s1 <= 400_000_000_000_000_000_000_000_000_000,
                    n2 <= 20,
            ;
            let later = 10 * s2 * n1;
            if later < 9 * s1 * n2 {
                PerformanceTrend::Improving
            } else if later > 11 * s1 * n2 {
                PerformanceTrend::Degrading
            } else {
                PerformanceTrend::Stable
            }
        }
    }
}

/// Compiled code entry for different tiers.
#[derive(Debug, Clone)]
pub struct TieredCode {
    /// Current compilation tier
    pub tier: CompilationTier,
    /// Native code representation (if compiled to JIT tiers)
    pub native_code: Option<NativeCode>,
    /// Compilation time for this tier
    pub compilation_time: Duration,
    /// Number of times this code has been executed
    pub execution_count: u64,
    /// Total execution time
    pub total_execution_time: Duration,
    /// Average execution time
    pub avg_execution_time: Duration,
    /// Performance metrics since last tier change
    pub performance_since_tier_change: PerformanceMetrics,
}

impl TieredCode {
    /// Creates a new tiered code entry with nothing executed yet.
    pub fn new(tier: CompilationTier) -> (c: Self)
        ensures
            c.tier == tier,
            c.native_code is None,
            c.compilation_time@ == 0,
            c.execution_count == 0,
            c.total_execution_time@ == 0,
            c.avg_execution_time@ == 0,
            c.performance_since_tier_change.times() == Seq::<Duration>::empty(),
    {
        TieredCode {
            tier,
            native_code: None,
            compilation_time: Duration::zero(),
            execution_count: 0,
            total_execution_time: Duration::zero(),
            avg_execution_time: Duration::zero(),
            performance_since_tier_change: PerformanceMetrics::new(),
        }
    }

    /// Records one execution: the count and total grow, the average is the
    /// total divided by the count taken as a `u32`, and the time enters the
    /// trend window.
    pub fn record_execution(&mut self, execution_time: Duration)
        requires
            old(self).execution_count < u64::MAX,
            old(self).total_execution_time@ + execution_time@ <= MAX_NANOS,
            (old(self).execution_count + 1) % 0x1_0000_0000 != 0,
        ensures
            final(self).execution_count == old(self).execution_count + 1,
            final(self).total_execution_time@ == old(self).total_execution_time@ + execution_time@,
            final(self).avg_execution_time@ == crate::time::div_spec(
                final(self).total_execution_time@,
                (final(self).execution_count % 0x1_0000_0000) as nat,
            ),
            final(self).performance_since_tier_change.times() == window_push(
                old(self).performance_since_tier_change.times(),
                execution_time,
            ),
            final(self).tier == old(self).tier,
            final(self).native_code == old(self).native_code,
            final(self).compilation_time == old(self).compilation_time,
    {
        self.execution_count = self.execution_count + 1;
        self.total_execution_time = self.total_execution_time.add(execution_time);
        let divisor = (self.execution_count % 0x1_0000_0000) as u32;
        self.avg_execution_time = self.total_execution_time.div_u32(divisor);
        self.performance_since_tier_change.record_execution(execution_time);
    }

    /// Returns the current performance trend.
    pub fn performance_trend(&self) -> (t: PerformanceTrend)
        ensures
            t == trend_of(self.performance_since_tier_change.times()),
    {
        self.performance_since_tier_change.trend()
    }
}

/// Tier manager statistics.
#[derive(Debug, Clone)]
pub struct TierStats {
    /// Number of compilations by tier
    pub compilations_by_tier: Vec<(CompilationTier, u64)>,
    /// Number of tier transitions
    pub tier_up_transitions: u64,
    /// Number of deoptimizations
    pub deoptimizations: u64,
    /// Number of speculative compilations
    pub speculative_compilations: u64,
    /// Average compilation time by tier
    pub avg_compilation_time: Vec<(CompilationTier, Duration)>,
}

impl TierStats {
    /// Statistics with nothing recorded.
    pub fn new() -> (s: Self)
        ensures
            s.compilations_by_tier@ == Seq::<(CompilationTier, u64)>::empty(),
            s.tier_up_transitions == 0,
            s.deoptimizations == 0,
            s.speculative_compilations == 0,
            s.avg_compilation_time@ == Seq::<(CompilationTier, Duration)>::empty(),
    {
        TierStats {
            compilations_by_tier: Vec::new(),
            tier_up_transitions: 0,
            deoptimizations: 0,
            speculative_compilations: 0,
            avg_compilation_time: Vec::new(),
        }
    }
}

/// Expected speedup of a tier over the interpreter.
pub open spec fn expected_speedup(t: CompilationTier) -> nat {
    match t {
        CompilationTier::Interpreter => 1,
        CompilationTier::Bytecode => 3,
        CompilationTier::JitBasic => 8,
        CompilationTier::JitOptimized => 15,
    }
}

fn speedup_of(t: CompilationTier) -> (n: u64)
    ensures
        n == expected_speedup(t),
{
    match t {
        CompilationTier::Interpreter => 1,
        CompilationTier::Bytecode => 3,
        CompilationTier::JitBasic => 8,
        CompilationTier::JitOptimized => 15,
    }
}

/// Configuration of tier management. The benefit threshold, the speedup of
/// the next tier over the current one, is counted in thousandths.
#[derive(Debug, Clone)]
pub struct TierConfig {
    /// Enable automatic tier transitions based on execution profile
    pub auto_tier_up: bool,
    /// Minimum executions before considering tier-up
    pub tier_up_execution_threshold: u64,
    /// Minimum execution time before considering tier-up
    pub tier_up_time_threshold: Duration,
    /// Cost-benefit threshold for tier transitions, in thousandths
    pub tier_up_benefit_threshold_milli: u64,
    /// Maximum compilation time allowed per tier
    pub max_compilation_time: Vec<(CompilationTier, Duration)>,
    /// Enable speculative compilation (compile to higher tiers preemptively)
    pub enable_speculative_compilation: bool,
    /// Enable deoptimization (fall back to lower tiers if assumptions fail)
    pub enable_deoptimization: bool,
}

impl TierConfig {
    /// Automatic tier-up after 50 executions and 10 ms for a twofold speedup,
    /// compilation limits of 1, 10 and 100 ms for the compiled tiers, and
    /// speculation and deoptimization on.
    pub fn default() -> (c: Self)
        ensures
            c.auto_tier_up,
            c.tier_up_execution_threshold == 50,
            c.tier_up_time_threshold@ == 10_000_000,
            c.tier_up_benefit_threshold_milli == 2000,
            c.max_compilation_time@.len() == 3,
            c.max_compilation_time@[0].0 == CompilationTier::Bytecode && c.max_compilation_time@[0].1@ == 1_000_000,
            c.max_compilation_time@[1].0 == CompilationTier::JitBasic && c.max_compilation_time@[1].1@ == 10_000_000,
            c.max_compilation_time@[2].0 == CompilationTier::JitOptimized && c.max_compilation_time@[2].1@ == 100_000_000,
            c.enable_speculative_compilation,
            c.enable_deoptimization,
    {
        let mut max_compilation_time: Vec<(CompilationTier, Duration)> = Vec::new();
        max_compilation_time.push((CompilationTier::Bytecode, Duration::from_millis(1)));
        max_compilation_time.push((CompilationTier::JitBasic, Duration::from_millis(10)));
        max_compilation_time.push((CompilationTier::JitOptimized, Duration::from_millis(100)));
        TierConfig {
            auto_tier_up: true,
            tier_up_execution_threshold: 50,
            tier_up_time_threshold: Duration::from_millis(10),
            tier_up_benefit_threshold_milli: 2000,
            max_compilation_time,
            enable_speculative_compilation: true,
            enable_deoptimization: true,
        }
    }
}

/// The code recorded under `key`: the first entry with that key.
pub open spec fn code_for(entries: Seq<(String, TieredCode)>, key: Seq<char>) -> Option<TieredCode>
    decreases entries.len(),
{
    if entries.len() == 0 {
        None
    } else if entries[0].0@ == key {
        Some(entries[0].1)
    } else {
        code_for(entries.drop_first(), key)
    }
}

proof fn lemma_code_for_update(s: Seq<(String, TieredCode)>, i: int, x: (String, TieredCode), key: Seq<char>)
    requires
        0 <= i < s.len(),
        x.0@ == s[i].0@,
        forall|j: int| 0 <= j < i ==> #[trigger] s[j].0@ != x.0@,
    ensures
        code_for(s.update(i, x), key) == if key == x.0@ { Some(x.1) } else { code_for(s, key) },
    decreases s.len(),
{
    let u = s.update(i, x);
    if i > 0 {
        assert(u.drop_first() =~= s.drop_first().update(i - 1, x));
        assert forall|j: int| 0 <= j < i - 1 implies #[trigger] s.drop_first()[j].0@ != x.0@ by {
            assert(s.drop_first()[j] == s[j + 1]);
        }
        assert(s[0].0@ != x.0@);
        lemma_code_for_update(s.drop_first(), i - 1, x, key);
    } else {
        assert(u.drop_first() =~= s.drop_first());
    }
}

proof fn lemma_code_for_push(s: Seq<(String, TieredCode)>, x: (String, TieredCode), key: Seq<char>)
    requires
        forall|j: int| 0 <= j < s.len() ==> #[trigger] s[j].0@ != x.0@,
    ensures
        code_for(s.push(x), key) == if key == x.0@ { Some(x.1) } else { code_for(s, key) },
    decreases s.len(),
{
    let u = s.push(x);
    if s.len() == 0 {
        assert(u[0] == x);
        assert(u.drop_first() =~= Seq::<(String, TieredCode)>::empty());
        assert(code_for(u.drop_first(), key) is None);
        assert(code_for(s, key) is None);
    } else {
        assert(u.drop_first() =~= s.drop_first().push(x));
        assert(u[0] == s[0]);
        assert(s[0].0@ != x.0@);
        assert forall|j: int| 0 <= j < s.drop_first().len() implies #[trigger] s.drop_first()[j].0@ != x.0@ by {
            assert(s.drop_first()[j] == s[j + 1]);
        }
        lemma_code_for_push(s.drop_first(), x, key);
    }
}

proof fn lemma_code_for_found(s: Seq<(String, TieredCode)>, i: int)
    requires
        0 <= i < s.len(),
        forall|j: int| 0 <= j < i ==> #[trigger] s[j].0@ != s[i].0@,
    ensures
        code_for(s, s[i].0@) == Some(s[i].1),
    decreases s.len(),
{
    if i > 0 {
        assert(s.drop_first()[i - 1] == s[i]);
        assert forall|j: int| 0 <= j < i - 1 implies #[trigger] s.drop_first()[j].0@ != s[i].0@ by {
            assert(s.drop_first()[j] == s[j + 1]);
        }
        lemma_code_for_found(s.drop_first(), i - 1);
    }
}

proof fn lemma_code_for_none(s: Seq<(String, TieredCode)>, key: Seq<char>)
    requires
        forall|j: int| 0 <= j < s.len() ==> #[trigger] s[j].0@ != key,
    ensures
        code_for(s, key) is None,
    decreases s.len(),
{
    if s.len() > 0 {
        assert forall|j: int| 0 <= j < s.drop_first().len() implies #[trigger] s.drop_first()[j].0@ != key by {
            assert(s.drop_first()[j] == s[j + 1]);
        }
        lemma_code_for_none(s.drop_first(), key);
    }
}

/// The compile count recorded for `tier`: the first entry for it.
pub open spec fn count_for(counts: Seq<(CompilationTier, u64)>, tier: CompilationTier) -> Option<u64>
    decreases counts.len(),
{
    if counts.len() == 0 {
        None
    } else if counts[0].0 == tier {
        Some(counts[0].1)
    } else {
        count_for(counts.drop_first(), tier)
    }
}

proof fn lemma_count_for(s: Seq<(CompilationTier, u64)>, i: int, x: (CompilationTier, u64), t: CompilationTier)
    requires
        0 <= i <= s.len(),
        i < s.len() ==> s[i].0 == x.0,
        forall|j: int| 0 <= j < i ==> #[trigger] s[j].0 != x.0,
    ensures
        count_for(if i < s.len() { s.update(i, x) } else { s.push(x) }, t)
            == if t == x.0 { Some(x.1) } else { count_for(s, t) },
        i < s.len() ==> count_for(s, x.0) == Some(s[i].1),
        i == s.len() ==> count_for(s, x.0) is None,
    decreases s.len(),
{
    let u = if i < s.len() { s.update(i, x) } else { s.push(x) };
    if i == 0 {
        if s.len() == 0 {
            assert(u.drop_first() =~= s);
        } else {
            assert(u.drop_first() =~= s.drop_first());
        }
    } else {
        let t0 = s.drop_first();
        if i < s.len() {
            assert(u.drop_first() =~= t0.update(i - 1, x));
        } else {
            assert(u.drop_first() =~= t0.push(x));
        }
        assert forall|j: int| 0 <= j < i - 1 implies #[trigger] t0[j].0 != x.0 by {
            assert(t0[j] == s[j + 1]);
        }
        if i < s.len() {
            assert(t0[i - 1] == s[i]);
        }
        assert(s[0].0 != x.0);
        lemma_count_for(t0, i - 1, x, t);
    }
}

/// `history` with `t` appended, keeping at most the last thousand.
pub open spec fn history_push(history: Seq<TierTransition>, t: TierTransition) -> Seq<TierTransition> {
    if history.len() + 1 > 1000 { history.push(t).drop_first() } else { history.push(t) }
}

/// The tier a deoptimization falls back to.
pub open spec fn lower_tier(t: CompilationTier) -> CompilationTier {
    match t {
        CompilationTier::JitOptimized => CompilationTier::JitBasic,
        CompilationTier::JitBasic => CompilationTier::Bytecode,
        CompilationTier::Bytecode => CompilationTier::Interpreter,
        CompilationTier::Interpreter => CompilationTier::Interpreter,
    }
}

/// The tier a new expression starts at, from how often it ran and its
/// average time: the interpreter before any run, bytecode for fewer than ten
/// runs, basic JIT when a run averages over a millisecond, else bytecode.
pub open spec fn initial_tier(execution_count: u64, average_time: nat) -> CompilationTier {
    if execution_count == 0 {
        CompilationTier::Interpreter
    } else if execution_count < 10 {
        CompilationTier::Bytecode
    } else if average_time / 1000 > 1000 {
        CompilationTier::JitBasic
    } else {
        CompilationTier::Bytecode
    }
}

/// Whether `code` should move up a tier under `config`: it has a next tier,
/// ran often and long enough, the next tier's speedup over this one reaches
/// the benefit threshold, and its performance is stable or improving.
pub open spec fn should_tier_up_spec(config: TierConfig, code: TieredCode) -> bool {
    &&& next_tier_of(code.tier) is Some
    &&& code.execution_count >= config.tier_up_execution_threshold
    &&& code.total_execution_time@ >= config.tier_up_time_threshold@
    &&& expected_speedup(next_tier_of(code.tier).unwrap()) * 1000
        >= config.tier_up_benefit_threshold_milli * expected_speedup(code.tier)
    &&& (trend_of(code.performance_since_tier_change.times()) == PerformanceTrend::Stable
        || trend_of(code.performance_since_tier_change.times()) == PerformanceTrend::Improving)
}

/// Code moves up a tier only when it ran at least the execution threshold
/// and for at least the time threshold, has a next tier, and its performance
/// is neither degrading nor too little measured; code short of either
/// threshold never moves up.
pub proof fn lemma_tier_up_needs_thresholds(config: TierConfig, code: TieredCode)
    ensures
        should_tier_up_spec(config, code) ==> {
            &&& code.total_execution_time@ >= config.tier_up_time_threshold@
            &&& code.execution_count >= config.tier_up_execution_threshold
            &&& code.tier != CompilationTier::JitOptimized
            &&& trend_of(code.performance_since_tier_change.times()) != PerformanceTrend::Degrading
            &&& trend_of(code.performance_since_tier_change.times()) != PerformanceTrend::Insufficient
        },
        code.total_execution_time@ < config.tier_up_time_threshold@ ==> !should_tier_up_spec(config, code),
        code.execution_count < config.tier_up_execution_threshold ==> !should_tier_up_spec(config, code),
{
}

/// The benefit threshold compares the next tier's expected speedup with the
/// current one's: at the default twofold threshold, bytecode (three times the
/// interpreter) may move to basic JIT (eight times), but basic JIT may not
/// move to optimized JIT (fifteen times, under twice eight).
pub proof fn lemma_default_benefit_threshold(config: TierConfig, code: TieredCode)
    requires
        config.tier_up_benefit_threshold_milli == 2000,
    ensures
        code.tier == CompilationTier::JitBasic ==> !should_tier_up_spec(config, code),
        code.tier == CompilationTier::Bytecode && code.execution_count >= config.tier_up_execution_threshold
            && code.total_execution_time@ >= config.tier_up_time_threshold@
            && trend_of(code.performance_since_tier_change.times()) == PerformanceTrend::Stable
            ==> should_tier_up_spec(config, code),
{
}

/// A new expression starts at the interpreter exactly when it never ran,
/// never above basic JIT, and at basic JIT only after ten runs averaging
/// over a millisecond; more runs never start it lower.
pub proof fn lemma_initial_tier(n: u64, m: u64, avg: nat)
    ensures
        (initial_tier(n, avg) == CompilationTier::Interpreter) <==> n == 0,
        tier_level(initial_tier(n, avg)) <= 2,
        initial_tier(n, avg) == CompilationTier::JitBasic ==> n >= 10 && avg > 1_000_000,
        0 < n <= m ==> tier_level(initial_tier(n, avg)) <= tier_level(initial_tier(m, avg)),
{
}

impl TierManager {
    /// Speculative compilation only proposes the tier just above that of
    /// recorded code that ran more than twenty times, with a promising score
    /// and speculation on.
    pub proof fn lemma_speculation_proposes_next_tier(&self, key: Seq<char>, promising: bool)
        ensures
            self.speculative_proposal(key, promising) matches Some(t) ==> {
                &&& self.code(key) matches Some(c) && tier_level(t) == tier_level(c.tier) + 1 && c.execution_count > 20
                &&& promising
                &&& self.config_view().enable_speculative_compilation
            },
    {
    }
}

/// A deoptimization falls exactly one tier, except at the interpreter.
pub proof fn lemma_deoptimization_falls_one_tier(t: CompilationTier)
    ensures
        t == CompilationTier::Interpreter ==> lower_tier(t) == CompilationTier::Interpreter,
        t != CompilationTier::Interpreter ==> tier_level(lower_tier(t)) + 1 == tier_level(t),
{
}

/// Tier manager for coordinating compilation across tiers.
pub struct TierManager {
    config: TierConfig,
    code_cache: Vec<(String, TieredCode)>,
    transition_history: Vec<TierTransition>,
    stats: TierStats,
}

impl TierManager {
    /// The configuration.
    pub closed spec fn config_view(&self) -> TierConfig {
        self.config
    }

    /// The code recorded for the expression with text `key`.
    pub closed spec fn code(&self, key: Seq<char>) -> Option<TieredCode> {
        code_for(self.code_cache@, key)
    }

    /// The tier transitions recorded, oldest first.
    pub closed spec fn history(&self) -> Seq<TierTransition> {
        self.transition_history@
    }

    /// The statistics.
    pub closed spec fn stats_view(&self) -> TierStats {
        self.stats
    }

    /// The tier speculative compilation proposes for the code under `key`:
    /// with speculation on, the next tier of code that has one, whose benefit
    /// score is above five (`promising`), that ran more than twenty times and
    /// whose performance is stable.
    pub open spec fn speculative_proposal(&self, key: Seq<char>, promising: bool) -> Option<CompilationTier> {
        if !self.config_view().enable_speculative_compilation {
            None
        } else {
            match self.code(key) {
                Some(c) => if next_tier_of(c.tier) is Some && promising && c.execution_count > 20
                    && trend_of(c.performance_since_tier_change.times()) == PerformanceTrend::Stable {
                    next_tier_of(c.tier)
                } else {
                    None
                },
                None => None,
            }
        }
    }

    /// A manager with no code and no transitions.
    pub fn new(config: TierConfig) -> (r: Result<Self, crate::error::LambdustError>)
        ensures
            r matches Ok(m) && {
                &&& m.config_view() == config
                &&& forall|k: Seq<char>| #[trigger] m.code(k) is None
                &&& m.history().len() == 0
                &&& m.stats_view().compilations_by_tier@.len() == 0
                &&& m.stats_view().tier_up_transitions == 0
                &&& m.stats_view().deoptimizations == 0
                &&& m.stats_view().speculative_compilations == 0
            },
    {
        Ok(TierManager { config, code_cache: Vec::new(), transition_history: Vec::new(), stats: TierStats::new() })
    }

    fn find(&self, key: &String) -> (r: Option<usize>)
        ensures
            match r {
                Some(i) => i < self.code_cache@.len() && self.code_cache@[i as int].0@ == key@
                    && (forall|j: int| 0 <= j < i ==> #[trigger] self.code_cache@[j].0@ != key@)
                    && self.code(key@) == Some(self.code_cache@[i as int].1),
                None => (forall|j: int| 0 <= j < self.code_cache@.len() ==> #[trigger] self.code_cache@[j].0@ != key@)
                    && self.code(key@) is None,
            },
    {
        let mut i: usize = 0;
        while i < self.code_cache.len()
            invariant
                i <= self.code_cache@.len(),
                forall|j: int| 0 <= j < i ==> #[trigger] self.code_cache@[j].0@ != key@,
            decreases self.code_cache@.len() - i,
        {
            if same_text(&self.code_cache[i].0, key.as_str()) {
                proof {
                    lemma_code_for_found(self.code_cache@, i as int);
                }
                return Some(i);
            }
            i = i + 1;
        }
        proof {
            lemma_code_for_none(self.code_cache@, key@);
        }
        None
    }

    fn find_tier_count(&self, tier: CompilationTier) -> (j: usize)
        ensures
            j <= self.stats.compilations_by_tier@.len(),
            j < self.stats.compilations_by_tier@.len() ==> self.stats.compilations_by_tier@[j as int].0 == tier,
            forall|k: int| 0 <= k < j ==> #[trigger] self.stats.compilations_by_tier@[k].0 != tier,
    {
        let mut j: usize = 0;
        while j < self.stats.compilations_by_tier.len()
            invariant
                j <= self.stats.compilations_by_tier@.len(),
                forall|k: int| 0 <= k < j ==> #[trigger] self.stats.compilations_by_tier@[k].0 != tier,
            decreases self.stats.compilations_by_tier@.len() - j,
        {
            if self.stats.compilations_by_tier[j].0 == tier {
                return j;
            }
            j = j + 1;
        }
        j
    }

    fn record_transition(&mut self, transition: TierTransition)
        ensures
            final(self).history() == history_push(old(self).history(), transition),
            final(self).code_cache@ == old(self).code_cache@,
            final(self).config == old(self).config,
            final(self).stats == old(self).stats,
    {
        self.transition_history.push(transition);
        if self.transition_history.len() > 1000 {
            self.transition_history.remove(0);
            assert(self.transition_history@ =~= history_push(old(self).history(), transition));
        }
    }

    fn should_tier_up(&self, code: &TieredCode) -> (b: bool)
        ensures
            b == should_tier_up_spec(self.config, *code),
    {
        let next = match code.tier.next_tier() {
            Some(n) => n,
            None => {
                return false;
            },
        };
        let execution_threshold_met = code.execution_count >= self.config.tier_up_execution_threshold;
        let time_threshold_met = code.total_execution_time.as_nanos() >= self.config.tier_up_time_threshold.as_nanos();
        let current = speedup_of(code.tier);
        let threshold = self.config.tier_up_benefit_threshold_milli;
        assert((threshold as u128) * (current as u128) <= 0xffff_ffff_ffff_ffffu128 * 15) by (nonlinear_arith)
            requires
                threshold <= 0xffff_ffff_ffff_ffffu64,
                current <= 15;
        let benefit_threshold_met = (speedup_of(next) as u128) * 1000 >= (threshold as u128) * (current as u128);
        let performance_ok = match code.performance_trend() {
            PerformanceTrend::Stable => true,
            PerformanceTrend::Improving => true,
            _ => false,
        };
        execution_threshold_met && time_threshold_met && benefit_threshold_met && performance_ok
    }

    /// Selects the tier for `expr`, from how often it ran and its average
    /// time. Code already recorded keeps its tier, or, with automatic
    /// tier-up, moves to the next tier when it should (and the move is
    /// recorded); a new expression starts at `initial_tier`.
    pub fn select_tier(&mut self, expr: &Expr, execution_count: u64, average_time: Duration)
        -> (r: Result<CompilationTier, crate::error::LambdustError>)
        ensures
            final(self).config_view() == old(self).config_view(),
            forall|k: Seq<char>| #[trigger] final(self).code(k) == old(self).code(k),
            final(self).stats_view() == old(self).stats_view(),
            match old(self).code(expr_text(*expr)) {
                Some(c) => if old(self).config_view().auto_tier_up && should_tier_up_spec(old(self).config_view(), c) {
                    &&& r == Ok::<CompilationTier, crate::error::LambdustError>(next_tier_of(c.tier).unwrap())
                    &&& exists|reason: String| reason@ == "Execution profile indicates benefit from higher tier"@
                        && final(self).history() == history_push(old(self).history(),
                            TierTransition::AutoTierUp { from: c.tier, to: next_tier_of(c.tier).unwrap(), reason })
                } else {
                    &&& r == Ok::<CompilationTier, crate::error::LambdustError>(c.tier)
                    &&& final(self).history() == old(self).history()
                },
                None => {
                    &&& r == Ok::<CompilationTier, crate::error::LambdustError>(initial_tier(execution_count, average_time@))
                    &&& final(self).history() == old(self).history()
                },
            },
    {
        let key = expression_text(expr);
        match self.find(&key) {
            Some(i) => {
                let tier = self.code_cache[i].1.tier;
                if self.config.auto_tier_up && self.should_tier_up(&self.code_cache[i].1) {
                    match tier.next_tier() {
                        Some(next) => {
                            let reason = String::from_str("Execution profile indicates benefit from higher tier");
                            proof {
                                reveal_strlit("Execution profile indicates benefit from higher tier");
                            }
                            let ghost rs = reason;
                            self.record_transition(TierTransition::AutoTierUp { from: tier, to: next, reason });
                            assert(self.history() == history_push(old(self).history(),
                                TierTransition::AutoTierUp { from: tier, to: next, reason: rs }));
                            return Ok(next);
                        },
                        None => {},
                    }
                }
                Ok(tier)
            },
            None => {
                let initial = if execution_count == 0 {
                    CompilationTier::Interpreter
                } else if execution_count < 10 {
                    CompilationTier::Bytecode
                } else if average_time.as_nanos() / 1000 > 1000 {
                    CompilationTier::JitBasic
                } else {
                    CompilationTier::Bytecode
                };
                Ok(initial)
            },
        }
    }

    /// Records compiled code for `expr` at `tier`: fresh code at that tier,
    /// with the native code and compilation time given, replaces any earlier
    /// code, and the tier's compile count grows by one.
    pub fn record_compiled_code(
        &mut self,
        expr: &Expr,
        tier: CompilationTier,
        native_code: Option<NativeCode>,
        compilation_time: Duration,
    ) -> (r: Result<(), crate::error::LambdustError>)
        requires
            count_for(old(self).stats_view().compilations_by_tier@, tier) matches Some(n) ==> n < u64::MAX,
        ensures
            r is Ok,
            final(self).code(expr_text(*expr)) matches Some(c) && {
                &&& c.tier == tier
                &&& c.native_code == native_code
                &&& c.compilation_time == compilation_time
                &&& c.execution_count == 0
                &&& c.total_execution_time@ == 0
                &&& c.avg_execution_time@ == 0
                &&& c.performance_since_tier_change.times() == Seq::<Duration>::empty()
            },
            forall|k: Seq<char>| k != expr_text(*expr) ==> #[trigger] final(self).code(k) == old(self).code(k),
            count_for(final(self).stats_view().compilations_by_tier@, tier) == Some(
                match count_for(old(self).stats_view().compilations_by_tier@, tier) {
                    Some(n) => (n + 1) as u64,
                    None => 1u64,
                }),
            forall|t: CompilationTier| t != tier ==> #[trigger] count_for(final(self).stats_view().compilations_by_tier@, t)
                == count_for(old(self).stats_view().compilations_by_tier@, t),
            final(self).stats_view().tier_up_transitions == old(self).stats_view().tier_up_transitions,
            final(self).stats_view().deoptimizations == old(self).stats_view().deoptimizations,
            final(self).stats_view().speculative_compilations == old(self).stats_view().speculative_compilations,
            final(self).history() == old(self).history(),
            final(self).config_view() == old(self).config_view(),
    {
        let key = expression_text(expr);
        let mut tiered_code = TieredCode::new(tier);
        tiered_code.native_code = native_code;
        tiered_code.compilation_time = compilation_time;
        let ghost before = self.code_cache@;
        match self.find(&key) {
            Some(i) => {
                self.code_cache.set(i, (key, tiered_code));
                proof {
                    assert forall|k: Seq<char>| #[trigger] code_for(self.code_cache@, k)
                        == if k == self.code_cache@[i as int].0@ { Some(self.code_cache@[i as int].1) } else { code_for(before, k) } by {
                        lemma_code_for_update(before, i as int, self.code_cache@[i as int], k);
                    }
                }
            },
            None => {
                self.code_cache.push((key, tiered_code));
                proof {
                    let x = self.code_cache@.last();
                    assert(self.code_cache@ =~= before.push(x));
                    assert forall|k: Seq<char>| #[trigger] code_for(self.code_cache@, k)
                        == if k == x.0@ { Some(x.1) } else { code_for(before, k) } by {
                        lemma_code_for_push(before, x, k);
                    }
                }
            },
        }
        let ghost counts = self.stats.compilations_by_tier@;
        let j = self.find_tier_count(tier);
        if j < self.stats.compilations_by_tier.len() {
            let n = self.stats.compilations_by_tier[j].1;
            proof {
                lemma_count_for(counts, j as int, (tier, 0u64), tier);
            }
            self.stats.compilations_by_tier.set(j, (tier, n + 1));
            proof {
                assert forall|t: CompilationTier| #[trigger] count_for(self.stats.compilations_by_tier@, t)
                    == if t == tier { Some((n + 1) as u64) } else { count_for(counts, t) } by {
                    lemma_count_for(counts, j as int, (tier, (n + 1) as u64), t);
                }
            }
        } else {
            proof {
                lemma_count_for(counts, j as int, (tier, 1u64), tier);
            }
            self.stats.compilations_by_tier.push((tier, 1));
            proof {
                assert forall|t: CompilationTier| #[trigger] count_for(self.stats.compilations_by_tier@, t)
                    == if t == tier { Some(1u64) } else { count_for(counts, t) } by {
                    lemma_count_for(counts, j as int, (tier, 1u64), t);
                }
            }
        }
        Ok(())
    }

    /// Records an execution of the code for `expr`; nothing changes when no
    /// code is recorded for it.
    pub fn record_execution(&mut self, expr: &Expr, execution_time: Duration) -> (r: Result<(), crate::error::LambdustError>)
        requires
            old(self).code(expr_text(*expr)) matches Some(c) ==> {
                &&& c.execution_count < u64::MAX
                &&& c.total_execution_time@ + execution_time@ <= MAX_NANOS
                &&& (c.execution_count + 1) % 0x1_0000_0000 != 0
            },
        ensures
            r is Ok,
            match old(self).code(expr_text(*expr)) {
                Some(c) => final(self).code(expr_text(*expr)) matches Some(c2) && {
                    &&& c2.execution_count == c.execution_count + 1
                    &&& c2.total_execution_time@ == c.total_execution_time@ + execution_time@
                    &&& c2.avg_execution_time@ == crate::time::div_spec(
                        c2.total_execution_time@, (c2.execution_count % 0x1_0000_0000) as nat)
                    &&& c2.performance_since_tier_change.times() == window_push(
                        c.performance_since_tier_change.times(), execution_time)
                    &&& c2.tier == c.tier
                    &&& c2.native_code == c.native_code
                    &&& c2.compilation_time == c.compilation_time
                },
                None => final(self).code(expr_text(*expr)) is None,
            },
            forall|k: Seq<char>| k != expr_text(*expr) ==> #[trigger] final(self).code(k) == old(self).code(k),
            final(self).history() == old(self).history(),
            final(self).stats_view() == old(self).stats_view(),
            final(self).config_view() == old(self).config_view(),
    {
        let key = expression_text(expr);
        match self.find(&key) {
            Some(i) => {
                let ghost before = self.code_cache@;
                let (k, mut code) = self.code_cache.remove(i);
                code.record_execution(execution_time);
                self.code_cache.insert(i, (k, code));
                proof {
                    assert(self.code_cache@ =~= before.update(i as int, self.code_cache@[i as int]));
                    assert forall|n: Seq<char>| #[trigger] code_for(self.code_cache@, n)
                        == if n == key@ { Some(self.code_cache@[i as int].1) } else { code_for(before, n) } by {
                        lemma_code_for_update(before, i as int, self.code_cache@[i as int], n);
                    }
                }
            },
            None => {},
        }
        Ok(())
    }

    /// With speculative compilation on, proposes the next tier for code that
    /// looks promising: its profile's benefit score is above five (compared
    /// by the caller), it ran more than twenty times and its performance is
    /// stable. The proposal is recorded as a transition.
    pub fn speculative_compile(&mut self, expr: &Expr, benefit_score_above_five: bool)
        -> (r: Result<Option<CompilationTier>, crate::error::LambdustError>)
        ensures
            final(self).config_view() == old(self).config_view(),
            forall|k: Seq<char>| #[trigger] final(self).code(k) == old(self).code(k),
            final(self).stats_view() == old(self).stats_view(),
            r == Ok::<Option<CompilationTier>, crate::error::LambdustError>(
                old(self).speculative_proposal(expr_text(*expr), benefit_score_above_five)),
            old(self).speculative_proposal(expr_text(*expr), benefit_score_above_five) matches Some(t) ==>
                exists|reason: String| reason@ == "High benefit score and stable performance"@
                    && final(self).history() == history_push(old(self).history(),
                        TierTransition::SpeculativeCompilation { to: t, reason }),
            old(self).speculative_proposal(expr_text(*expr), benefit_score_above_five) is None ==>
                final(self).history() == old(self).history(),
    {
        if !self.config.enable_speculative_compilation {
            return Ok(None);
        }
        let key = expression_text(expr);
        match self.find(&key) {
            Some(i) => {
                let code = &self.code_cache[i].1;
                assert(old(self).code(expr_text(*expr)) == Some(*code));
                match code.tier.next_tier() {
                    Some(next) => {
                        let stable = match code.performance_trend() {
                            PerformanceTrend::Stable => true,
                            _ => false,
                        };
                        if benefit_score_above_five && code.execution_count > 20 && stable {
                            let reason = String::from_str("High benefit score and stable performance");
                            proof {
                                reveal_strlit("High benefit score and stable performance");
                            }
                            let ghost rs = reason;
                            assert(rs@ == "High benefit score and stable performance"@);
                            self.record_transition(TierTransition::SpeculativeCompilation { to: next, reason });
                            assert(self.history() == history_push(old(self).history(),
                                TierTransition::SpeculativeCompilation { to: next, reason: rs }));
                            return Ok(Some(next));
                        }
                    },
                    None => {},
                }
                Ok(None)
            },
            None => Ok(None),
        }
    }

    /// Falls the code for `expr` back one tier, clearing its performance
    /// window and recording the transition with `reason`; an expression with
    /// no code is at the interpreter. With deoptimization off this is an
    /// error.
    pub fn deoptimize(&mut self, expr: &Expr, reason: String) -> (r: Result<CompilationTier, crate::error::LambdustError>)
        ensures
            final(self).config_view() == old(self).config_view(),
            final(self).stats_view() == old(self).stats_view(),
            !old(self).config_view().enable_deoptimization ==> {
                &&& r matches Err(e) && e matches crate::error::LambdustError::RuntimeError { message }
                    && message@ == "Deoptimization disabled"@
                &&& forall|k: Seq<char>| #[trigger] final(self).code(k) == old(self).code(k)
                &&& final(self).history() == old(self).history()
            },
            old(self).config_view().enable_deoptimization ==> match old(self).code(expr_text(*expr)) {
                Some(c) => {
                    &&& r == Ok::<CompilationTier, crate::error::LambdustError>(lower_tier(c.tier))
                    &&& final(self).code(expr_text(*expr)) matches Some(c2) && {
                        &&& c2.tier == lower_tier(c.tier)
                        &&& c2.performance_since_tier_change.times() == Seq::<Duration>::empty()
                        &&& c2.native_code == c.native_code
                        &&& c2.compilation_time == c.compilation_time
                        &&& c2.execution_count == c.execution_count
                        &&& c2.total_execution_time == c.total_execution_time
                        &&& c2.avg_execution_time == c.avg_execution_time
                    }
                    &&& forall|k: Seq<char>| k != expr_text(*expr) ==> #[trigger] final(self).code(k) == old(self).code(k)
                    &&& exists|rs: String| rs@ == reason@ && final(self).history() == history_push(old(self).history(),
                        TierTransition::Deoptimization { from: c.tier, to: lower_tier(c.tier), reason: rs })
                },
                None => {
                    &&& r == Ok::<CompilationTier, crate::error::LambdustError>(CompilationTier::Interpreter)
                    &&& forall|k: Seq<char>| #[trigger] final(self).code(k) == old(self).code(k)
                    &&& final(self).history() == old(self).history()
                },
            },
    {
        if !self.config.enable_deoptimization {
            return Err(crate::error::LambdustError::runtime_error(String::from_str("Deoptimization disabled")));
        }
        let key = expression_text(expr);
        match self.find(&key) {
            Some(i) => {
                let ghost before = self.code_cache@;
                let (k, mut code) = self.code_cache.remove(i);
                let original_tier = code.tier;
                let new_tier = match code.tier {
                    CompilationTier::JitOptimized => CompilationTier::JitBasic,
                    CompilationTier::JitBasic => CompilationTier::Bytecode,
                    CompilationTier::Bytecode => CompilationTier::Interpreter,
                    CompilationTier::Interpreter => CompilationTier::Interpreter,
                };
                code.tier = new_tier;
                code.performance_since_tier_change = PerformanceMetrics::new();
                self.code_cache.insert(i, (k, code));
                proof {
                    assert(self.code_cache@ =~= before.update(i as int, self.code_cache@[i as int]));
                    assert forall|n: Seq<char>| #[trigger] code_for(self.code_cache@, n)
                        == if n == key@ { Some(self.code_cache@[i as int].1) } else { code_for(before, n) } by {
                        lemma_code_for_update(before, i as int, self.code_cache@[i as int], n);
                    }
                }
                let ghost rs = reason;
                self.record_transition(TierTransition::Deoptimization { from: original_tier, to: new_tier, reason });
                assert(self.history() == history_push(old(self).history(),
                    TierTransition::Deoptimization { from: original_tier, to: new_tier, reason: rs }));
                Ok(new_tier)
            },
            None => Ok(CompilationTier::Interpreter),
        }
    }

    /// The compilation statistics.
    pub fn stats(&self) -> (s: &TierStats)
        ensures
            *s == self.stats_view(),
    {
        &self.stats
    }
}

} // verus!
