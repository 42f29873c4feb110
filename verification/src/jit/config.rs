//! Configuration of the JIT subsystem: optimization presets, profiling,
//! target, memory and security settings, and the names of cache policies and
//! compilation strategies.
use vstd::prelude::*;
use crate::time::Duration;

verus! {

/// Cache eviction policy.
#[derive(Debug, Clone, Copy, PartialEq, Eq, Structural)]
pub enum EvictionPolicy {
    /// Least Recently Used
    LRU,
    /// Least Frequently Used
    LFU,
    /// Adaptive LRU with frequency consideration
    AdaptiveLRU,
    /// First In First Out
    FIFO,
    /// Random eviction
    Random,
}

/// Display name of an eviction policy.
pub open spec fn eviction_policy_name(p: EvictionPolicy) -> Seq<char> {
    match p {
        EvictionPolicy::LRU => "lru"@,
        EvictionPolicy::LFU => "lfu"@,
        EvictionPolicy::AdaptiveLRU => "adaptive_lru"@,
        EvictionPolicy::FIFO => "fifo"@,
        EvictionPolicy::Random => "random"@,
    }
}

impl EvictionPolicy {
    /// The policy's display name.
    pub fn to_string(&self) -> (s: String)
        ensures
            s@ == eviction_policy_name(*self),
    {
        let t: &str = match self {
            EvictionPolicy::LRU => "lru",
            EvictionPolicy::LFU => "lfu",
            EvictionPolicy::AdaptiveLRU => "adaptive_lru",
            EvictionPolicy::FIFO => "fifo",
            EvictionPolicy::Random => "random",
        };
        String::from_str(t)
    }
}

/// Code cache configuration of the JIT.
#[derive(Debug, Clone)]
pub struct CacheConfig {
    /// Maximum number of cached code entries
    pub max_entries: usize,
    /// Maximum memory usage for cached code (bytes)
    pub max_memory_usage: usize,
    /// Cache eviction policy
    pub eviction_policy: EvictionPolicy,
    /// Enable persistent cache across program runs
    pub enable_persistent_cache: bool,
    /// Directory for persistent cache files
    pub cache_directory: Option<String>,
}

impl CacheConfig {
    /// Two thousand entries in 128 MiB, LRU eviction, no persistent cache.
    pub fn default() -> (c: Self)
        ensures
            c.max_entries == 2000,
            c.max_memory_usage == 128 * 1024 * 1024,
            c.eviction_policy == EvictionPolicy::LRU,
            !c.enable_persistent_cache,
            c.cache_directory is None,
    {
        CacheConfig {
            max_entries: 2000,
            max_memory_usage: 128 * 1024 * 1024,
            eviction_policy: EvictionPolicy::LRU,
            enable_persistent_cache: false,
            cache_directory: None,
        }
    }

    /// The code cache configuration: the same limits, pressure at 80%, LRU
    /// eviction for the LRU and adaptive LRU policies, compaction every
    /// minute, and entries executed five times kept.
    pub fn to_code_cache_config(&self) -> (c: crate::jit::code_cache::CacheConfig)
        ensures
            c.max_memory_bytes == self.max_memory_usage,
            c.max_entries == self.max_entries,
            c.memory_pressure_threshold_percent == 80,
            c.enable_lru_eviction == (self.eviction_policy == EvictionPolicy::LRU
                || self.eviction_policy == EvictionPolicy::AdaptiveLRU),
            c.enable_compaction,
            c.compaction_interval@ == 60_000_000_000,
            c.execution_based_retention,
            c.min_execution_count_for_retention == 5,
    {
        crate::jit::code_cache::CacheConfig {
            max_memory_bytes: self.max_memory_usage,
            max_entries: self.max_entries,
            memory_pressure_threshold_percent: 80,
            enable_lru_eviction: match self.eviction_policy {
                EvictionPolicy::LRU => true,
                EvictionPolicy::AdaptiveLRU => true,
                _ => false,
            },
            enable_compaction: true,
            compaction_interval: Duration::from_secs(60),
            execution_based_retention: true,
            min_execution_count_for_retention: 5,
        }
    }
}

/// Optimization pipeline configuration.
#[derive(Debug, Clone, Copy, PartialEq, Eq, Structural)]
pub struct OptimizationConfig {
    /// Enable basic optimizations (constant folding, dead code elimination)
    pub enable_basic_optimizations: bool,
    /// Enable Scheme-specific optimizations (tail call, closure optimizations)
    pub enable_scheme_optimizations: bool,
    /// Enable advanced optimizations (inlining, loop optimizations)
    pub enable_advanced_optimizations: bool,
    /// Maximum inline depth
    pub max_inline_depth: u32,
    /// Maximum function size for inlining
    pub max_inline_size: u32,
    /// Enable type-based optimizations
    pub enable_type_optimizations: bool,
    /// Enable SIMD optimizations
    pub enable_simd_optimizations: bool,
    /// Target optimization level (0-3)
    pub optimization_level: u32,
}

impl Default for OptimizationConfig {
    fn default() -> (c: Self)
        ensures
            c == (OptimizationConfig {
                enable_basic_optimizations: true,
                enable_scheme_optimizations: true,
                enable_advanced_optimizations: false,
                max_inline_depth: 3,
                max_inline_size: 100,
                enable_type_optimizations: true,
                enable_simd_optimizations: true,
                optimization_level: 1,
            }),
    {
        OptimizationConfig {
            enable_basic_optimizations: true,
            enable_scheme_optimizations: true,
            enable_advanced_optimizations: false,
            max_inline_depth: 3,
            max_inline_size: 100,
            enable_type_optimizations: true,
            enable_simd_optimizations: true,
            optimization_level: 1,
        }
    }
}

impl OptimizationConfig {
    /// Development-optimized configuration (fast compilation).
    pub fn development() -> (c: Self)
        ensures
            c == (OptimizationConfig {
                enable_basic_optimizations: true,
                enable_scheme_optimizations: true,
                enable_advanced_optimizations: false,
                max_inline_depth: 2,
                max_inline_size: 50,
                enable_type_optimizations: true,
                enable_simd_optimizations: false,
                optimization_level: 0,
            }),
    {
        OptimizationConfig {
            enable_basic_optimizations: true,
            enable_scheme_optimizations: true,
            enable_advanced_optimizations: false,
            max_inline_depth: 2,
            max_inline_size: 50,
            enable_type_optimizations: true,
            enable_simd_optimizations: false,
            optimization_level: 0,
        }
    }

    /// Production-optimized configuration (balanced).
    pub fn production() -> (c: Self)
        ensures
            c == (OptimizationConfig {
                enable_basic_optimizations: true,
                enable_scheme_optimizations: true,
                enable_advanced_optimizations: true,
                max_inline_depth: 4,
                max_inline_size: 150,
                enable_type_optimizations: true,
                enable_simd_optimizations: true,
                optimization_level: 2,
            }),
    {
        OptimizationConfig {
            enable_basic_optimizations: true,
            enable_scheme_optimizations: true,
            enable_advanced_optimizations: true,
            max_inline_depth: 4,
            max_inline_size: 150,
            enable_type_optimizations: true,
            enable_simd_optimizations: true,
            optimization_level: 2,
        }
    }

    /// Aggressive optimization configuration (maximum performance).
    pub fn aggressive() -> (c: Self)
        ensures
            c == (OptimizationConfig {
                enable_basic_optimizations: true,
                enable_scheme_optimizations: true,
                enable_advanced_optimizations: true,
                max_inline_depth: 6,
                max_inline_size: 300,
                enable_type_optimizations: true,
                enable_simd_optimizations: true,
                optimization_level: 3,
            }),
    {
        OptimizationConfig {
            enable_basic_optimizations: true,
            enable_scheme_optimizations: true,
            enable_advanced_optimizations: true,
            max_inline_depth: 6,
            max_inline_size: 300,
            enable_type_optimizations: true,
            enable_simd_optimizations: true,
            optimization_level: 3,
        }
    }
}

/// Profile-guided optimization configuration.
#[derive(Debug, Clone, Copy, PartialEq, Eq, Structural)]
pub struct ProfileGuidedOptimizerConfig {
    /// Enable profile-guided optimization
    pub enabled: bool,
    /// Profile collection duration before optimization
    pub profile_collection_duration: Duration,
    /// Minimum executions for profile-based decisions
    pub min_profile_executions: u64,
    /// Enable type profile collection
    pub enable_type_profiling: bool,
    /// Enable branch profiling
    pub enable_branch_profiling: bool,
    /// Enable memory access profiling
    pub enable_memory_profiling: bool,
    /// Profile data retention time
    pub profile_retention_time: Duration,
}

/// A profiling preset: collection and retention spans in seconds, the
/// execution threshold and which profiles are collected besides types.
pub open spec fn pgo_preset(
    c: ProfileGuidedOptimizerConfig,
    collect_secs: nat,
    min_executions: u64,
    branch: bool,
    memory: bool,
    retain_secs: nat,
) -> bool {
    &&& c.enabled
    &&& c.profile_collection_duration@ == collect_secs * 1_000_000_000
    &&& c.min_profile_executions == min_executions
    &&& c.enable_type_profiling
    &&& c.enable_branch_profiling == branch
    &&& c.enable_memory_profiling == memory
    &&& c.profile_retention_time@ == retain_secs * 1_000_000_000
}

impl Default for ProfileGuidedOptimizerConfig {
    fn default() -> (c: Self)
        ensures
            pgo_preset(c, 60, 100, true, false, 3600),
    {
        ProfileGuidedOptimizerConfig {
            enabled: true,
            profile_collection_duration: Duration::from_secs(60),
            min_profile_executions: 100,
            enable_type_profiling: true,
            enable_branch_profiling: true,
            enable_memory_profiling: false,
            profile_retention_time: Duration::from_secs(3600),
        }
    }
}

impl ProfileGuidedOptimizerConfig {
    /// Development configuration (lighter profiling).
    pub fn development() -> (c: Self)
        ensures
            pgo_preset(c, 30, 50, false, false, 1800),
    {
        ProfileGuidedOptimizerConfig {
            enabled: true,
            profile_collection_duration: Duration::from_secs(30),
            min_profile_executions: 50,
            enable_type_profiling: true,
            enable_branch_profiling: false,
            enable_memory_profiling: false,
            profile_retention_time: Duration::from_secs(1800),
        }
    }

    /// Production configuration (balanced profiling).
    pub fn production() -> (c: Self)
        ensures
            pgo_preset(c, 120, 200, true, true, 7200),
    {
        ProfileGuidedOptimizerConfig {
            enabled: true,
            profile_collection_duration: Duration::from_secs(120),
            min_profile_executions: 200,
            enable_type_profiling: true,
            enable_branch_profiling: true,
            enable_memory_profiling: true,
            profile_retention_time: Duration::from_secs(7200),
        }
    }

    /// Aggressive configuration (comprehensive profiling).
    pub fn aggressive() -> (c: Self)
        ensures
            pgo_preset(c, 300, 500, true, true, 14400),
    {
        ProfileGuidedOptimizerConfig {
            enabled: true,
            profile_collection_duration: Duration::from_secs(300),
            min_profile_executions: 500,
            enable_type_profiling: true,
            enable_branch_profiling: true,
            enable_memory_profiling: true,
            profile_retention_time: Duration::from_secs(14400),
        }
    }
}

/// Target-specific configuration.
#[derive(Debug, Clone)]
pub struct TargetConfig {
    /// Target CPU features to enable
    pub cpu_features: Vec<String>,
    /// Target architecture optimizations
    pub arch_optimizations: Vec<String>,
    /// Enable vectorization
    pub enable_vectorization: bool,
    /// Vector width preference
    pub preferred_vector_width: Option<u32>,
    /// Enable target-specific intrinsics
    pub enable_intrinsics: bool,
}

impl Default for TargetConfig {
    fn default() -> (c: Self)
        ensures
            c.cpu_features@.len() == 0,
            c.arch_optimizations@.len() == 0,
            c.enable_vectorization,
            c.preferred_vector_width is None,
            c.enable_intrinsics,
    {
        TargetConfig {
            cpu_features: Vec::new(),
            arch_optimizations: Vec::new(),
            enable_vectorization: true,
            preferred_vector_width: None,
            enable_intrinsics: true,
        }
    }
}

/// Memory management configuration.
#[derive(Debug, Clone, Copy, PartialEq, Eq, Structural)]
pub struct MemoryConfig {
    /// Initial code buffer size
    pub initial_code_buffer_size: usize,
    /// Maximum code buffer size
    pub max_code_buffer_size: usize,
    /// Enable memory pool for allocations
    pub enable_memory_pool: bool,
    /// Memory pool initial size
    pub memory_pool_initial_size: usize,
    /// Enable garbage collection of unused code
    pub enable_code_gc: bool,
    /// Code GC interval
    pub code_gc_interval: Duration,
}

impl Default for MemoryConfig {
    fn default() -> (c: Self)
        ensures
            c.initial_code_buffer_size == 64 * 1024,
            c.max_code_buffer_size == 16 * 1024 * 1024,
            c.enable_memory_pool,
            c.memory_pool_initial_size == 1024 * 1024,
            c.enable_code_gc,
            c.code_gc_interval@ == 300 * 1_000_000_000,
    {
        MemoryConfig {
            initial_code_buffer_size: 64 * 1024,
            max_code_buffer_size: 16 * 1024 * 1024,
            enable_memory_pool: true,
            memory_pool_initial_size: 1024 * 1024,
            enable_code_gc: true,
            code_gc_interval: Duration::from_secs(300),
        }
    }
}

/// Security configuration.
#[derive(Debug, Clone, Copy, PartialEq, Eq, Structural)]
pub struct SecurityConfig {
    /// Enable code signing verification
    pub enable_code_signing: bool,
    /// Enable execution sandboxing
    pub enable_sandboxing: bool,
    /// Enable stack protection
    pub enable_stack_protection: bool,
    /// Enable control flow integrity
    pub enable_cfi: bool,
    /// Maximum executable memory size
    pub max_executable_memory: usize,
}

impl Default for SecurityConfig {
    fn default() -> (c: Self)
        ensures
            c == (SecurityConfig {
                enable_code_signing: false,
                enable_sandboxing: false,
                enable_stack_protection: true,
                enable_cfi: false,
                max_executable_memory: 0x400_0000usize,
            }),
    {
        SecurityConfig {
            enable_code_signing: false,
            enable_sandboxing: false,
            enable_stack_protection: true,
            enable_cfi: false,
            max_executable_memory: 64 * 1024 * 1024,
        }
    }
}

/// Compilation strategy selection.
#[derive(Debug, Clone, Copy, PartialEq, Eq, Structural)]
pub enum CompilationStrategy {
    /// Lazy compilation - compile on first use
    Lazy,
    /// Eager compilation - compile immediately when hotspot detected
    Eager,
    /// Background compilation - compile in background thread
    Background,
    /// Adaptive - choose strategy based on system load
    Adaptive,
}

impl Default for CompilationStrategy {
    fn default() -> (s: Self)
        ensures
            s == CompilationStrategy::Adaptive,
    {
        CompilationStrategy::Adaptive
    }
}

/// Display name of a compilation strategy.
pub open spec fn compilation_strategy_name(s: CompilationStrategy) -> Seq<char> {
    match s {
        CompilationStrategy::Lazy => "lazy"@,
        CompilationStrategy::Eager => "eager"@,
        CompilationStrategy::Background => "background"@,
        CompilationStrategy::Adaptive => "adaptive"@,
    }
}

impl CompilationStrategy {
    /// The strategy's display name.
    pub fn to_string(&self) -> (s: String)
        ensures
            s@ == compilation_strategy_name(*self),
    {
        let t: &str = match self {
            CompilationStrategy::Lazy => "lazy",
            CompilationStrategy::Eager => "eager",
            CompilationStrategy::Background => "background",
            CompilationStrategy::Adaptive => "adaptive",
        };
        String::from_str(t)
    }
}

} // verus!
