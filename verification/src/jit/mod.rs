//! The JIT subsystem: configuration, compilation tiers, code caching,
//! security checks and the analyses that drive optimization.
pub mod algorithmic_optimizations;
pub mod code_cache;
pub mod code_generator;
pub mod compilation_tiers;
pub mod config;
pub mod continuation_chain_optimizer;
pub mod continuation_jit_integration;
pub mod continuation_state_optimizer;
pub mod continuation_support;
pub mod deoptimization;
pub mod dependent_hotspot_detector;
pub mod generic_primitives;
pub mod hot_continuation_detector;
pub mod hotspot_detector;
pub mod jit_primitives;
pub mod jit_runtime;
pub mod jit_security_framework;
