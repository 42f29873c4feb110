//! The compilation tier a hotspot analysis recommends.
use vstd::prelude::*;

verus! {

/// Compilation tier recommendation.
#[derive(Debug, Clone, Copy, PartialEq, Eq, Structural)]
pub enum CompilationTier {
    /// Stay with interpreter
    Interpreter,
    /// Compile to bytecode
    Bytecode,
    /// Basic JIT compilation
    JitBasic,
    /// Optimized JIT compilation
    JitOptimized,
}

} // verus!
