//! Configuration and data of first-class continuation support in compiled
//! code: how stacks are scanned, which kinds of continuation exist, the frames
//! they capture and the strategy each compilation tier uses.
use vstd::prelude::*;
use std::collections::HashMap;
use crate::continuations::ContinuationId;
use crate::jit::code_generator::NativeCode;

verus! {

/// Configuration for continuation support.
#[derive(Debug, Clone, Copy, PartialEq, Eq, Structural)]
pub struct ContinuationConfig {
    /// Enable optimized continuation capture
    pub enable_optimized_capture: bool,
    /// Maximum stack depth for continuation capture
    pub max_stack_depth: usize,
    /// Enable continuation caching
    pub enable_continuation_caching: bool,
    /// Maximum number of active continuations
    pub max_active_continuations: usize,
    /// Enable partial continuation support (delimited continuations)
    pub enable_delimited_continuations: bool,
    /// Stack scanning strategy
    pub stack_scan_strategy: StackScanStrategy,
}

impl Default for ContinuationConfig {
    fn default() -> (c: Self)
        ensures
            c == (ContinuationConfig {
                enable_optimized_capture: true,
                max_stack_depth: 10000,
                enable_continuation_caching: true,
                max_active_continuations: 1000,
                enable_delimited_continuations: false,
                stack_scan_strategy: StackScanStrategy::Conservative,
            }),
    {
        ContinuationConfig {
            enable_optimized_capture: true,
            max_stack_depth: 10000,
            enable_continuation_caching: true,
            max_active_continuations: 1000,
            enable_delimited_continuations: false,
            stack_scan_strategy: StackScanStrategy::Conservative,
        }
    }
}

/// Strategy for scanning the stack during continuation capture.
#[derive(Debug, Clone, Copy, PartialEq, Eq, Structural)]
pub enum StackScanStrategy {
    /// Conservative scanning - scan all potential pointers
    Conservative,
    /// Precise scanning - only scan known pointers
    Precise,
    /// Tagged scanning - use tag bits to identify pointers
    Tagged,
}

/// Types of continuations.
#[derive(Debug, Clone, PartialEq, Eq)]
pub enum ContinuationType {
    /// Full continuation (call/cc)
    Full,
    /// Escape continuation (early return)
    Escape,
    /// Delimited continuation (with prompts)
    Delimited { prompt_tag: String },
    /// Partial continuation (continuation fragments)
    Partial { parent_id: Option<ContinuationId> },
}

/// Types of stack frames.
#[derive(Debug, Clone, Copy, PartialEq, Eq, Structural)]
pub enum FrameType {
    /// Scheme function frame
    SchemeFunction,
    /// Native JIT-compiled function frame
    NativeFunction,
    /// Interpreter frame
    InterpreterFrame,
    /// Foreign function interface frame
    FfiFrame,
    /// Exception handler frame
    ExceptionHandler,
}

/// Stack layout information.
#[derive(Debug, Clone, Copy, PartialEq, Eq, Structural)]
pub struct StackLayout {
    /// Total frame size in bytes
    pub frame_size: usize,
    /// Offset of local variables
    pub locals_offset: isize,
    /// Offset of saved registers
    pub saved_registers_offset: isize,
    /// Offset of return address
    pub return_address_offset: isize,
    /// Stack alignment requirements
    pub alignment: usize,
}

/// Continuation compilation strategy for each tier.
#[derive(Debug, Clone, Copy, PartialEq, Eq, Structural)]
pub enum ContinuationStrategy {
    /// Interpreter-based continuation handling
    Interpreter { use_stack_copying: bool },
    /// Bytecode-based continuation handling
    Bytecode { generate_continuation_bytecode: bool },
    /// Basic JIT continuation handling
    BasicJit { use_trampoline: bool, enable_register_spilling: bool },
    /// Optimized JIT continuation handling
    OptimizedJit {
        use_advanced_stack_scanning: bool,
        enable_continuation_inlining: bool,
        use_continuation_caching: bool,
    },
}

/// Code that knows whether and how it supports continuations.
pub trait ContinuationAware {
    /// Check if this code supports continuations
    fn supports_continuations(&self) -> bool;

    /// Get continuation metadata
    fn get_continuation_metadata(&self) -> Option<HashMap<String, String>>;

    /// Check if call/cc can be optimized in this context
    fn can_optimize_callcc(&self) -> bool;
}

impl ContinuationAware for NativeCode {
    /// Native code supports continuations.
    fn supports_continuations(&self) -> (b: bool)
        ensures
            b,
    {
        true
    }

    /// Native code carries no continuation metadata.
    fn get_continuation_metadata(&self) -> (r: Option<HashMap<String, String>>)
        ensures
            r is None,
    {
        None
    }

    /// Call/cc can be optimized in native code.
    fn can_optimize_callcc(&self) -> (b: bool)
        ensures
            b,
    {
        true
    }
}

} // verus!
