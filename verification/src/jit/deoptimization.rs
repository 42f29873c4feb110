//! What a deoptimization decision is made about.
use vstd::prelude::*;
use std::sync::Arc;
use crate::jit::compilation_tiers::CompilationTier;
use crate::value::{Environment, Expr};

verus! {

/// Context for deoptimization decisions.
#[derive(Debug, Clone)]
pub struct DeoptimizationContext {
    pub function_id: String,
    pub current_tier: CompilationTier,
    pub original_ast: Expr,
    pub environment: Arc<Environment>,
}

} // verus!
