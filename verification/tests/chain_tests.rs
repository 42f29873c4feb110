use lambdust::continuations::OptimizedContinuation;
use lambdust::jit::continuation_chain_optimizer::{
    ChainSignatureBuilder, ChainSizeCategory, ContinuationDataFlowAnalysis, DataFlowCharacteristics,
    LocalDataFlowAnalysis, RedundancyTarget, RedundantOperation, ValuePropagation,
    ValuePropagationOpportunity,
};
use lambdust::jit::continuation_jit_integration::{analyze_continuation_chain, ChainAnalysis};

#[test]
fn test_chain_signature_builder() {
    let mut builder = ChainSignatureBuilder::new();
    builder.structural_components.push(123);
    builder.dataflow_components.push(456);

    let signature = builder.build();
    assert!(signature.structural_hash != 0);
    assert!(signature.dataflow_hash != 0);
}

#[test]
fn test_chain_analysis() {
    let analysis = ChainAnalysis {
        chain_length: 5,
        has_common_patterns: true,
        has_type_uniformity: true,
        total_hotness: 100,
    };

    assert!(analysis.should_optimize_as_chain());
}

#[test]
fn signature_depends_on_components_only() {
    let mut a = ChainSignatureBuilder::new();
    let mut b = ChainSignatureBuilder::new();
    let c = OptimizedContinuation { id: 7 };
    a.add_continuation_signature(&c).unwrap();
    b.add_continuation_signature(&OptimizedContinuation { id: 8 }).unwrap();
    a.add_dataflow_characteristics(&DataFlowCharacteristics::default());
    b.add_dataflow_characteristics(&DataFlowCharacteristics::default());
    assert_eq!(a.structural_components, vec![12345]);
    assert_eq!(a.dataflow_components, vec![67890]);
    let sa = a.build();
    let sb = b.build();
    assert_eq!(sa, sb);
    assert_eq!(sa.size_category, ChainSizeCategory::Medium);

    let mut d = ChainSignatureBuilder::new();
    d.structural_components.push(1);
    let mut e = ChainSignatureBuilder::new();
    e.structural_components.push(2);
    assert_ne!(d.build().structural_hash, e.build().structural_hash);
    let mut f = ChainSignatureBuilder::new();
    f.structural_components.push(12345);
    assert_ne!(f.build().structural_hash, 12345);
}

#[test]
fn chain_analysis_thresholds() {
    let short: Vec<OptimizedContinuation> = (0..5).map(|i| OptimizedContinuation { id: i }).collect();
    let long: Vec<OptimizedContinuation> = (0..6).map(|i| OptimizedContinuation { id: i }).collect();
    let a = analyze_continuation_chain(&short).unwrap();
    assert_eq!(a.total_hotness, 50);
    assert!(!a.should_optimize_as_chain());
    let b = analyze_continuation_chain(&long).unwrap();
    assert_eq!(b.chain_length, 6);
    assert!(b.should_optimize_as_chain());
    assert!(!ChainAnalysis::new().should_optimize_as_chain());
}

#[test]
fn dataflow_analysis_reports() {
    let mut analysis = ContinuationDataFlowAnalysis::new(3);
    analysis.add_local_analysis(1, LocalDataFlowAnalysis::new());
    let ops = analysis.get_redundant_operations(1, &RedundancyTarget::UnusedValues).unwrap().unwrap();
    assert_eq!(ops, vec![RedundantOperation::UnusedComputation { operation_id: 1 }]);
    let props = analysis
        .get_value_propagation_opportunities(1, &ValuePropagation::ConstantFolding)
        .unwrap()
        .unwrap();
    assert_eq!(props, vec![ValuePropagationOpportunity::ConstantValue { value: 42 }]);
}

use lambdust::continuations::ContinuationChain;
use lambdust::jit::continuation_chain_optimizer::{
    ChainOptimization, ChainOptimizationStrategy, ChainOptimizerConfig, ContinuationChainOptimizer,
    ControlFlowSimplification,
};

#[test]
fn applying_optimizations_rewrites_the_chain_once_per_optimization() {
    let optimizer = ContinuationChainOptimizer::new(ChainOptimizerConfig::default()).unwrap();
    let chain = ContinuationChain {
        chain_id: Some(9),
        continuations: vec![OptimizedContinuation { id: 1 }, OptimizedContinuation { id: 2 }],
    };
    let dataflow = ContinuationDataFlowAnalysis::new(9);
    let strategy = ChainOptimizationStrategy {
        optimizations: vec![
            ChainOptimization::RedundancyElimination { targets: vec![RedundancyTarget::UnusedValues] },
            ChainOptimization::ControlFlowSimplification {
                simplifications: vec![ControlFlowSimplification::DeadCodeElimination],
            },
        ],
    };
    let result = optimizer.apply_optimizations(&chain, &dataflow, strategy).unwrap();
    assert_eq!(result.original_chain_id, Some(9));
    let ids: Vec<u64> = result.optimized_chain.continuations.iter().map(|c| c.id).collect();
    assert_eq!(ids, vec![1, 2, 1, 2]);
    assert_eq!(result.applied_optimizations.len(), 2);

    let empty = ChainOptimizationStrategy { optimizations: vec![] };
    let result = optimizer.apply_optimizations(&chain, &dataflow, empty).unwrap();
    assert!(result.optimized_chain.continuations.is_empty());
}

#[test]
fn test_chain_optimizer_creation() {
    let config = ChainOptimizerConfig::default();
    let optimizer = ContinuationChainOptimizer::new(config);
    assert!(optimizer.is_ok());
}
