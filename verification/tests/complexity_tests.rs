use lambdust::jit::algorithmic_optimizations::{
    ComputationalComplexityAnalyzer, SpaceComplexity, TimeComplexity,
};
use lambdust::value::{Expr, SchemeNumber, Value};

fn lit(n: i64) -> Expr {
    Expr::Literal(Value::Number(SchemeNumber::Integer(n)))
}

fn var(name: &str) -> Expr {
    Expr::Variable(name.to_string())
}

#[test]
fn test_complexity_analyzer() {
    let mut analyzer = ComputationalComplexityAnalyzer::new().unwrap();
    let simple_ast = lit(42);
    assert!(matches!(analyzer.calculate_time_complexity(&simple_ast).unwrap(), TimeComplexity::Constant(_)));
    assert!(matches!(analyzer.calculate_space_complexity(&simple_ast).unwrap(), SpaceComplexity::Constant(_)));
}

#[test]
fn time_of_application_is_operator_plus_operands() {
    let mut analyzer = ComputationalComplexityAnalyzer::new().unwrap();
    let app = Expr::Application { operator: Box::new(var("f")), operands: vec![lit(1), var("x")] };
    assert_eq!(analyzer.calculate_time_complexity(&app).unwrap(), TimeComplexity::Constant(3));
}

#[test]
fn time_of_if_takes_the_heavier_branch() {
    let mut analyzer = ComputationalComplexityAnalyzer::new().unwrap();
    let heavy = Expr::Begin(vec![lit(1), lit(2), lit(3)]);
    let e = Expr::If { test: Box::new(var("c")), consequent: Box::new(lit(1)), alternative: Some(Box::new(heavy)) };
    assert_eq!(analyzer.calculate_time_complexity(&e).unwrap(), TimeComplexity::Constant(4));
    let one_armed = Expr::If { test: Box::new(var("c")), consequent: Box::new(lit(1)), alternative: None };
    assert_eq!(analyzer.calculate_time_complexity(&one_armed).unwrap(), TimeComplexity::Constant(2));
}

#[test]
fn time_of_let_lambda_and_begin() {
    let mut analyzer = ComputationalComplexityAnalyzer::new().unwrap();
    let l = Expr::Let { bindings: vec![("x".to_string(), lit(1)), ("y".to_string(), lit(2))], body: vec![var("x")] };
    assert_eq!(analyzer.calculate_time_complexity(&l).unwrap(), TimeComplexity::Constant(3));
    let lam = Expr::Lambda { params: vec!["x".to_string()], body: vec![var("x"), var("x")] };
    assert_eq!(analyzer.calculate_time_complexity(&lam).unwrap(), TimeComplexity::Constant(2));
    assert_eq!(analyzer.calculate_time_complexity(&Expr::Begin(vec![])).unwrap(), TimeComplexity::Constant(0));
}

#[test]
fn space_of_application_and_lambda() {
    let mut analyzer = ComputationalComplexityAnalyzer::new().unwrap();
    let app = Expr::Application { operator: Box::new(var("f")), operands: vec![lit(1), var("x")] };
    assert_eq!(analyzer.calculate_space_complexity(&app).unwrap(), SpaceComplexity::Constant(3));
    let lam = Expr::Lambda { params: vec![], body: vec![app] };
    assert_eq!(analyzer.calculate_space_complexity(&lam).unwrap(), SpaceComplexity::Constant(4));
    let cond = Expr::If { test: Box::new(var("c")), consequent: Box::new(lit(1)), alternative: None };
    assert_eq!(analyzer.calculate_space_complexity(&cond).unwrap(), SpaceComplexity::Constant(1));
}

#[test]
fn expressions_copy_deeply() {
    let e = Expr::Let { bindings: vec![("x".to_string(), lit(1))], body: vec![var("x")] };
    let c = e.clone();
    assert_eq!(format!("{:?}", c), format!("{:?}", e));
}

#[test]
fn control_flow_complexity_counts_nodes_and_branches() {
    let mut analyzer = ComputationalComplexityAnalyzer::new().unwrap();
    assert_eq!(analyzer.calculate_control_flow_complexity(&lit(1)).unwrap(), 1);
    // (f 1 x): 1 + 1 + 1 + 1
    let app = Expr::Application { operator: Box::new(var("f")), operands: vec![lit(1), var("x")] };
    assert_eq!(analyzer.calculate_control_flow_complexity(&app).unwrap(), 4);
    // (if x (f 1 x) 2): 2 + 1 + 4 + 1
    let branch = Expr::If {
        test: Box::new(var("x")),
        consequent: Box::new(Expr::Application { operator: Box::new(var("f")), operands: vec![lit(1), var("x")] }),
        alternative: Some(Box::new(lit(2))),
    };
    assert_eq!(analyzer.calculate_control_flow_complexity(&branch).unwrap(), 8);
    // (let ((y 1)) y): 1 + 1 + 1; a begin counts one whatever its body.
    let binding = Expr::Let { bindings: vec![("y".to_string(), lit(1))], body: vec![var("y")] };
    assert_eq!(analyzer.calculate_control_flow_complexity(&binding).unwrap(), 3);
    assert_eq!(analyzer.calculate_control_flow_complexity(&Expr::Begin(vec![lit(1), lit(2)])).unwrap(), 1);
}
