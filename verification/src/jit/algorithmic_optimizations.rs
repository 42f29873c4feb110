//! Complexity classes used to rank compilation candidates, and the analysis
//! components of the algorithmic optimizer.
use vstd::prelude::*;
use crate::error::LambdustError;
use crate::value::Expr;

verus! {

/// Time complexity classification, each class with its constant factor.
#[derive(Debug, Clone, Copy, PartialEq, Eq, Structural)]
pub enum TimeComplexity {
    Constant(usize),
    Logarithmic(usize),
    Linear(usize),
    Linearithmic(usize),
    Quadratic(usize),
    Cubic(usize),
    Exponential(usize),
    Unknown,
}

/// Weight of a time complexity class: its factor times the class's cost
/// multiplier (1, 2, 10, 15, 100, 1000, 10000), or 50 when unknown.
pub open spec fn time_weight(c: TimeComplexity) -> nat {
    match c {
        TimeComplexity::Constant(n) => n as nat,
        TimeComplexity::Logarithmic(n) => (n as nat) * 2,
        TimeComplexity::Linear(n) => (n as nat) * 10,
        TimeComplexity::Linearithmic(n) => (n as nat) * 15,
        TimeComplexity::Quadratic(n) => (n as nat) * 100,
        TimeComplexity::Cubic(n) => (n as nat) * 1000,
        TimeComplexity::Exponential(n) => (n as nat) * 10000,
        TimeComplexity::Unknown => 50,
    }
}

/// The heavier of two time complexities, the first on a tie.
pub open spec fn time_max(a: TimeComplexity, b: TimeComplexity) -> TimeComplexity {
    if time_weight(a) >= time_weight(b) {
        a
    } else {
        b
    }
}

impl TimeComplexity {
    /// The weight used to compare complexities.
    pub fn as_big_o_factor(&self) -> (w: u128)
        ensures
            w == time_weight(*self),
    {
        match self {
            TimeComplexity::Constant(n) => *n as u128,
            TimeComplexity::Logarithmic(n) => (*n as u128) * 2,
            TimeComplexity::Linear(n) => (*n as u128) * 10,
            TimeComplexity::Linearithmic(n) => (*n as u128) * 15,
            TimeComplexity::Quadratic(n) => (*n as u128) * 100,
            TimeComplexity::Cubic(n) => (*n as u128) * 1000,
            TimeComplexity::Exponential(n) => (*n as u128) * 10000,
            TimeComplexity::Unknown => 50,
        }
    }

    /// Complexity of running two pieces one after the other: constant and
    /// linear terms of the same class add up, otherwise the heavier one wins.
    pub fn combine_sum(self, other: Self) -> (r: Self)
        requires
            match (self, other) {
                (TimeComplexity::Constant(a), TimeComplexity::Constant(b)) => a + b <= usize::MAX,
                (TimeComplexity::Linear(a), TimeComplexity::Linear(b)) => a + b <= usize::MAX,
                _ => true,
            },
        ensures
            r == match (self, other) {
                (TimeComplexity::Constant(a), TimeComplexity::Constant(b)) => TimeComplexity::Constant(
                    (a + b) as usize,
                ),
                (TimeComplexity::Linear(a), TimeComplexity::Linear(b)) => TimeComplexity::Linear(
                    (a + b) as usize,
                ),
                _ => time_max(self, other),
            },
    {
        match (self, other) {
            (TimeComplexity::Constant(a), TimeComplexity::Constant(b)) => TimeComplexity::Constant(a + b),
            (TimeComplexity::Linear(a), TimeComplexity::Linear(b)) => TimeComplexity::Linear(a + b),
            (a, b) => {
                if a.as_big_o_factor() >= b.as_big_o_factor() {
                    a
                } else {
                    b
                }
            },
        }
    }

    /// The heavier of two complexities, this one on a tie.
    pub fn combine_max(self, other: Self) -> (r: Self)
        ensures
            r == time_max(self, other),
    {
        if self.as_big_o_factor() >= other.as_big_o_factor() {
            self
        } else {
            other
        }
    }
}

/// Taking the heavier complexity picks one of the two, never loses weight,
/// and does not depend on the order unless both weigh the same.
pub proof fn lemma_time_max(a: TimeComplexity, b: TimeComplexity)
    ensures
        time_max(a, b) == a || time_max(a, b) == b,
        time_weight(time_max(a, b)) >= time_weight(a),
        time_weight(time_max(a, b)) >= time_weight(b),
        time_weight(a) != time_weight(b) ==> time_max(a, b) == time_max(b, a),
        time_max(a, a) == a,
{
}

/// Whether `combine_sum` can add the two without overflow.
pub open spec fn sum_fits(a: TimeComplexity, b: TimeComplexity) -> bool {
    match (a, b) {
        (TimeComplexity::Constant(x), TimeComplexity::Constant(y)) => x + y <= usize::MAX,
        (TimeComplexity::Linear(x), TimeComplexity::Linear(y)) => x + y <= usize::MAX,
        _ => true,
    }
}

/// What `combine_sum` gives: constant and linear terms of the same class add
/// up, otherwise the heavier one wins.
pub open spec fn time_sum(a: TimeComplexity, b: TimeComplexity) -> TimeComplexity {
    match (a, b) {
        (TimeComplexity::Constant(x), TimeComplexity::Constant(y)) => TimeComplexity::Constant((x + y) as usize),
        (TimeComplexity::Linear(x), TimeComplexity::Linear(y)) => TimeComplexity::Linear((x + y) as usize),
        _ => time_max(a, b),
    }
}

/// The sum of two complexities, or `None` when either is missing or the sum
/// overflows.
pub open spec fn sum_opt(a: Option<TimeComplexity>, b: Option<TimeComplexity>) -> Option<TimeComplexity> {
    match (a, b) {
        (Some(x), Some(y)) => if sum_fits(x, y) { Some(time_sum(x, y)) } else { None },
        _ => None,
    }
}

/// The heavier of two complexities, or `None` when either is missing.
pub open spec fn max_opt(a: Option<TimeComplexity>, b: Option<TimeComplexity>) -> Option<TimeComplexity> {
    match (a, b) {
        (Some(x), Some(y)) => Some(time_max(x, y)),
        _ => None,
    }
}

/// Time complexity of an expression, or `None` when a sum along the way
/// overflows: literals, variables and quotations cost `Constant(1)`; an
/// application costs its operator plus its operands summed from
/// `Constant(0)`; a lambda or `begin` its body summed; an `if` its test plus
/// the heavier branch (a missing alternative counting `Constant(0)`); a `let`
/// or `letrec` its binding values summed plus its body summed.
pub open spec fn time_opt(e: Expr) -> Option<TimeComplexity>
    decreases e,
{
    match e {
        Expr::Literal(_) => Some(TimeComplexity::Constant(1)),
        Expr::Variable(_) => Some(TimeComplexity::Constant(1)),
        Expr::Quote(_) => Some(TimeComplexity::Constant(1)),
        Expr::Application { operator, operands } => sum_opt(time_opt(*operator), fold_time(operands@)),
        Expr::Lambda { params, body } => fold_time(body@),
        Expr::If { test, consequent, alternative } => sum_opt(
            time_opt(*test),
            max_opt(time_opt(*consequent), match alternative {
                Some(a) => time_opt(*a),
                None => Some(TimeComplexity::Constant(0)),
            }),
        ),
        Expr::Let { bindings, body } => sum_opt(fold_binding_time(bindings@), fold_time(body@)),
        Expr::LetRec { bindings, body } => sum_opt(fold_binding_time(bindings@), fold_time(body@)),
        Expr::Begin(body) => fold_time(body@),
    }
}

/// The complexities of a sequence of expressions summed from `Constant(0)`,
/// left to right.
pub open spec fn fold_time(es: Seq<Expr>) -> Option<TimeComplexity>
    decreases es,
{
    if es.len() == 0 {
        Some(TimeComplexity::Constant(0))
    } else {
        sum_opt(fold_time(es.subrange(0, es.len() - 1)), time_opt(es[es.len() - 1]))
    }
}

/// The complexities of the bound values summed from `Constant(0)`, left to right.
pub open spec fn fold_binding_time(bs: Seq<(String, Expr)>) -> Option<TimeComplexity>
    decreases bs,
{
    if bs.len() == 0 {
        Some(TimeComplexity::Constant(0))
    } else {
        sum_opt(fold_binding_time(bs.subrange(0, bs.len() - 1)), time_opt(bs[bs.len() - 1].1))
    }
}

/// Whether the time complexity of `e` can be computed without overflow.
pub open spec fn complexity_fits(e: Expr) -> bool {
    time_opt(e) is Some
}

/// The time complexity of `e` (meaningful where `complexity_fits(e)`).
pub open spec fn spec_time_complexity(e: Expr) -> TimeComplexity {
    time_opt(e).unwrap()
}

/// A sum of a sequence that does not overflow has no prefix whose sum does.
proof fn lemma_fold_time_prefix(es: Seq<Expr>, j: int)
    requires
        fold_time(es) is Some,
        0 <= j <= es.len(),
    ensures
        fold_time(es.subrange(0, j)) is Some,
    decreases es.len(),
{
    if j == es.len() {
        assert(es.subrange(0, j) =~= es);
    } else {
        let front = es.subrange(0, es.len() - 1);
        lemma_fold_time_prefix(front, j);
        assert(front.subrange(0, j) =~= es.subrange(0, j));
    }
}

/// A sum of bindings that does not overflow has no prefix whose sum does.
proof fn lemma_fold_binding_time_prefix(bs: Seq<(String, Expr)>, j: int)
    requires
        fold_binding_time(bs) is Some,
        0 <= j <= bs.len(),
    ensures
        fold_binding_time(bs.subrange(0, j)) is Some,
    decreases bs.len(),
{
    if j == bs.len() {
        assert(bs.subrange(0, j) =~= bs);
    } else {
        let front = bs.subrange(0, bs.len() - 1);
        lemma_fold_binding_time_prefix(front, j);
        assert(front.subrange(0, j) =~= bs.subrange(0, j));
    }
}

proof fn lemma_sum_weight(a: TimeComplexity, b: TimeComplexity)
    requires
        sum_fits(a, b),
    ensures
        time_weight(time_sum(a, b)) >= time_weight(a),
        time_weight(time_sum(a, b)) >= time_weight(b),
{
}

proof fn lemma_fold_time_weight(es: Seq<Expr>, i: int)
    requires
        fold_time(es) is Some,
        0 <= i < es.len(),
    ensures
        time_opt(es[i]) is Some,
        time_weight(fold_time(es).unwrap()) >= time_weight(time_opt(es[i]).unwrap()),
    decreases es.len(),
{
    let init = es.subrange(0, es.len() - 1);
    let last = es[es.len() - 1];
    assert(fold_time(es) == sum_opt(fold_time(init), time_opt(last)));
    lemma_sum_weight(fold_time(init).unwrap(), time_opt(last).unwrap());
    if i < es.len() - 1 {
        assert(init[i] == es[i]);
        lemma_fold_time_weight(init, i);
    }
}

proof fn lemma_fold_binding_time_weight(bs: Seq<(String, Expr)>, i: int)
    requires
        fold_binding_time(bs) is Some,
        0 <= i < bs.len(),
    ensures
        time_opt(bs[i].1) is Some,
        time_weight(fold_binding_time(bs).unwrap()) >= time_weight(time_opt(bs[i].1).unwrap()),
    decreases bs.len(),
{
    let init = bs.subrange(0, bs.len() - 1);
    let last = bs[bs.len() - 1];
    assert(fold_binding_time(bs) == sum_opt(fold_binding_time(init), time_opt(last.1)));
    lemma_sum_weight(fold_binding_time(init).unwrap(), time_opt(last.1).unwrap());
    if i < bs.len() - 1 {
        assert(init[i] == bs[i]);
        lemma_fold_binding_time_weight(init, i);
    }
}

/// An expression costs at least as much time as each part that it always
/// runs: an application its operator and each operand, a `let` or `letrec`
/// each bound value and each body expression, a lambda or `begin` each body
/// expression, an `if` its test and each of its branches (the heavier branch
/// counts).
pub proof fn lemma_time_covers_parts(e: Expr)
    requires
        time_opt(e) is Some,
    ensures
        match e {
            Expr::Application { operator, operands } => {
                &&& time_weight(time_opt(e).unwrap()) >= time_weight(time_opt(*operator).unwrap())
                &&& forall|i: int| 0 <= i < operands@.len() ==>
                    time_weight(time_opt(e).unwrap()) >= time_weight(#[trigger] time_opt(operands@[i]).unwrap())
            },
            Expr::Let { bindings, body } => {
                &&& forall|i: int| 0 <= i < bindings@.len() ==>
                    time_weight(time_opt(e).unwrap()) >= time_weight(#[trigger] time_opt(bindings@[i].1).unwrap())
                &&& forall|i: int| 0 <= i < body@.len() ==>
                    time_weight(time_opt(e).unwrap()) >= time_weight(#[trigger] time_opt(body@[i]).unwrap())
            },
            Expr::LetRec { bindings, body } => {
                &&& forall|i: int| 0 <= i < bindings@.len() ==>
                    time_weight(time_opt(e).unwrap()) >= time_weight(#[trigger] time_opt(bindings@[i].1).unwrap())
                &&& forall|i: int| 0 <= i < body@.len() ==>
                    time_weight(time_opt(e).unwrap()) >= time_weight(#[trigger] time_opt(body@[i]).unwrap())
            },
            Expr::Lambda { params, body } => forall|i: int| 0 <= i < body@.len() ==>
                time_weight(time_opt(e).unwrap()) >= time_weight(#[trigger] time_opt(body@[i]).unwrap()),
            Expr::Begin(body) => forall|i: int| 0 <= i < body@.len() ==>
                time_weight(time_opt(e).unwrap()) >= time_weight(#[trigger] time_opt(body@[i]).unwrap()),
            Expr::If { test, consequent, alternative } => {
                &&& time_weight(time_opt(e).unwrap()) >= time_weight(time_opt(*test).unwrap())
                &&& time_weight(time_opt(e).unwrap()) >= time_weight(time_opt(*consequent).unwrap())
                &&& alternative matches Some(a) ==> time_weight(time_opt(e).unwrap()) >= time_weight(time_opt(*a).unwrap())
            },
            _ => true,
        },
{
    match e {
        Expr::Application { operator, operands } => {
            lemma_sum_weight(time_opt(*operator).unwrap(), fold_time(operands@).unwrap());
            assert forall|i: int| 0 <= i < operands@.len() implies
                time_weight(time_opt(e).unwrap()) >= time_weight(#[trigger] time_opt(operands@[i]).unwrap()) by {
                lemma_fold_time_weight(operands@, i);
            }
        },
        Expr::Let { bindings, body } => {
            lemma_sum_weight(fold_binding_time(bindings@).unwrap(), fold_time(body@).unwrap());
            assert forall|i: int| 0 <= i < bindings@.len() implies
                time_weight(time_opt(e).unwrap()) >= time_weight(#[trigger] time_opt(bindings@[i].1).unwrap()) by {
                lemma_fold_binding_time_weight(bindings@, i);
            }
            assert forall|i: int| 0 <= i < body@.len() implies
                time_weight(time_opt(e).unwrap()) >= time_weight(#[trigger] time_opt(body@[i]).unwrap()) by {
                lemma_fold_time_weight(body@, i);
            }
        },
        Expr::LetRec { bindings, body } => {
            lemma_sum_weight(fold_binding_time(bindings@).unwrap(), fold_time(body@).unwrap());
            assert forall|i: int| 0 <= i < bindings@.len() implies
                time_weight(time_opt(e).unwrap()) >= time_weight(#[trigger] time_opt(bindings@[i].1).unwrap()) by {
                lemma_fold_binding_time_weight(bindings@, i);
            }
            assert forall|i: int| 0 <= i < body@.len() implies
                time_weight(time_opt(e).unwrap()) >= time_weight(#[trigger] time_opt(body@[i]).unwrap()) by {
                lemma_fold_time_weight(body@, i);
            }
        },
        Expr::Lambda { params, body } => {
            assert forall|i: int| 0 <= i < body@.len() implies
                time_weight(time_opt(e).unwrap()) >= time_weight(#[trigger] time_opt(body@[i]).unwrap()) by {
                lemma_fold_time_weight(body@, i);
            }
        },
        Expr::Begin(body) => {
            assert forall|i: int| 0 <= i < body@.len() implies
                time_weight(time_opt(e).unwrap()) >= time_weight(#[trigger] time_opt(body@[i]).unwrap()) by {
                lemma_fold_time_weight(body@, i);
            }
        },
        Expr::If { test, consequent, alternative } => {
            let branches = max_opt(time_opt(*consequent), match alternative {
                Some(a) => time_opt(*a),
                None => Some(TimeComplexity::Constant(0)),
            });
            lemma_sum_weight(time_opt(*test).unwrap(), branches.unwrap());
            lemma_time_max(time_opt(*consequent).unwrap(), match alternative {
                Some(a) => time_opt(*a).unwrap(),
                None => TimeComplexity::Constant(0),
            });
        },
        _ => {},
    }
}

/// A `letrec` costs the same time as the `let` with the same bindings and
/// body: binding recursively changes nothing of the work done.
pub proof fn lemma_letrec_time_as_let(bindings: Vec<(String, Expr)>, body: Vec<Expr>)
    ensures
        time_opt(Expr::LetRec { bindings, body }) == time_opt(Expr::Let { bindings, body }),
{
}

/// Control-flow complexity of an expression: one for the expression itself,
/// one more for an `if`, plus the complexity of the sub-expressions of an
/// `if`, an application, a lambda body and the bindings and body of a `let`
/// or `letrec`. Other forms (and the body of a `begin`) count one.
pub open spec fn cf_count(e: Expr) -> nat
    decreases e,
{
    match e {
        Expr::If { test, consequent, alternative } => 2 + cf_count(*test) + cf_count(*consequent)
            + match alternative {
                Some(a) => cf_count(*a),
                None => 0,
            },
        Expr::Lambda { params, body } => 1 + cf_sum(body@),
        Expr::Application { operator, operands } => 1 + cf_count(*operator) + cf_sum(operands@),
        Expr::Let { bindings, body } => 1 + cf_binding_sum(bindings@) + cf_sum(body@),
        Expr::LetRec { bindings, body } => 1 + cf_binding_sum(bindings@) + cf_sum(body@),
        _ => 1,
    }
}

/// The control-flow complexities of a sequence of expressions, summed.
pub open spec fn cf_sum(es: Seq<Expr>) -> nat
    decreases es,
{
    if es.len() == 0 {
        0
    } else {
        cf_sum(es.subrange(0, es.len() - 1)) + cf_count(es[es.len() - 1])
    }
}

/// The control-flow complexities of the bound values, summed.
pub open spec fn cf_binding_sum(bs: Seq<(String, Expr)>) -> nat
    decreases bs,
{
    if bs.len() == 0 {
        0
    } else {
        cf_binding_sum(bs.subrange(0, bs.len() - 1)) + cf_count(bs[bs.len() - 1].1)
    }
}

proof fn lemma_cf_sum_prefix(es: Seq<Expr>, j: int)
    requires
        0 <= j <= es.len(),
    ensures
        cf_sum(es.subrange(0, j)) <= cf_sum(es),
    decreases es.len(),
{
    if j == es.len() {
        assert(es.subrange(0, j) =~= es);
    } else {
        let front = es.subrange(0, es.len() - 1);
        lemma_cf_sum_prefix(front, j);
        assert(front.subrange(0, j) =~= es.subrange(0, j));
    }
}

proof fn lemma_cf_binding_sum_prefix(bs: Seq<(String, Expr)>, j: int)
    requires
        0 <= j <= bs.len(),
    ensures
        cf_binding_sum(bs.subrange(0, j)) <= cf_binding_sum(bs),
    decreases bs.len(),
{
    if j == bs.len() {
        assert(bs.subrange(0, j) =~= bs);
    } else {
        let front = bs.subrange(0, bs.len() - 1);
        lemma_cf_binding_sum_prefix(front, j);
        assert(front.subrange(0, j) =~= bs.subrange(0, j));
    }
}

fn cf_of(ast: &Expr) -> (n: u64)
    requires
        cf_count(*ast) <= u64::MAX,
    ensures
        n == cf_count(*ast),
    decreases ast,
{
    match ast {
        Expr::If { test, consequent, alternative } => {
            let t = cf_of(&**test);
            let c = cf_of(&**consequent);
            let a = match alternative {
                Some(x) => cf_of(&**x),
                None => 0,
            };
            2 + t + c + a
        },
        Expr::Lambda { params, body } => 1 + cf_of_all(body),
        Expr::Application { operator, operands } => {
            let o = cf_of(&**operator);
            1 + o + cf_of_all(operands)
        },
        Expr::Let { bindings, body } => {
            let b = cf_of_bindings(bindings);
            1 + b + cf_of_all(body)
        },
        Expr::LetRec { bindings, body } => {
            let b = cf_of_bindings(bindings);
            1 + b + cf_of_all(body)
        },
        _ => 1,
    }
}

fn cf_of_all(es: &Vec<Expr>) -> (n: u64)
    requires
        cf_sum(es@) <= u64::MAX,
    ensures
        n == cf_sum(es@),
    decreases es,
{
    let mut acc: u64 = 0;
    let mut i: usize = 0;
    assert(es@.subrange(0, 0) =~= Seq::<Expr>::empty());
    while i < es.len()
        invariant
            i <= es@.len(),
            cf_sum(es@) <= u64::MAX,
            acc == cf_sum(es@.subrange(0, i as int)),
        decreases es@.len() - i,
    {
        proof {
            lemma_cf_sum_prefix(es@, i + 1);
            let next = es@.subrange(0, i + 1);
            assert(next.subrange(0, i as int) =~= es@.subrange(0, i as int));
            assert(next[i as int] == es@[i as int]);
            assert(decreases_to!(es => es@[i as int]));
        }
        let c = cf_of(&es[i]);
        acc = acc + c;
        i = i + 1;
    }
    assert(es@.subrange(0, es@.len() as int) =~= es@);
    acc
}

fn cf_of_bindings(bs: &Vec<(String, Expr)>) -> (n: u64)
    requires
        cf_binding_sum(bs@) <= u64::MAX,
    ensures
        n == cf_binding_sum(bs@),
    decreases bs,
{
    let mut acc: u64 = 0;
    let mut i: usize = 0;
    assert(bs@.subrange(0, 0) =~= Seq::<(String, Expr)>::empty());
    while i < bs.len()
        invariant
            i <= bs@.len(),
            cf_binding_sum(bs@) <= u64::MAX,
            acc == cf_binding_sum(bs@.subrange(0, i as int)),
        decreases bs@.len() - i,
    {
        proof {
            lemma_cf_binding_sum_prefix(bs@, i + 1);
            let next = bs@.subrange(0, i + 1);
            assert(next.subrange(0, i as int) =~= bs@.subrange(0, i as int));
            assert(next[i as int] == bs@[i as int]);
            assert(decreases_to!(bs => bs@[i as int].1));
        }
        let c = cf_of(&bs[i].1);
        acc = acc + c;
        i = i + 1;
    }
    assert(bs@.subrange(0, bs@.len() as int) =~= bs@);
    acc
}

/// Time complexity of one expression; see `time_opt`.
fn time_of(ast: &Expr) -> (t: TimeComplexity)
    requires
        complexity_fits(*ast),
    ensures
        Some(t) == time_opt(*ast),
    decreases ast,
{
    match ast {
        Expr::Literal(_) => TimeComplexity::Constant(1),
        Expr::Variable(_) => TimeComplexity::Constant(1),
        Expr::Quote(_) => TimeComplexity::Constant(1),
        Expr::Application { operator, operands } => {
            let op = time_of(&**operator);
            let args = time_of_all(operands);
            op.combine_sum(args)
        },
        Expr::Lambda { params, body } => time_of_all(body),
        Expr::If { test, consequent, alternative } => {
            let t = time_of(&**test);
            let c = time_of(&**consequent);
            let a = match alternative {
                Some(x) => time_of(&**x),
                None => TimeComplexity::Constant(0),
            };
            let branch = c.combine_max(a);
            t.combine_sum(branch)
        },
        Expr::Let { bindings, body } => {
            let b = time_of_bindings(bindings);
            let r = time_of_all(body);
            b.combine_sum(r)
        },
        Expr::LetRec { bindings, body } => {
            let b = time_of_bindings(bindings);
            let r = time_of_all(body);
            b.combine_sum(r)
        },
        Expr::Begin(body) => time_of_all(body),
    }
}

/// The complexities of `es` summed from `Constant(0)`; see `fold_time`.
fn time_of_all(es: &Vec<Expr>) -> (t: TimeComplexity)
    requires
        fold_time(es@) is Some,
    ensures
        Some(t) == fold_time(es@),
    decreases es,
{
    let mut acc = TimeComplexity::Constant(0);
    let mut i: usize = 0;
    assert(es@.subrange(0, 0) =~= Seq::<Expr>::empty());
    while i < es.len()
        invariant
            i <= es@.len(),
            fold_time(es@) is Some,
            fold_time(es@.subrange(0, i as int)) == Some(acc),
        decreases es@.len() - i,
    {
        proof {
            lemma_fold_time_prefix(es@, i + 1);
            let next = es@.subrange(0, i + 1);
            assert(next.subrange(0, i as int) =~= es@.subrange(0, i as int));
            assert(next[i as int] == es@[i as int]);
            assert(decreases_to!(es => es@[i as int]));
        }
        let c = time_of(&es[i]);
        acc = acc.combine_sum(c);
        i = i + 1;
    }
    assert(es@.subrange(0, es@.len() as int) =~= es@);
    acc
}

/// The complexities of the bound values summed from `Constant(0)`; see
/// `fold_binding_time`.
fn time_of_bindings(bs: &Vec<(String, Expr)>) -> (t: TimeComplexity)
    requires
        fold_binding_time(bs@) is Some,
    ensures
        Some(t) == fold_binding_time(bs@),
    decreases bs,
{
    let mut acc = TimeComplexity::Constant(0);
    let mut i: usize = 0;
    assert(bs@.subrange(0, 0) =~= Seq::<(String, Expr)>::empty());
    while i < bs.len()
        invariant
            i <= bs@.len(),
            fold_binding_time(bs@) is Some,
            fold_binding_time(bs@.subrange(0, i as int)) == Some(acc),
        decreases bs@.len() - i,
    {
        proof {
            lemma_fold_binding_time_prefix(bs@, i + 1);
            let next = bs@.subrange(0, i + 1);
            assert(next.subrange(0, i as int) =~= bs@.subrange(0, i as int));
            assert(next[i as int] == bs@[i as int]);
            assert(decreases_to!(bs => bs@[i as int].1));
        }
        let c = time_of(&bs[i].1);
        acc = acc.combine_sum(c);
        i = i + 1;
    }
    assert(bs@.subrange(0, bs@.len() as int) =~= bs@);
    acc
}

/// Analyzer of the computational complexity of expressions.
#[derive(Debug, Clone, Copy)]
pub struct ComputationalComplexityAnalyzer {
    /// Depth of the analysis in progress.
    pub calculation_depth: usize,
}

impl ComputationalComplexityAnalyzer {
    /// A new analyzer, at depth zero.
    pub fn new() -> (r: Result<Self, LambdustError>)
        ensures
            r matches Ok(a) && a.calculation_depth == 0,
    {
        Ok(ComputationalComplexityAnalyzer { calculation_depth: 0 })
    }

    /// Time complexity of an expression by its structure; see `time_opt`.
    /// Expressions whose complexity sums overflow are left out.
    pub fn calculate_time_complexity(&mut self, ast: &Expr) -> (r: Result<TimeComplexity, LambdustError>)
        requires
            complexity_fits(*ast),
        ensures
            r == Ok::<TimeComplexity, LambdustError>(spec_time_complexity(*ast)),
            *final(self) == *old(self),
    {
        Ok(time_of(ast))
    }

    /// Control-flow complexity of an expression; see `cf_count`.
    pub fn calculate_control_flow_complexity(&mut self, ast: &Expr) -> (r: Result<u64, LambdustError>)
        requires
            cf_count(*ast) <= u64::MAX,
        ensures
            r == Ok::<u64, LambdustError>(cf_count(*ast) as u64),
            *final(self) == *old(self),
    {
        Ok(cf_of(ast))
    }

    /// Space complexity of an expression by stack depth; see `space_opt`.
    /// Expressions whose constants overflow are left out.
    pub fn calculate_space_complexity(&mut self, ast: &Expr) -> (r: Result<SpaceComplexity, LambdustError>)
        requires
            space_opt(*ast) is Some,
        ensures
            r == Ok::<SpaceComplexity, LambdustError>(space_opt(*ast).unwrap()),
            *final(self) == *old(self),
    {
        Ok(space_of(ast))
    }
}

/// Space complexity classification, each class with its constant factor.
#[derive(Debug, Clone, Copy, PartialEq, Eq, Structural)]
pub enum SpaceComplexity {
    Constant(usize),
    Logarithmic(usize),
    Linear(usize),
    Quadratic(usize),
    Unknown,
}

/// Weight of a space complexity class: its factor times the class's cost
/// multiplier (1, 2, 10, 100), or 50 when unknown.
pub open spec fn space_weight(c: SpaceComplexity) -> nat {
    match c {
        SpaceComplexity::Constant(n) => n as nat,
        SpaceComplexity::Logarithmic(n) => (n as nat) * 2,
        SpaceComplexity::Linear(n) => (n as nat) * 10,
        SpaceComplexity::Quadratic(n) => (n as nat) * 100,
        SpaceComplexity::Unknown => 50,
    }
}

impl SpaceComplexity {
    /// The weight used to compare complexities.
    pub fn as_big_o_factor(&self) -> (w: u128)
        ensures
            w == space_weight(*self),
    {
        match self {
            SpaceComplexity::Constant(n) => *n as u128,
            SpaceComplexity::Logarithmic(n) => (*n as u128) * 2,
            SpaceComplexity::Linear(n) => (*n as u128) * 10,
            SpaceComplexity::Quadratic(n) => (*n as u128) * 100,
            SpaceComplexity::Unknown => 50,
        }
    }

    /// The heavier of two complexities, this one on a tie.
    pub fn combine_max(self, other: Self) -> (r: Self)
        ensures
            r == if space_weight(self) >= space_weight(other) {
                self
            } else {
                other
            },
    {
        if self.as_big_o_factor() >= other.as_big_o_factor() {
            self
        } else {
            other
        }
    }

    /// Adds a constant amount of space: a constant grows, any higher class
    /// dominates and stays as it is.
    pub fn add_constant(self, constant: usize) -> (r: Self)
        requires
            self matches SpaceComplexity::Constant(n) ==> n + constant <= usize::MAX,
        ensures
            r == match self {
                SpaceComplexity::Constant(n) => SpaceComplexity::Constant((n + constant) as usize),
                other => other,
            },
    {
        match self {
            SpaceComplexity::Constant(n) => SpaceComplexity::Constant(n + constant),
            other => other,
        }
    }
}

/// The heavier of two space complexities, the first on a tie.
pub open spec fn space_max(a: SpaceComplexity, b: SpaceComplexity) -> SpaceComplexity {
    if space_weight(a) >= space_weight(b) { a } else { b }
}

/// The heavier of two space complexities, or `None` when either is missing.
pub open spec fn space_max_opt(a: Option<SpaceComplexity>, b: Option<SpaceComplexity>) -> Option<SpaceComplexity> {
    match (a, b) {
        (Some(x), Some(y)) => Some(space_max(x, y)),
        _ => None,
    }
}

/// `add_constant` on a space complexity, or `None` when it is missing or
/// the constant overflows.
pub open spec fn space_add_opt(a: Option<SpaceComplexity>, k: nat) -> Option<SpaceComplexity> {
    match a {
        Some(SpaceComplexity::Constant(n)) => if n + k <= usize::MAX {
            Some(SpaceComplexity::Constant((n + k) as usize))
        } else {
            None
        },
        Some(other) => Some(other),
        None => None,
    }
}

/// Space complexity of an expression by stack depth, or `None` when a
/// constant overflows: a lambda needs the most its body needs plus one frame;
/// an application the most its operator or an operand needs plus one slot
/// per operand; anything else `Constant(1)`.
pub open spec fn space_opt(e: Expr) -> Option<SpaceComplexity>
    decreases e,
{
    match e {
        Expr::Lambda { params, body } => space_add_opt(fold_space(body@), 1),
        Expr::Application { operator, operands } => space_add_opt(
            space_max_opt(space_opt(*operator), fold_space(operands@)),
            operands@.len(),
        ),
        _ => Some(SpaceComplexity::Constant(1)),
    }
}

/// The heaviest space complexity of a sequence, starting from `Constant(0)`.
pub open spec fn fold_space(es: Seq<Expr>) -> Option<SpaceComplexity>
    decreases es,
{
    if es.len() == 0 {
        Some(SpaceComplexity::Constant(0))
    } else {
        space_max_opt(fold_space(es.subrange(0, es.len() - 1)), space_opt(es[es.len() - 1]))
    }
}

proof fn lemma_fold_space_prefix(es: Seq<Expr>, j: int)
    requires
        fold_space(es) is Some,
        0 <= j <= es.len(),
    ensures
        fold_space(es.subrange(0, j)) is Some,
    decreases es.len(),
{
    if j == es.len() {
        assert(es.subrange(0, j) =~= es);
    } else {
        let front = es.subrange(0, es.len() - 1);
        lemma_fold_space_prefix(front, j);
        assert(front.subrange(0, j) =~= es.subrange(0, j));
    }
}

/// Space complexity of one expression; see `space_opt`.
fn space_of(ast: &Expr) -> (c: SpaceComplexity)
    requires
        space_opt(*ast) is Some,
    ensures
        Some(c) == space_opt(*ast),
    decreases ast,
{
    match ast {
        Expr::Lambda { params, body } => space_of_all(body).add_constant(1),
        Expr::Application { operator, operands } => {
            let op = space_of(&**operator);
            let args = space_of_all(operands);
            op.combine_max(args).add_constant(operands.len())
        },
        _ => SpaceComplexity::Constant(1),
    }
}

/// The heaviest space complexity of `es`; see `fold_space`.
fn space_of_all(es: &Vec<Expr>) -> (c: SpaceComplexity)
    requires
        fold_space(es@) is Some,
    ensures
        Some(c) == fold_space(es@),
    decreases es,
{
    let mut acc = SpaceComplexity::Constant(0);
    let mut i: usize = 0;
    assert(es@.subrange(0, 0) =~= Seq::<Expr>::empty());
    while i < es.len()
        invariant
            i <= es@.len(),
            fold_space(es@) is Some,
            fold_space(es@.subrange(0, i as int)) == Some(acc),
        decreases es@.len() - i,
    {
        proof {
            lemma_fold_space_prefix(es@, i + 1);
            let next = es@.subrange(0, i + 1);
            assert(next.subrange(0, i as int) =~= es@.subrange(0, i as int));
            assert(next[i as int] == es@[i as int]);
            assert(decreases_to!(es => es@[i as int]));
        }
        let c = space_of(&es[i]);
        acc = acc.combine_max(c);
        i = i + 1;
    }
    assert(es@.subrange(0, es@.len() as int) =~= es@);
    acc
}

/// Memory optimization plan produced by the cache-aware optimizer.
#[derive(Debug, Clone, Copy, PartialEq, Eq, Structural)]
pub struct MemoryOptimizationPlan;

/// A vectorization opportunity found in an expression.
#[derive(Debug, Clone, Copy, PartialEq, Eq, Structural)]
pub struct VectorizationOpportunity;

/// Plan for eliminating proofs at run time.
#[derive(Debug, Clone, Copy, PartialEq, Eq, Structural)]
pub struct ProofOptimizationPlan;

/// Schedule for compiling plans in parallel.
#[derive(Debug, Clone, Copy, PartialEq, Eq, Structural)]
pub struct ParallelCompilationSchedule;

/// Cache-aware memory optimizer.
#[derive(Debug, Clone, Copy)]
pub struct CacheAwareMemoryOptimizer;

impl CacheAwareMemoryOptimizer {
    /// A new optimizer.
    pub fn new() -> (r: Result<Self, LambdustError>)
        ensures
            r is Ok,
    {
        Ok(CacheAwareMemoryOptimizer)
    }

    /// The memory plan for an expression; every expression gets the plain plan.
    pub fn analyze_memory_patterns(&mut self, ast: &Expr) -> (r: Result<MemoryOptimizationPlan, LambdustError>)
        ensures
            r == Ok::<MemoryOptimizationPlan, LambdustError>(MemoryOptimizationPlan),
    {
        Ok(MemoryOptimizationPlan)
    }
}

/// SIMD vectorization analyzer.
#[derive(Debug, Clone, Copy)]
pub struct SIMDVectorizationAnalyzer;

impl SIMDVectorizationAnalyzer {
    /// A new analyzer.
    pub fn new() -> (r: Result<Self, LambdustError>)
        ensures
            r is Ok,
    {
        Ok(SIMDVectorizationAnalyzer)
    }
}

/// Optimizer that removes run-time proof checks.
#[derive(Debug, Clone, Copy)]
pub struct ProofEliminationOptimizer;

impl ProofEliminationOptimizer {
    /// A new optimizer.
    pub fn new() -> (r: Result<Self, LambdustError>)
        ensures
            r is Ok,
    {
        Ok(ProofEliminationOptimizer)
    }
}

/// Scheduler for parallel compilation.
#[derive(Debug, Clone, Copy)]
pub struct ParallelCompilationScheduler;

impl ParallelCompilationScheduler {
    /// A new scheduler.
    pub fn new() -> (r: Result<Self, LambdustError>)
        ensures
            r is Ok,
    {
        Ok(ParallelCompilationScheduler)
    }
}

/// Model predicting the performance of compiled code.
#[derive(Debug, Clone, Copy)]
pub struct PerformancePredictionModel;

impl PerformancePredictionModel {
    /// A new model.
    pub fn new() -> (r: Result<Self, LambdustError>)
        ensures
            r is Ok,
    {
        Ok(PerformancePredictionModel)
    }
}

} // verus!
