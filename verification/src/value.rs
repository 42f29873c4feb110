//! Scheme values as seen by host code and by the JIT runtime.
use vstd::prelude::*;
use crate::text::{decimal_text, push_decimal};

verus! {

/// A Scheme number. Exact integers are the only numbers the library computes with.
#[derive(Debug, Clone, Copy, PartialEq, Eq)]
pub enum SchemeNumber {
    /// An exact integer.
    Integer(i64),
}

/// A procedure value.
#[derive(Debug)]
pub enum Procedure {
    /// A function provided by the host application; `arity` is `None` when variadic.
    HostFunction { name: String, arity: Option<usize> },
    /// A procedure defined in Scheme with `param_count` parameters.
    Lambda { label: Option<String>, param_count: usize },
}

impl Clone for Procedure {
    fn clone(&self) -> (r: Self)
        ensures
            r == *self,
    {
        match self {
            Procedure::HostFunction { name, arity } => Procedure::HostFunction {
                name: name.clone(),
                arity: *arity,
            },
            Procedure::Lambda { label, param_count } => Procedure::Lambda {
                label: match label {
                    Some(l) => Some(l.clone()),
                    None => None,
                },
                param_count: *param_count,
            },
        }
    }
}

/// A Scheme value.
#[derive(Debug)]
pub enum Value {
    /// The empty list.
    Nil,
    /// A boolean.
    Boolean(bool),
    /// A number.
    Number(SchemeNumber),
    /// A string.
    String(String),
    /// A symbol.
    Symbol(String),
    /// A pair (cons cell).
    Pair(Box<Value>, Box<Value>),
    /// A procedure.
    Procedure(Procedure),
    /// The value of an expression whose value is unspecified.
    Unspecified,
    /// The value of an uninitialized binding.
    Undefined,
}

impl Clone for Value {
    fn clone(&self) -> (r: Self)
        ensures
            r == *self,
        decreases self,
    {
        match self {
            Value::Nil => Value::Nil,
            Value::Boolean(b) => Value::Boolean(*b),
            Value::Number(n) => Value::Number(*n),
            Value::String(s) => Value::String(s.clone()),
            Value::Symbol(s) => Value::Symbol(s.clone()),
            Value::Pair(a, d) => {
                let a2: Value = (**a).clone();
                let d2: Value = (**d).clone();
                Value::Pair(Box::new(a2), Box::new(d2))
            },
            Value::Procedure(p) => Value::Procedure(p.clone()),
            Value::Unspecified => Value::Unspecified,
            Value::Undefined => Value::Undefined,
        }
    }
}

impl Value {
    /// A proper list: the empty list, or a pair whose tail is a proper list.
    pub open spec fn spec_is_list(&self) -> bool
        decreases self,
    {
        match self {
            Value::Nil => true,
            Value::Pair(_, cdr) => cdr.spec_is_list(),
            _ => false,
        }
    }

    /// Whether this value is a proper list.
    pub fn is_list(&self) -> (b: bool)
        ensures
            b == self.spec_is_list(),
        decreases self,
    {
        match self {
            Value::Nil => true,
            Value::Pair(_, cdr) => cdr.is_list(),
            _ => false,
        }
    }

    /// Whether this value is a procedure.
    pub fn is_procedure(&self) -> (b: bool)
        ensures
            b == (*self is Procedure),
    {
        match self {
            Value::Procedure(_) => true,
            _ => false,
        }
    }

    /// The exact integer value `n`.
    pub open spec fn integer_spec(n: i64) -> Value {
        Value::Number(SchemeNumber::Integer(n))
    }

    /// An exact integer value.
    pub fn integer(n: i64) -> (v: Value)
        ensures
            v == Value::integer_spec(n),
    {
        Value::Number(SchemeNumber::Integer(n))
    }

    /// The exact integer this value holds, if it holds one.
    pub fn as_integer(&self) -> (r: Option<i64>)
        ensures
            r == (match *self {
                Value::Number(SchemeNumber::Integer(n)) => Some(n),
                _ => None,
            }),
    {
        match self {
            Value::Number(SchemeNumber::Integer(n)) => Some(*n),
            _ => None,
        }
    }
}

/// The decimal text of an integer, with a leading minus when negative.
pub open spec fn integer_text(n: i64) -> Seq<char> {
    if n < 0 {
        "-"@ + decimal_text((-n) as nat)
    } else {
        decimal_text(n as nat)
    }
}

/// The text of a value: numbers in decimal, booleans as `#t` and `#f`,
/// strings in double quotes when `quoted` and bare otherwise, symbols by
/// name, lists in parentheses (an improper tail after a dot), and
/// `#<procedure>`, `#<unspecified>` and `#<undefined>` for the rest.
pub open spec fn value_text(v: Value, quoted: bool) -> Seq<char>
    decreases v, 0nat,
{
    match v {
        Value::Nil => "()"@,
        Value::Boolean(b) => if b { "#t"@ } else { "#f"@ },
        Value::Number(SchemeNumber::Integer(n)) => integer_text(n),
        Value::String(s) => if quoted { "\""@ + s@ + "\""@ } else { s@ },
        Value::Symbol(s) => s@,
        Value::Pair(a, d) => "("@ + value_text(*a, quoted) + tail_text(*d, quoted),
        Value::Procedure(_) => "#<procedure>"@,
        Value::Unspecified => "#<unspecified>"@,
        Value::Undefined => "#<undefined>"@,
    }
}

/// The rest of a list's text after its first element, closing parenthesis
/// included.
pub open spec fn tail_text(v: Value, quoted: bool) -> Seq<char>
    decreases v, 1nat,
{
    match v {
        Value::Nil => ")"@,
        Value::Pair(a, d) => " "@ + value_text(*a, quoted) + tail_text(*d, quoted),
        _ => " . "@ + value_text(v, quoted) + ")"@,
    }
}

fn append_integer_text(out: &mut String, n: i64)
    ensures
        final(out)@ == old(out)@ + integer_text(n),
{
    if n < 0 {
        out.append("-");
        let a: u64 = if n == i64::MIN { 9223372036854775808u64 } else { (-n) as u64 };
        push_decimal(out, a);
        assert(final(out)@ =~= old(out)@ + integer_text(n)) by {
            reveal_strlit("-");
        }
    } else {
        push_decimal(out, n as u64);
    }
}

/// Appends the text of `v` to `out`; see `value_text`.
pub fn append_value_text(out: &mut String, v: &Value, quoted: bool)
    ensures
        final(out)@ == old(out)@ + value_text(*v, quoted),
    decreases v, 0nat,
{
    match v {
        Value::Nil => out.append("()"),
        Value::Boolean(b) => if *b { out.append("#t") } else { out.append("#f") },
        Value::Number(SchemeNumber::Integer(n)) => append_integer_text(out, *n),
        Value::String(s) => {
            if quoted {
                out.append("\"");
                out.append(s.as_str());
                out.append("\"");
            } else {
                out.append(s.as_str());
            }
        },
        Value::Symbol(s) => out.append(s.as_str()),
        Value::Pair(a, d) => {
            out.append("(");
            append_value_text(out, &**a, quoted);
            append_tail_text(out, &**d, quoted);
        },
        Value::Procedure(_) => out.append("#<procedure>"),
        Value::Unspecified => out.append("#<unspecified>"),
        Value::Undefined => out.append("#<undefined>"),
    }
    assert(final(out)@ =~= old(out)@ + value_text(*v, quoted));
}

fn append_tail_text(out: &mut String, v: &Value, quoted: bool)
    ensures
        final(out)@ == old(out)@ + tail_text(*v, quoted),
    decreases v, 1nat,
{
    match v {
        Value::Nil => out.append(")"),
        Value::Pair(a, d) => {
            out.append(" ");
            append_value_text(out, &**a, quoted);
            append_tail_text(out, &**d, quoted);
        },
        _ => {
            out.append(" . ");
            append_value_text(out, v, quoted);
            out.append(")");
        },
    }
    assert(final(out)@ =~= old(out)@ + tail_text(*v, quoted));
}

/// The text `display` shows for a value: strings bare; see `value_text`.
pub fn display_string(v: &Value) -> (s: String)
    ensures
        s@ == value_text(*v, false),
{
    let mut s = String::new();
    append_value_text(&mut s, v, false);
    assert(s@ =~= value_text(*v, false));
    s
}

/// An expression of the source language.
#[derive(Debug)]
pub enum Expr {
    /// A literal value.
    Literal(Value),
    /// A variable reference.
    Variable(String),
    /// A quoted datum.
    Quote(Value),
    /// An application of an operator to operands.
    Application { operator: Box<Expr>, operands: Vec<Expr> },
    /// A procedure with its parameters and body.
    Lambda { params: Vec<String>, body: Vec<Expr> },
    /// A conditional, with or without an alternative.
    If { test: Box<Expr>, consequent: Box<Expr>, alternative: Option<Box<Expr>> },
    /// Local bindings, evaluated in order.
    Let { bindings: Vec<(String, Expr)>, body: Vec<Expr> },
    /// Recursive local bindings.
    LetRec { bindings: Vec<(String, Expr)>, body: Vec<Expr> },
    /// A sequence of expressions.
    Begin(Vec<Expr>),
}


/// The text of an expression, used as its key: literals as their values,
/// variables by name, quotations with a leading quote, and the compound forms
/// in parentheses with their parts separated by spaces.
pub open spec fn expr_text(e: Expr) -> Seq<char>
    decreases e,
{
    match e {
        Expr::Literal(v) => value_text(v, true),
        Expr::Variable(n) => n@,
        Expr::Quote(v) => "'"@ + value_text(v, true),
        Expr::Application { operator, operands } => "("@ + expr_text(*operator) + spaced_texts(operands@) + ")"@,
        Expr::Lambda { params, body } => "(lambda ("@ + joined_names(params@) + ")"@ + spaced_texts(body@) + ")"@,
        Expr::If { test, consequent, alternative } => "(if "@ + expr_text(*test) + " "@ + expr_text(*consequent)
            + match alternative {
                Some(a) => " "@ + expr_text(*a),
                None => Seq::empty(),
            } + ")"@,
        Expr::Let { bindings, body } => "(let ("@ + bindings_text(bindings@) + ")"@ + spaced_texts(body@) + ")"@,
        Expr::LetRec { bindings, body } => "(letrec ("@ + bindings_text(bindings@) + ")"@ + spaced_texts(body@) + ")"@,
        Expr::Begin(body) => "(begin"@ + spaced_texts(body@) + ")"@,
    }
}

/// The texts of expressions, each after a space.
pub open spec fn spaced_texts(es: Seq<Expr>) -> Seq<char>
    decreases es,
{
    if es.len() == 0 {
        Seq::empty()
    } else {
        spaced_texts(es.subrange(0, es.len() - 1)) + " "@ + expr_text(es[es.len() - 1])
    }
}

/// The texts of bindings, each as `(name value)`.
pub open spec fn bindings_text(bs: Seq<(String, Expr)>) -> Seq<char>
    decreases bs,
{
    if bs.len() == 0 {
        Seq::empty()
    } else {
        bindings_text(bs.subrange(0, bs.len() - 1)) + "("@ + bs[bs.len() - 1].0@ + " "@ + expr_text(bs[bs.len() - 1].1) + ")"@
    }
}

/// Names separated by single spaces.
pub open spec fn joined_names(ns: Seq<String>) -> Seq<char>
    decreases ns.len(),
{
    if ns.len() == 0 {
        Seq::empty()
    } else if ns.len() == 1 {
        ns[0]@
    } else {
        joined_names(ns.subrange(0, ns.len() - 1)) + " "@ + ns[ns.len() - 1]@
    }
}

fn append_joined_names(out: &mut String, ns: &Vec<String>)
    ensures
        final(out)@ == old(out)@ + joined_names(ns@),
{
    let mut i: usize = 0;
    assert(ns@.subrange(0, 0) =~= Seq::<String>::empty());
    assert(old(out)@ + joined_names(Seq::<String>::empty()) =~= old(out)@);
    while i < ns.len()
        invariant
            i <= ns@.len(),
            out@ == old(out)@ + joined_names(ns@.subrange(0, i as int)),
        decreases ns@.len() - i,
    {
        let ghost before = out@;
        if i > 0 {
            out.append(" ");
        }
        out.append(ns[i].as_str());
        proof {
            let t = ns@.subrange(0, i + 1);
            assert(t.subrange(0, i as int) =~= ns@.subrange(0, i as int));
            assert(t[i as int] == ns@[i as int]);
            if i == 0 {
                assert(ns@.subrange(0, 0) =~= Seq::<String>::empty());
                assert(out@ =~= old(out)@ + joined_names(t));
            } else {
                assert(out@ =~= old(out)@ + joined_names(t));
            }
        }
        i = i + 1;
    }
    assert(ns@.subrange(0, ns@.len() as int) =~= ns@);
}

/// Appends the text of `e`; see `expr_text`.
pub fn append_expr_text(out: &mut String, e: &Expr)
    ensures
        final(out)@ == old(out)@ + expr_text(*e),
    decreases e,
{
    match e {
        Expr::Literal(v) => append_value_text(out, v, true),
        Expr::Variable(n) => out.append(n.as_str()),
        Expr::Quote(v) => {
            out.append("'");
            append_value_text(out, v, true);
        },
        Expr::Application { operator, operands } => {
            out.append("(");
            append_expr_text(out, &**operator);
            append_spaced_texts(out, operands);
            out.append(")");
        },
        Expr::Lambda { params, body } => {
            out.append("(lambda (");
            append_joined_names(out, params);
            out.append(")");
            append_spaced_texts(out, body);
            out.append(")");
        },
        Expr::If { test, consequent, alternative } => {
            out.append("(if ");
            append_expr_text(out, &**test);
            out.append(" ");
            append_expr_text(out, &**consequent);
            match alternative {
                Some(a) => {
                    out.append(" ");
                    append_expr_text(out, &**a);
                },
                None => {},
            }
            out.append(")");
        },
        Expr::Let { bindings, body } => {
            out.append("(let (");
            append_bindings_text(out, bindings);
            out.append(")");
            append_spaced_texts(out, body);
            out.append(")");
        },
        Expr::LetRec { bindings, body } => {
            out.append("(letrec (");
            append_bindings_text(out, bindings);
            out.append(")");
            append_spaced_texts(out, body);
            out.append(")");
        },
        Expr::Begin(body) => {
            out.append("(begin");
            append_spaced_texts(out, body);
            out.append(")");
        },
    }
    assert(final(out)@ =~= old(out)@ + expr_text(*e));
}

fn append_spaced_texts(out: &mut String, es: &Vec<Expr>)
    ensures
        final(out)@ == old(out)@ + spaced_texts(es@),
    decreases es,
{
    let mut i: usize = 0;
    assert(es@.subrange(0, 0) =~= Seq::<Expr>::empty());
    assert(old(out)@ + spaced_texts(Seq::<Expr>::empty()) =~= old(out)@);
    while i < es.len()
        invariant
            i <= es@.len(),
            out@ == old(out)@ + spaced_texts(es@.subrange(0, i as int)),
        decreases es@.len() - i,
    {
        proof {
            assert(decreases_to!(es => es@[i as int]));
        }
        out.append(" ");
        append_expr_text(out, &es[i]);
        proof {
            let t = es@.subrange(0, i + 1);
            assert(t.subrange(0, i as int) =~= es@.subrange(0, i as int));
            assert(t[i as int] == es@[i as int]);
            assert(out@ =~= old(out)@ + spaced_texts(t));
        }
        i = i + 1;
    }
    assert(es@.subrange(0, es@.len() as int) =~= es@);
}

fn append_bindings_text(out: &mut String, bs: &Vec<(String, Expr)>)
    ensures
        final(out)@ == old(out)@ + bindings_text(bs@),
    decreases bs,
{
    let mut i: usize = 0;
    assert(bs@.subrange(0, 0) =~= Seq::<(String, Expr)>::empty());
    assert(old(out)@ + bindings_text(Seq::<(String, Expr)>::empty()) =~= old(out)@);
    while i < bs.len()
        invariant
            i <= bs@.len(),
            out@ == old(out)@ + bindings_text(bs@.subrange(0, i as int)),
        decreases bs@.len() - i,
    {
        proof {
            assert(decreases_to!(bs => bs@[i as int].1));
        }
        out.append("(");
        out.append(bs[i].0.as_str());
        out.append(" ");
        append_expr_text(out, &bs[i].1);
        out.append(")");
        proof {
            let t = bs@.subrange(0, i + 1);
            assert(t.subrange(0, i as int) =~= bs@.subrange(0, i as int));
            assert(t[i as int] == bs@[i as int]);
            assert(out@ =~= old(out)@ + bindings_text(t));
        }
        i = i + 1;
    }
    assert(bs@.subrange(0, bs@.len() as int) =~= bs@);
}

/// The key text of an expression; see `expr_text`.
pub fn expression_text(e: &Expr) -> (s: String)
    ensures
        s@ == expr_text(*e),
{
    let mut s = String::new();
    append_expr_text(&mut s, e);
    assert(s@ =~= expr_text(*e));
    s
}

/// Two expressions with the same structure, names and values.
pub open spec fn same_expr(a: Expr, b: Expr) -> bool
    decreases a,
{
    match (a, b) {
        (Expr::Literal(x), Expr::Literal(y)) => x == y,
        (Expr::Variable(x), Expr::Variable(y)) => x@ == y@,
        (Expr::Quote(x), Expr::Quote(y)) => x == y,
        (Expr::Application { operator: o1, operands: a1 }, Expr::Application { operator: o2, operands: a2 }) =>
            same_expr(*o1, *o2) && same_exprs(a1@, a2@),
        (Expr::Lambda { params: p1, body: b1 }, Expr::Lambda { params: p2, body: b2 }) =>
            same_names(p1@, p2@) && same_exprs(b1@, b2@),
        (Expr::If { test: t1, consequent: c1, alternative: e1 }, Expr::If { test: t2, consequent: c2, alternative: e2 }) =>
            same_expr(*t1, *t2) && same_expr(*c1, *c2) && match (e1, e2) {
                (Some(x), Some(y)) => same_expr(*x, *y),
                (None, None) => true,
                _ => false,
            },
        (Expr::Let { bindings: v1, body: b1 }, Expr::Let { bindings: v2, body: b2 }) =>
            same_bindings(v1@, v2@) && same_exprs(b1@, b2@),
        (Expr::LetRec { bindings: v1, body: b1 }, Expr::LetRec { bindings: v2, body: b2 }) =>
            same_bindings(v1@, v2@) && same_exprs(b1@, b2@),
        (Expr::Begin(b1), Expr::Begin(b2)) => same_exprs(b1@, b2@),
        _ => false,
    }
}

/// Two sequences of expressions, pairwise the same.
pub open spec fn same_exprs(a: Seq<Expr>, b: Seq<Expr>) -> bool
    decreases a,
{
    if a.len() == 0 {
        b.len() == 0
    } else {
        b.len() == a.len() && same_exprs(a.subrange(0, a.len() - 1), b.subrange(0, b.len() - 1))
            && same_expr(a[a.len() - 1], b[b.len() - 1])
    }
}

/// Two sequences of bindings, pairwise binding the same name to the same expression.
pub open spec fn same_bindings(a: Seq<(String, Expr)>, b: Seq<(String, Expr)>) -> bool
    decreases a,
{
    if a.len() == 0 {
        b.len() == 0
    } else {
        b.len() == a.len() && same_bindings(a.subrange(0, a.len() - 1), b.subrange(0, b.len() - 1))
            && a[a.len() - 1].0@ == b[b.len() - 1].0@ && same_expr(a[a.len() - 1].1, b[b.len() - 1].1)
    }
}

/// Two sequences of names with the same texts.
pub open spec fn same_names(a: Seq<String>, b: Seq<String>) -> bool {
    a.map_values(|s: String| s@) == b.map_values(|s: String| s@)
}

pub(crate) fn copy_names(v: &Vec<String>) -> (r: Vec<String>)
    ensures
        same_names(r@, v@),
{
    let mut r: Vec<String> = Vec::new();
    let mut i: usize = 0;
    while i < v.len()
        invariant
            i <= v@.len(),
            r@.map_values(|s: String| s@) == v@.subrange(0, i as int).map_values(|s: String| s@),
            r@.len() == i,
        decreases v@.len() - i,
    {
        let ghost before = r@;
        let c = v[i].clone();
        r.push(c);
        proof {
            let f = |s: String| s@;
            assert(r@.map_values(f).len() == v@.subrange(0, i + 1).map_values(f).len());
            assert forall|j: int| 0 <= j < i + 1 implies #[trigger] r@.map_values(f)[j] == v@.subrange(0, i + 1).map_values(f)[j] by {
                if j < i {
                    assert(before.map_values(f)[j] == v@.subrange(0, i as int).map_values(f)[j]);
                    assert(r@[j] == before[j]);
                }
            }
            assert(r@.map_values(f) =~= v@.subrange(0, i + 1).map_values(f));
        }
        i = i + 1;
    }
    assert(v@.subrange(0, i as int) =~= v@);
    r
}

impl Expr {
    /// A copy of the expression.
    pub fn deep_copy(&self) -> (r: Expr)
        ensures
            same_expr(r, *self),
        decreases self,
    {
        match self {
            Expr::Literal(v) => Expr::Literal(v.clone()),
            Expr::Variable(n) => Expr::Variable(n.clone()),
            Expr::Quote(v) => Expr::Quote(v.clone()),
            Expr::Application { operator, operands } => {
                let op = Box::new((**operator).deep_copy());
                Expr::Application { operator: op, operands: Expr::copy_all(operands) }
            },
            Expr::Lambda { params, body } => Expr::Lambda { params: copy_names(params), body: Expr::copy_all(body) },
            Expr::If { test, consequent, alternative } => {
                let t = Box::new((**test).deep_copy());
                let c = Box::new((**consequent).deep_copy());
                let a = match alternative {
                    Some(x) => Some(Box::new((**x).deep_copy())),
                    None => None,
                };
                Expr::If { test: t, consequent: c, alternative: a }
            },
            Expr::Let { bindings, body } => Expr::Let { bindings: Expr::copy_bindings(bindings), body: Expr::copy_all(body) },
            Expr::LetRec { bindings, body } => Expr::LetRec { bindings: Expr::copy_bindings(bindings), body: Expr::copy_all(body) },
            Expr::Begin(body) => Expr::Begin(Expr::copy_all(body)),
        }
    }

    fn copy_all(v: &Vec<Expr>) -> (r: Vec<Expr>)
        ensures
            same_exprs(r@, v@),
        decreases v,
    {
        let mut r: Vec<Expr> = Vec::new();
        let mut i: usize = 0;
        assert(v@.subrange(0, 0) =~= Seq::<Expr>::empty());
        while i < v.len()
            invariant
                i <= v@.len(),
                same_exprs(r@, v@.subrange(0, i as int)),
            decreases v@.len() - i,
        {
            proof {
                assert(decreases_to!(v => v@[i as int]));
            }
            let c = v[i].deep_copy();
            let ghost before = r@;
            r.push(c);
            proof {
                let vs = v@.subrange(0, i + 1);
                assert(vs.subrange(0, i as int) =~= v@.subrange(0, i as int));
                assert(r@.subrange(0, i as int) =~= before);
                assert(vs[i as int] == v@[i as int]);
            }
            i = i + 1;
        }
        assert(v@.subrange(0, i as int) =~= v@);
        r
    }

    fn copy_bindings(v: &Vec<(String, Expr)>) -> (r: Vec<(String, Expr)>)
        ensures
            same_bindings(r@, v@),
        decreases v,
    {
        let mut r: Vec<(String, Expr)> = Vec::new();
        let mut i: usize = 0;
        assert(v@.subrange(0, 0) =~= Seq::<(String, Expr)>::empty());
        while i < v.len()
            invariant
                i <= v@.len(),
                same_bindings(r@, v@.subrange(0, i as int)),
            decreases v@.len() - i,
        {
            proof {
                assert(decreases_to!(v => v@[i as int].1));
            }
            let name = v[i].0.clone();
            let c = v[i].1.deep_copy();
            let ghost before = r@;
            r.push((name, c));
            proof {
                let vs = v@.subrange(0, i + 1);
                assert(vs.subrange(0, i as int) =~= v@.subrange(0, i as int));
                assert(r@.subrange(0, i as int) =~= before);
                assert(vs[i as int] == v@[i as int]);
            }
            i = i + 1;
        }
        assert(v@.subrange(0, i as int) =~= v@);
        r
    }
}

impl Clone for Expr {
    fn clone(&self) -> (r: Self)
        ensures
            same_expr(r, *self),
    {
        self.deep_copy()
    }
}

/// A variable environment: bindings from names to values.
#[derive(Debug)]
pub struct Environment {
    /// Bindings, most recent last.
    pub bindings: Vec<(String, Value)>,
}

impl Environment {
    /// An environment without bindings.
    pub fn new() -> (e: Environment)
        ensures
            e.bindings@.len() == 0,
    {
        Environment { bindings: Vec::new() }
    }
}

} // verus!
