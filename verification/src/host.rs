//! Type descriptions of host functions and the checks made when Scheme code
//! calls one.
use vstd::prelude::*;
use crate::error::LambdustError;
use crate::formal_verification::core_types::same_text;
use crate::value::{append_value_text, value_text, Procedure, SchemeNumber, Value};
use crate::text::{decimal_text, push_decimal};

verus! {

/// Type information for function parameters and return values.
#[derive(Debug, Clone, Copy, PartialEq, Eq, Structural)]
pub enum ValueType {
    /// Any value type
    Any,
    /// Boolean type
    Boolean,
    /// Numeric type
    Number,
    /// String type
    String,
    /// Symbol type
    Symbol,
    /// List type
    List,
    /// Pair type
    Pair,
    /// Nil type
    Nil,
    /// Procedure type
    Procedure,
}

/// Whether `value` belongs to the type `t`.
pub open spec fn type_matches(t: ValueType, value: Value) -> bool {
    match t {
        ValueType::Any => true,
        ValueType::Boolean => value is Boolean,
        ValueType::Number => value is Number,
        ValueType::String => value is String,
        ValueType::Symbol => value is Symbol,
        ValueType::List => value.spec_is_list(),
        ValueType::Pair => value is Pair,
        ValueType::Nil => value is Nil,
        ValueType::Procedure => value is Procedure,
    }
}

/// The display name of a type.
pub open spec fn value_type_name(t: ValueType) -> Seq<char> {
    match t {
        ValueType::Any => "Any"@,
        ValueType::Boolean => "Boolean"@,
        ValueType::Number => "Number"@,
        ValueType::String => "String"@,
        ValueType::Symbol => "Symbol"@,
        ValueType::List => "List"@,
        ValueType::Pair => "Pair"@,
        ValueType::Nil => "Nil"@,
        ValueType::Procedure => "Procedure"@,
    }
}

impl ValueType {
    /// Check if a value matches this type
    pub fn matches(&self, value: &Value) -> (b: bool)
        ensures
            b == type_matches(*self, *value),
    {
        match (self, value) {
            (ValueType::Any, _) => true,
            (ValueType::Boolean, Value::Boolean(_)) => true,
            (ValueType::Number, Value::Number(_)) => true,
            (ValueType::String, Value::String(_)) => true,
            (ValueType::Symbol, Value::Symbol(_)) => true,
            (ValueType::List, v) => v.is_list(),
            (ValueType::Pair, Value::Pair(_, _)) => true,
            (ValueType::Nil, Value::Nil) => true,
            (ValueType::Procedure, Value::Procedure(_)) => true,
            _ => false,
        }
    }

    /// Get type name as string
    pub fn name(&self) -> (s: &'static str)
        ensures
            s@ == value_type_name(*self),
    {
        match self {
            ValueType::Any => "Any",
            ValueType::Boolean => "Boolean",
            ValueType::Number => "Number",
            ValueType::String => "String",
            ValueType::Symbol => "Symbol",
            ValueType::List => "List",
            ValueType::Pair => "Pair",
            ValueType::Nil => "Nil",
            ValueType::Procedure => "Procedure",
        }
    }
}

/// The message of a type error at parameter index `i` (reported 1-based):
/// the expected type's name, then the text `got` of the argument.
pub open spec fn parameter_error(i: int, expected: ValueType, got: Seq<char>) -> Seq<char> {
    "Parameter "@ + decimal_text((i + 1) as nat) + ": expected "@ + value_type_name(expected) + ", got "@ + got
}

/// The message of a return value that does not have the declared type.
pub open spec fn return_error(expected: ValueType, got: Seq<char>) -> Seq<char> {
    "Return value type mismatch: expected "@ + value_type_name(expected) + ", got "@ + got
}

/// Function signature descriptor
#[derive(Debug, Clone)]
pub struct FunctionSignature {
    /// Parameter types (None means variadic)
    pub parameters: Option<Vec<ValueType>>,
    /// Return type
    pub return_type: ValueType,
    /// Whether the function is variadic
    pub variadic: bool,
}

/// Whether the arity of `args` is accepted for the declared parameters.
pub open spec fn arity_ok(params: Seq<ValueType>, variadic: bool, nargs: nat) -> bool {
    if variadic {
        nargs >= params.len()
    } else {
        nargs == params.len()
    }
}

/// Whether the first `n` arguments have the declared parameter types.
pub open spec fn prefix_typed(params: Seq<ValueType>, args: Seq<Value>, n: int) -> bool {
    forall|i: int| 0 <= i < n ==> type_matches(#[trigger] params[i], args[i])
}

impl FunctionSignature {
    /// Create a new function signature
    pub fn new(parameters: Vec<ValueType>, return_type: ValueType) -> (s: Self)
        ensures
            s.parameters == Some(parameters),
            s.return_type == return_type,
            !s.variadic,
    {
        Self { parameters: Some(parameters), return_type, variadic: false }
    }

    /// Create a variadic function signature
    pub fn variadic(return_type: ValueType) -> (s: Self)
        ensures
            s.parameters is None,
            s.return_type == return_type,
            s.variadic,
    {
        Self { parameters: None, return_type, variadic: true }
    }

    /// Arguments accepted by this signature: with declared parameters, the arity
    /// fits and every declared parameter's argument has its type.
    pub open spec fn accepts(&self, args: Seq<Value>) -> bool {
        match self.parameters {
            None => true,
            Some(params) => arity_ok(params@, self.variadic, args.len())
                && prefix_typed(params@, args, params@.len() as int),
        }
    }

    /// Validate arguments against this signature
    pub fn validate_args(&self, args: &[Value]) -> (r: Result<(), LambdustError>)
        ensures
            r is Ok <==> self.accepts(args@),
            r matches Err(e) ==> match self.parameters {
                None => false,
                Some(params) => if !arity_ok(params@, self.variadic, args@.len()) {
                    e == LambdustError::ArityError { expected: params@.len() as usize, actual: args@.len() as usize }
                } else {
                    e matches LambdustError::TypeError { message } && exists|i: int|
                        #![trigger params@[i]]
                        0 <= i < params@.len() && prefix_typed(params@, args@, i)
                        && !type_matches(params@[i], args@[i])
                        && message@ == parameter_error(i, params@[i], value_text(args@[i], true))
                },
            },
    {
        if let Some(params) = &self.parameters {
            if !self.variadic && args.len() != params.len() {
                return Err(LambdustError::arity_error(params.len(), args.len()));
            }
            if self.variadic && args.len() < params.len() {
                return Err(LambdustError::arity_error(params.len(), args.len()));
            }
            let check_count = if self.variadic { params.len() } else { args.len() };
            let mut i: usize = 0;
            while i < check_count
                invariant
                    self.parameters == Some(*params),
                    arity_ok(params@, self.variadic, args@.len()),
                    check_count == params@.len(),
                    check_count <= args@.len(),
                    i <= check_count,
                    prefix_typed(params@, args@, i as int),
                decreases check_count - i,
            {
                if !params[i].matches(&args[i]) {
                    proof {
                        assert(!type_matches(params@[i as int], args@[i as int]));
                        assert(!prefix_typed(params@, args@, params@.len() as int));
                    }
                    let mut message = String::from_str("Parameter ");
                    push_decimal(&mut message, (i + 1) as u64);
                    message.append(": expected ");
                    message.append(params[i].name());
                    message.append(", got ");
                    append_value_text(&mut message, &args[i], true);
                    assert(message@ =~= parameter_error(i as int, params@[i as int], value_text(args@[i as int], true)));
                    return Err(LambdustError::type_error(message));
                }
                i = i + 1;
            }
        }
        Ok(())
    }

    /// Validate return value against this signature
    pub fn validate_return(&self, value: &Value) -> (r: Result<(), LambdustError>)
        ensures
            r is Ok <==> type_matches(self.return_type, *value),
            r matches Err(e) ==> e matches LambdustError::TypeError { message }
                && message@.len() >= 37
                && message@.subrange(0, 37) == "Return value type mismatch: expected "@
                && message@ == return_error(self.return_type, value_text(*value, true)),
    {
        if !self.return_type.matches(value) {
            let mut message = String::from_str("Return value type mismatch: expected ");
            proof {
                reveal_strlit("Return value type mismatch: expected ");
            }
            let ghost prefix = message@;
            message.append(self.return_type.name());
            message.append(", got ");
            append_value_text(&mut message, value, true);
            assert(message@.subrange(0, 37) =~= prefix);
            assert(message@ =~= return_error(self.return_type, value_text(*value, true)));
            return Err(LambdustError::type_error(message));
        }
        Ok(())
    }
}

/// Number of bytes of the UTF-8 encoding of `s`.
pub open spec fn utf8_len(s: Seq<char>) -> nat
    decreases s.len(),
{
    if s.len() == 0 {
        0
    } else {
        let c = s.last() as u32;
        utf8_len(s.drop_last()) + if c < 0x80 {
            1nat
        } else if c < 0x800 {
            2nat
        } else if c < 0x10000 {
            3nat
        } else {
            4nat
        }
    }
}

/// Length in bytes of a string (`String::len`), which the standard library
/// documents as the length of its UTF-8 encoding.
#[verifier::external_body]
fn byte_length(s: &String) -> (n: usize)
    ensures
        n == utf8_len(s@),
{
    s.len()
}

/// Number of pairs along the spine of a list.
pub open spec fn list_len(v: Value) -> nat
    decreases v,
{
    match v {
        Value::Pair(_, cdr) => 1 + list_len(*cdr),
        _ => 0,
    }
}

/// Text of the arguments of `host-string-append` joined, or `None` if one of
/// them is neither a string nor a symbol.
pub open spec fn joined_text(args: Seq<Value>) -> Option<Seq<char>>
    decreases args.len(),
{
    if args.len() == 0 {
        Some(Seq::empty())
    } else {
        match joined_text(args.drop_last()) {
            None => None,
            Some(t) => match args.last() {
                Value::String(s) => Some(t + s@),
                Value::Symbol(s) => Some(t + s@),
                _ => None,
            },
        }
    }
}

/// Whether every list among `args` has a length that fits in `usize`.
pub open spec fn list_lengths_fit(args: Seq<Value>) -> bool {
    forall|i: int| 0 <= i < args.len() && (#[trigger] args[i]).spec_is_list() ==> list_len(args[i]) <= usize::MAX
}

/// What `host-string-append` returns: the joined text as a string, or a
/// type error when an argument is neither a string nor a symbol.
pub open spec fn append_result(args: Seq<Value>, r: Result<Value, LambdustError>) -> bool {
    match joined_text(args) {
        Some(t) => r matches Ok(Value::String(s)) && s@ == t,
        None => r matches Err(LambdustError::TypeError { message })
            && message@ == "host-string-append: all arguments must be strings"@,
    }
}

/// What `host-length` returns: an arity error unless there is exactly one
/// argument, the byte length of a string, the length of a list, or a type
/// error for anything else.
pub open spec fn length_result(args: Seq<Value>, r: Result<Value, LambdustError>) -> bool {
    if args.len() != 1 {
        r == Err::<Value, LambdustError>(LambdustError::ArityError { expected: 1, actual: args.len() as usize })
    } else {
        match args[0] {
            Value::String(s) => r == Ok::<Value, LambdustError>(
                Value::Number(SchemeNumber::Integer(utf8_len(s@) as i64)),
            ),
            v => if v.spec_is_list() {
                r == Ok::<Value, LambdustError>(Value::Number(SchemeNumber::Integer(list_len(v) as i64)))
            } else {
                r matches Err(LambdustError::TypeError { message })
                    && message@ == "host-length: argument must be a string or list"@
            },
        }
    }
}

/// Concatenates string and symbol arguments (the `host-string-append` built-in).
pub fn host_string_append(args: &[Value]) -> (r: Result<Value, LambdustError>)
    ensures
        append_result(args@, r),
{
    let mut result = String::new();
    let mut i: usize = 0;
    while i < args.len()
        invariant
            i <= args@.len(),
            joined_text(args@.subrange(0, i as int)) == Some(result@),
        decreases args@.len() - i,
    {
        proof {
            assert(args@.subrange(0, i + 1).drop_last() =~= args@.subrange(0, i as int));
        }
        match &args[i] {
            Value::String(s) => result.append(s.as_str()),
            Value::Symbol(s) => result.append(s.as_str()),
            _ => {
                proof {
                    lemma_joined_prefix_none(args@, i as int + 1);
                }
                return Err(runtime_type_error("host-string-append: all arguments must be strings"));
            },
        }
        i = i + 1;
    }
    proof {
        assert(args@.subrange(0, args@.len() as int) =~= args@);
    }
    Ok(Value::String(result))
}

proof fn lemma_joined_prefix_none(args: Seq<Value>, k: int)
    requires
        0 <= k <= args.len(),
        joined_text(args.subrange(0, k)) is None,
    ensures
        joined_text(args) is None,
    decreases args.len() - k,
{
    if k < args.len() {
        assert(args.subrange(0, k + 1).drop_last() =~= args.subrange(0, k));
        lemma_joined_prefix_none(args, k + 1);
    } else {
        assert(args.subrange(0, k) =~= args);
    }
}

/// A type error whose message is the given literal text.
fn runtime_type_error(text: &str) -> (e: LambdustError)
    ensures
        e matches LambdustError::TypeError { message } && message@ == text@,
{
    LambdustError::TypeError { message: String::from_str(text) }
}

/// Number of pairs along the spine of a list value.
fn list_length(v: &Value) -> (n: usize)
    requires
        list_len(*v) <= usize::MAX,
    ensures
        n == list_len(*v),
{
    let mut count: usize = 0;
    let mut cur = v;
    loop
        invariant
            count + list_len(*cur) == list_len(*v),
            list_len(*v) <= usize::MAX,
        decreases list_len(*cur),
    {
        match cur {
            Value::Pair(_, cdr) => {
                count = count + 1;
                cur = &**cdr;
            },
            _ => {
                return count;
            },
        }
    }
}

/// Length of one string (in bytes) or list (the `host-length` built-in).
pub fn host_length(args: &[Value]) -> (r: Result<Value, LambdustError>)
    requires
        list_lengths_fit(args@),
    ensures
        length_result(args@, r),
{
    if args.len() != 1 {
        return Err(LambdustError::arity_error(1, args.len()));
    }
    match &args[0] {
        Value::String(s) => {
            let n = byte_length(s);
            Ok(Value::Number(SchemeNumber::Integer(n as i64)))
        },
        value => {
            if value.is_list() {
                proof {
                    assert(args@[0].spec_is_list());
                }
                let n = list_length(value);
                Ok(Value::Number(SchemeNumber::Integer(n as i64)))
            } else {
                Err(runtime_type_error("host-length: argument must be a string or list"))
            }
        },
    }
}

/// A registered host function: one of the library's built-ins, or a function
/// supplied by the host application.
#[derive(Debug, Clone)]
pub enum HostFunc<F> {
    /// The `host-string-append` built-in.
    StringAppend,
    /// The `host-length` built-in.
    Length,
    /// A function of the host application.
    External(F),
}

/// The registration of `name` among `entries`, if any (the first one).
pub open spec fn registration<F>(
    entries: Seq<(String, HostFunc<F>, FunctionSignature)>,
    name: Seq<char>,
) -> Option<(HostFunc<F>, FunctionSignature)>
    decreases entries.len(),
{
    if entries.len() == 0 {
        None
    } else if entries[0].0@ == name {
        Some((entries[0].1, entries[0].2))
    } else {
        registration(entries.drop_first(), name)
    }
}

/// Index of the registration of `name` among `entries`, if any.
pub open spec fn position_of<F>(entries: Seq<(String, HostFunc<F>, FunctionSignature)>, name: Seq<char>) -> Option<int>
    decreases entries.len(),
{
    if entries.len() == 0 {
        None
    } else if entries[0].0@ == name {
        Some(0)
    } else {
        match position_of(entries.drop_first(), name) {
            Some(i) => Some(i + 1),
            None => None,
        }
    }
}

proof fn lemma_position_of<F>(entries: Seq<(String, HostFunc<F>, FunctionSignature)>, name: Seq<char>)
    ensures
        position_of(entries, name) matches Some(i) ==> 0 <= i < entries.len() && entries[i].0@ == name
            && registration(entries, name) == Some((entries[i].1, entries[i].2))
            && forall|j: int| 0 <= j < i ==> entries[j].0@ != name,
        position_of(entries, name) is None ==> registration(entries, name) is None
            && forall|j: int| 0 <= j < entries.len() ==> entries[j].0@ != name,
    decreases entries.len(),
{
    if entries.len() > 0 {
        lemma_position_of(entries.drop_first(), name);
        if entries[0].0@ != name {
            assert forall|j: int| 1 <= j < entries.len() implies entries[j] == entries.drop_first()[j - 1] by {}
        }
    }
}

proof fn lemma_registration_update<F>(
    entries: Seq<(String, HostFunc<F>, FunctionSignature)>,
    i: int,
    e: (String, HostFunc<F>, FunctionSignature),
    n: Seq<char>,
)
    requires
        0 <= i < entries.len(),
        entries[i].0@ == e.0@,
        forall|j: int| 0 <= j < i ==> entries[j].0@ != e.0@,
    ensures
        registration(entries.update(i, e), n) == if n == e.0@ {
            Some((e.1, e.2))
        } else {
            registration(entries, n)
        },
    decreases entries.len(),
{
    let u = entries.update(i, e);
    if i > 0 {
        assert forall|j: int| 0 <= j < i - 1 implies entries.drop_first()[j].0@ != e.0@ by {
            assert(entries.drop_first()[j] == entries[j + 1]);
        }
        lemma_registration_update(entries.drop_first(), i - 1, e, n);
        assert(u.drop_first() =~= entries.drop_first().update(i - 1, e));
        assert(u[0] == entries[0]);
    } else {
        assert(u.drop_first() =~= entries.drop_first());
        assert(u[0] == e);
    }
}

proof fn lemma_registration_push<F>(
    entries: Seq<(String, HostFunc<F>, FunctionSignature)>,
    e: (String, HostFunc<F>, FunctionSignature),
    n: Seq<char>,
)
    requires
        forall|j: int| 0 <= j < entries.len() ==> (#[trigger] entries[j]).0@ != e.0@,
    ensures
        registration(entries.push(e), n) == if n == e.0@ {
            Some((e.1, e.2))
        } else {
            registration(entries, n)
        },
    decreases entries.len(),
{
    let p = entries.push(e);
    if entries.len() == 0 {
        assert(p.drop_first() =~= Seq::<(String, HostFunc<F>, FunctionSignature)>::empty());
        assert(p[0] == e);
        assert(registration(p.drop_first(), n) is None);
    } else {
        let rest = entries.drop_first();
        assert forall|j: int| 0 <= j < rest.len() implies (#[trigger] rest[j]).0@ != e.0@ by {
            assert(rest[j] == entries[j + 1]);
        }
        lemma_registration_push(rest, e, n);
        assert(p.drop_first() =~= rest.push(e));
        assert(p[0] == entries[0]);
        assert(entries[0].0@ != e.0@);
        if entries[0].0@ == n {
            assert(registration(p, n) == Some((entries[0].1, entries[0].2)));
            assert(registration(entries, n) == Some((entries[0].1, entries[0].2)));
        } else {
            assert(registration(p, n) == registration(rest.push(e), n));
            assert(registration(entries, n) == registration(rest, n));
        }
    }
}

/// Whether a host function accepts every argument list.
pub open spec fn callable_everywhere<F: Fn(&[Value]) -> Result<Value, LambdustError>>(f: F) -> bool {
    forall|a: &[Value]| #[trigger] call_requires(f, (a,))
}

/// What a registered function returns for `args` before its return value is
/// checked: the built-in result, or one that the host function may return.
pub open spec fn raw_result<F: Fn(&[Value]) -> Result<Value, LambdustError>>(
    kind: HostFunc<F>,
    args: &[Value],
    r: Result<Value, LambdustError>,
) -> bool {
    match kind {
        HostFunc::StringAppend => append_result(args@, r),
        HostFunc::Length => length_result(args@, r),
        HostFunc::External(f) => call_ensures(f, (args,), r),
    }
}

/// How a call is refused when the signature rejects its arguments: an arity
/// error when the count is wrong, a type error otherwise.
pub open spec fn argument_rejection(sig: FunctionSignature, args: Seq<Value>, r: Result<Value, LambdustError>) -> bool {
    r matches Err(e) && match sig.parameters {
        None => false,
        Some(params) => if !arity_ok(params@, sig.variadic, args.len()) {
            e == LambdustError::ArityError { expected: params@.len() as usize, actual: args.len() as usize }
        } else {
            e is TypeError
        },
    }
}

/// The result of a call whose arguments were accepted: the function's error,
/// or its value when it has the declared return type, or a return type error.
pub open spec fn return_checked(sig: FunctionSignature, raw: Result<Value, LambdustError>, r: Result<Value, LambdustError>) -> bool {
    match raw {
        Err(e) => r == Err::<Value, LambdustError>(e),
        Ok(v) => if type_matches(sig.return_type, v) {
            r == Ok::<Value, LambdustError>(v)
        } else {
            r matches Err(LambdustError::TypeError { message }) && message@.len() >= 37
                && message@.subrange(0, 37) == "Return value type mismatch: expected "@
        },
    }
}

/// Whether a signature declares exactly the parameters `params` and the
/// return type `ret`.
pub open spec fn declares(sig: FunctionSignature, params: Seq<ValueType>, ret: ValueType) -> bool {
    match sig.parameters {
        Some(p) => p@ == params && !sig.variadic && sig.return_type == ret,
        None => false,
    }
}

/// Host function registry: functions callable from Scheme, by name.
#[derive(Debug)]
pub struct HostFunctionRegistry<F> {
    functions: Vec<(String, HostFunc<F>, FunctionSignature)>,
}

impl<F: Fn(&[Value]) -> Result<Value, LambdustError>> HostFunctionRegistry<F> {
    /// The registrations, in order of first registration.
    pub closed spec fn entries(&self) -> Seq<(String, HostFunc<F>, FunctionSignature)> {
        self.functions@
    }

    /// The registration of `name`, if any.
    pub open spec fn lookup(&self, name: Seq<char>) -> Option<(HostFunc<F>, FunctionSignature)> {
        registration(self.entries(), name)
    }

    /// Names are registered at most once and every host function accepts
    /// any argument list.
    pub open spec fn wf(&self) -> bool {
        &&& forall|i: int, j: int|
            0 <= i < j < self.entries().len() ==> (#[trigger] self.entries()[i]).0@ != (#[trigger] self.entries()[j]).0@
        &&& forall|i: int|
            0 <= i < self.entries().len() ==> match (#[trigger] self.entries()[i]).1 {
                HostFunc::External(f) => callable_everywhere(f),
                _ => true,
            }
    }

    /// Create a new host function registry.
    pub fn new() -> (r: Self)
        ensures
            r.wf(),
            r.entries().len() == 0,
    {
        HostFunctionRegistry { functions: Vec::new() }
    }

    #[verifier::loop_isolation(false)]
    fn register(&mut self, name: String, func: HostFunc<F>, signature: FunctionSignature)
        requires
            old(self).wf(),
            func matches HostFunc::External(f) ==> callable_everywhere(f),
        ensures
            final(self).wf(),
            final(self).lookup(name@) == Some((func, signature)),
            forall|n: Seq<char>| n != name@ ==> final(self).lookup(n) == old(self).lookup(n),
    {
        let ghost old_entries = self.entries();
        let ghost nm = name@;
        let mut i: usize = 0;
        while i < self.functions.len()
            invariant
                i <= self.functions@.len(),
                self.entries() == old_entries,
                nm == name@,
                forall|j: int| 0 <= j < i ==> self.entries()[j].0@ != nm,
            decreases self.functions@.len() - i,
        {
            if same_text(&self.functions[i].0, name.as_str()) {
                let ghost e = (name, func, signature);
                proof {
                    lemma_registration_update(old_entries, i as int, e, nm);
                    assert forall|n: Seq<char>| n != nm implies registration(old_entries.update(i as int, e), n)
                        == registration(old_entries, n) by {
                        lemma_registration_update(old_entries, i as int, e, n);
                    }
                }
                self.functions.set(i, (name, func, signature));
                proof {
                    assert(self.entries() =~= old_entries.update(i as int, e));
                    assert forall|k: int| 0 <= k < self.entries().len() implies (#[trigger] self.entries()[k]).0@
                        == old_entries[k].0@ by {}
                    assert forall|a: int, b: int| 0 <= a < b < self.entries().len() implies (#[trigger] self.entries()[a]).0@
                        != (#[trigger] self.entries()[b]).0@ by {
                        assert(self.entries()[a].0@ == old_entries[a].0@);
                        assert(self.entries()[b].0@ == old_entries[b].0@);
                    }
                }
                return;
            }
            i = i + 1;
        }
        let ghost e = (name, func, signature);
        proof {
            lemma_registration_push(old_entries, e, nm);
            assert forall|n: Seq<char>| n != nm implies registration(old_entries.push(e), n)
                == registration(old_entries, n) by {
                lemma_registration_push(old_entries, e, n);
            }
        }
        self.functions.push((name, func, signature));
    }

    /// Register a host function with signature validation; a second
    /// registration under the same name replaces the first.
    pub fn register_function(&mut self, name: String, func: F, signature: FunctionSignature)
        requires
            old(self).wf(),
            callable_everywhere(func),
        ensures
            final(self).wf(),
            final(self).lookup(name@) == Some((HostFunc::External(func), signature)),
            forall|n: Seq<char>| n != name@ ==> final(self).lookup(n) == old(self).lookup(n),
    {
        self.register(name, HostFunc::External(func), signature);
    }

    /// Register a host function taking any arguments and returning any value.
    pub fn register_simple_function(&mut self, name: String, func: F)
        requires
            old(self).wf(),
            callable_everywhere(func),
        ensures
            final(self).wf(),
            final(self).lookup(name@) matches Some((k, sig)) && k == HostFunc::External(func)
                && sig.parameters is None && sig.variadic && sig.return_type == ValueType::Any,
            forall|n: Seq<char>| n != name@ ==> final(self).lookup(n) == old(self).lookup(n),
    {
        let signature = FunctionSignature::variadic(ValueType::Any);
        self.register_function(name, func, signature);
    }

    /// Registers the built-ins: `host-print` (the given function, variadic,
    /// returning nil), `host-string-append` (one string to a string) and
    /// `host-length` (any value to a number).
    pub fn register_builtins(&mut self, print: F)
        requires
            old(self).wf(),
            callable_everywhere(print),
        ensures
            final(self).wf(),
            final(self).lookup("host-print"@) matches Some((k, sig)) && k == HostFunc::External(print)
                && sig.parameters is None && sig.return_type == ValueType::Nil && sig.variadic,
            final(self).lookup("host-string-append"@) matches Some((k, sig)) && k is StringAppend
                && declares(sig, seq![ValueType::String], ValueType::String),
            final(self).lookup("host-length"@) matches Some((k, sig)) && k is Length
                && declares(sig, seq![ValueType::Any], ValueType::Number),
            forall|n: Seq<char>|
                n != "host-print"@ && n != "host-string-append"@ && n != "host-length"@ ==> final(self).lookup(n)
                    == old(self).lookup(n),
    {
        let ghost start = *self;
        self.register(String::from_str("host-print"), HostFunc::External(print), FunctionSignature::variadic(ValueType::Nil));
        let ghost after_print = *self;
        let mut append_params: Vec<ValueType> = Vec::new();
        append_params.push(ValueType::String);
        self.register(
            String::from_str("host-string-append"),
            HostFunc::StringAppend,
            FunctionSignature::new(append_params, ValueType::String),
        );
        let mut length_params: Vec<ValueType> = Vec::new();
        length_params.push(ValueType::Any);
        let ghost after_append = *self;
        self.register(
            String::from_str("host-length"),
            HostFunc::Length,
            FunctionSignature::new(length_params, ValueType::Number),
        );
        proof {
            reveal_strlit("host-print");
            reveal_strlit("host-string-append");
            reveal_strlit("host-length");
            assert("host-print"@.len() == 10);
            assert("host-string-append"@.len() == 18);
            assert("host-length"@.len() == 11);
            assert("host-print"@ != "host-string-append"@);
            assert("host-print"@ != "host-length"@);
            assert("host-string-append"@ != "host-length"@);
            assert(self.lookup("host-print"@) == after_append.lookup("host-print"@));
            assert(after_append.lookup("host-print"@) == after_print.lookup("host-print"@));
            assert(self.lookup("host-string-append"@) == after_append.lookup("host-string-append"@));
            assert forall|n: Seq<char>|
                n != "host-print"@ && n != "host-string-append"@ && n != "host-length"@ implies self.lookup(n)
                    == start.lookup(n) by {
                assert(self.lookup(n) == after_append.lookup(n));
                assert(after_append.lookup(n) == after_print.lookup(n));
                assert(after_print.lookup(n) == start.lookup(n));
            }
        }
    }

    /// A registry holding just the built-ins, with `print` as `host-print`.
    pub fn with_builtins(print: F) -> (r: Self)
        requires
            callable_everywhere(print),
        ensures
            r.wf(),
            r.lookup("host-print"@) matches Some((k, _)) && k == HostFunc::External(print),
            r.lookup("host-string-append"@) matches Some((k, _)) && k is StringAppend,
            r.lookup("host-length"@) matches Some((k, _)) && k is Length,
    {
        let mut r = Self::new();
        r.register_builtins(print);
        r
    }

    #[verifier::loop_isolation(false)]
    fn find(&self, name: &str) -> (r: Option<usize>)
        requires
            self.wf(),
        ensures
            r matches Some(i) ==> i < self.entries().len() && self.lookup(name@) == Some(
                (self.entries()[i as int].1, self.entries()[i as int].2),
            ),
            r is None ==> self.lookup(name@) is None,
    {
        proof {
            lemma_position_of(self.entries(), name@);
        }
        let mut i: usize = 0;
        while i < self.functions.len()
            invariant
                i <= self.functions@.len(),
                self.wf(),
                position_of(self.entries(), name@) matches Some(p) ==> 0 <= p < self.entries().len()
                    && self.entries()[p].0@ == name@
                    && self.lookup(name@) == Some((self.entries()[p].1, self.entries()[p].2)),
                position_of(self.entries(), name@) is None ==> self.lookup(name@) is None,
                forall|j: int| 0 <= j < i ==> self.entries()[j].0@ != name@,
            decreases self.functions@.len() - i,
        {
            if same_text(&self.functions[i].0, name) {
                proof {
                    match position_of(self.entries(), name@) {
                        Some(p) => {
                            if p != i {
                                assert(self.entries()[p].0@ == name@);
                            }
                        },
                        None => {
                            assert(self.entries()[i as int].0@ == name@);
                        },
                    }
                }
                return Some(i);
            }
            i = i + 1;
        }
        None
    }

    /// The named function as a Scheme procedure value, if registered; its
    /// arity is the number of declared parameters, or `None` when variadic.
    pub fn get_procedure(&self, name: &str) -> (r: Option<Value>)
        requires
            self.wf(),
        ensures
            self.lookup(name@) matches Some((_, sig)) ==> r matches Some(
                Value::Procedure(Procedure::HostFunction { name: n, arity }),
            ) && n@ == name@ && arity == match sig.parameters {
                Some(p) => Some(p@.len() as usize),
                None => None,
            },
            self.lookup(name@) is None ==> r is None,
    {
        match self.find(name) {
            Some(i) => {
                let arity = match &self.functions[i].2.parameters {
                    Some(p) => Some(p.len()),
                    None => None,
                };
                Some(Value::Procedure(Procedure::HostFunction { name: String::from_str(name), arity }))
            },
            None => None,
        }
    }

    /// Calls the named procedure as Scheme code does: the arguments are
    /// checked against the signature, the function runs, and its result is
    /// checked against the declared return type. `None` when nothing is
    /// registered under the name.
    pub fn call_procedure(&self, name: &str, args: &[Value]) -> (r: Option<Result<Value, LambdustError>>)
        requires
            self.wf(),
            list_lengths_fit(args@),
        ensures
            self.lookup(name@) is None ==> r is None,
            self.lookup(name@) matches Some((kind, sig)) ==> r matches Some(res) && if sig.accepts(args@) {
                exists|raw: Result<Value, LambdustError>| raw_result(kind, args, raw) && return_checked(sig, raw, res)
            } else {
                argument_rejection(sig, args@, res)
            },
    {
        match self.find(name) {
            None => None,
            Some(i) => {
                let entry = &self.functions[i];
                let sig = &entry.2;
                let checked = sig.validate_args(args);
                if let Err(e) = checked {
                    let res: Result<Value, LambdustError> = Err(e);
                    return Some(res);
                }
                let raw = match &entry.1 {
                    HostFunc::StringAppend => host_string_append(args),
                    HostFunc::Length => host_length(args),
                    HostFunc::External(f) => {
                        proof {
                            assert(self.entries()[i as int].1 matches HostFunc::External(g) && callable_everywhere(g));
                        }
                        f(args)
                    },
                };
                let ghost raw_seen = raw;
                let res = match raw {
                    Err(e) => Err(e),
                    Ok(v) => match sig.validate_return(&v) {
                        Ok(()) => Ok(v),
                        Err(e) => Err(e),
                    },
                };
                proof {
                    assert(raw_result(self.entries()[i as int].1, args, raw_seen));
                    assert(return_checked(*sig, raw_seen, res));
                }
                Some(res)
            },
        }
    }

    /// Names of all registered functions.
    pub fn list_functions(&self) -> (r: Vec<&String>)
        ensures
            r@.len() == self.entries().len(),
            forall|i: int| 0 <= i < r@.len() ==> r@[i]@ == self.entries()[i].0@,
    {
        let mut names: Vec<&String> = Vec::new();
        let mut i: usize = 0;
        while i < self.functions.len()
            invariant
                i <= self.functions@.len(),
                names@.len() == i,
                forall|j: int| 0 <= j < i ==> names@[j]@ == self.entries()[j].0@,
            decreases self.functions@.len() - i,
        {
            names.push(&self.functions[i].0);
            i = i + 1;
        }
        names
    }

    /// The signature of the named function, if registered.
    pub fn get_signature(&self, name: &str) -> (r: Option<&FunctionSignature>)
        requires
            self.wf(),
        ensures
            self.lookup(name@) matches Some((_, sig)) ==> r == Some(&sig),
            self.lookup(name@) is None ==> r is None,
    {
        match self.find(name) {
            Some(i) => Some(&self.functions[i].2),
            None => None,
        }
    }
}

} // verus!
