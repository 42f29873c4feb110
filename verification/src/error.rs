//! Errors reported by the runtime.
use vstd::prelude::*;

verus! {

/// An error raised while checking or running code.
#[derive(Debug, Clone)]
pub enum LambdustError {
    /// A call received the wrong number of arguments.
    ArityError { expected: usize, actual: usize },
    /// A value had the wrong type.
    TypeError { message: String },
    /// A failure while running code.
    RuntimeError { message: String },
    /// A name that is not bound.
    UndefinedVariable { name: String },
}

impl LambdustError {
    /// An arity error.
    pub fn arity_error(expected: usize, actual: usize) -> (e: LambdustError)
        ensures
            e == (LambdustError::ArityError { expected, actual }),
    {
        LambdustError::ArityError { expected, actual }
    }

    /// A type error with the given message.
    pub fn type_error(message: String) -> (e: LambdustError)
        ensures
            e == (LambdustError::TypeError { message }),
    {
        LambdustError::TypeError { message }
    }

    /// A runtime error with the given message.
    pub fn runtime_error(message: String) -> (e: LambdustError)
        ensures
            e == (LambdustError::RuntimeError { message }),
    {
        LambdustError::RuntimeError { message }
    }

    /// An error for an unbound name.
    pub fn undefined_variable(name: String) -> (e: LambdustError)
        ensures
            e == (LambdustError::UndefinedVariable { name }),
    {
        LambdustError::UndefinedVariable { name }
    }
}

/// A runtime error whose message is the given literal text.
pub fn runtime_error_str(text: &str) -> (e: LambdustError)
    ensures
        e matches LambdustError::RuntimeError { message } && message@ == text@,
{
    LambdustError::RuntimeError { message: String::from_str(text) }
}

} // verus!
