//! The error taxonomy of evaluation. Every failure of a program is one of
//! these kinds; evaluation itself never panics.

use vstd::prelude::*;
use vstd::string::StringExecFns;

verus! {

/// A fatal runtime error. The first failure aborts the whole evaluation.
#[derive(Debug)]
pub enum EvalError {
    /// An operator or control construct met an operand of the wrong shape.
    TypeError,
    /// A variable name was not bound in the current scope.
    UndefinedVariable,
    /// The callee of an application did not evaluate to a closure.
    NotCallable,
    /// Division or remainder with a zero divisor.
    DivisionByZero,
    /// A string too short for `first`/`second` projection.
    IndexError,
    /// An explicit error node authored by the front-end; the message is
    /// forwarded verbatim.
    UserError(String),
    /// The evaluation-depth quota ran out before the program finished.
    StackExhausted,
}

/// The mathematical form of an [`EvalError`].
pub enum ErrV {
    TypeError,
    UndefinedVariable,
    NotCallable,
    DivisionByZero,
    IndexError,
    UserError(Seq<char>),
    StackExhausted,
}

/// The [`ErrV`] a given [`EvalError`] stands for.
pub open spec fn err_view(e: EvalError) -> ErrV {
    match e {
        EvalError::TypeError => ErrV::TypeError,
        EvalError::UndefinedVariable => ErrV::UndefinedVariable,
        EvalError::NotCallable => ErrV::NotCallable,
        EvalError::DivisionByZero => ErrV::DivisionByZero,
        EvalError::IndexError => ErrV::IndexError,
        EvalError::UserError(m) => ErrV::UserError(m@),
        EvalError::StackExhausted => ErrV::StackExhausted,
    }
}

/// The one-line description of an error kind.
pub open spec fn spec_describe(e: ErrV) -> Seq<char> {
    match e {
        ErrV::TypeError => "invalid type"@,
        ErrV::UndefinedVariable => "undefined variable"@,
        ErrV::NotCallable => "not callable"@,
        ErrV::DivisionByZero => "division by zero"@,
        ErrV::IndexError => "string too short"@,
        ErrV::UserError(m) => m,
        ErrV::StackExhausted => "stack exhausted"@,
    }
}

impl EvalError {
    /// A short, user-facing description; for a user error, the forwarded
    /// message itself.
    pub fn describe(&self) -> (r: String)
        ensures
            r@ == spec_describe(err_view(*self)),
    {
        match self {
            EvalError::TypeError => String::from_str("invalid type"),
            EvalError::UndefinedVariable => String::from_str("undefined variable"),
            EvalError::NotCallable => String::from_str("not callable"),
            EvalError::DivisionByZero => String::from_str("division by zero"),
            EvalError::IndexError => String::from_str("string too short"),
            EvalError::UserError(m) => m.clone(),
            EvalError::StackExhausted => String::from_str("stack exhausted"),
        }
    }
}

} // verus!
