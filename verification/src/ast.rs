//! The term model: the immutable tree representation of a parsed program.
//!
//! A tree is produced externally (by a parser or by deserialization) and is
//! only ever read by the evaluator. Every node carries a [`Location`] used
//! solely for diagnostics; evaluation never inspects it.

use std::rc::Rc;
use vstd::prelude::*;

verus! {

/// A half-open span of the source text, kept for diagnostics only.
#[derive(Debug)]
pub struct Location {
    pub start: usize,
    pub end: usize,
    pub filename: String,
}

impl Location {
    /// Creates a new instance of [`Location`].
    pub fn new(start: usize, end: usize, filename: &str) -> (r: Self)
        ensures
            r.start == start,
            r.end == end,
            r.filename@ == filename@,
    {
        Self { start, end, filename: String::from_str(filename) }
    }
}

impl Default for Location {
    fn default() -> (r: Self)
        ensures
            r.start == 0,
            r.end == 0,
            r.filename@ == Seq::<char>::empty(),
    {
        Self { start: 0, end: 0, filename: String::new() }
    }
}

/// An element: anything that carries a source location.
pub trait Element {
    fn location(&self) -> &Location;
}

impl<T: Element> Element for Box<T> {
    fn location(&self) -> &Location {
        (**self).location()
    }
}

impl<T: Element> Element for Rc<T> {
    fn location(&self) -> &Location {
        (**self).location()
    }
}

/// A variable reference: a name plus where it occurred.
#[derive(Debug)]
pub struct Var {
    pub text: String,
    pub location: Location,
}

impl Element for Var {
    fn location(&self) -> &Location {
        &self.location
    }
}

/// A whole parsed source file: the module name, its one top-level
/// expression, and an anchor location for the file itself.
#[derive(Debug)]
pub struct File {
    pub name: String,
    pub expression: Term,
    pub location: Location,
}

/// Error node: a deliberate failure authored by the front-end.
#[derive(Debug)]
pub struct Error {
    /// The error message.
    pub message: String,
    /// The original text that originated the error.
    pub full_text: String,
    /// The location of the error.
    pub location: Location,
}

impl Element for Error {
    fn location(&self) -> &Location {
        &self.location
    }
}

/// A conditional with both branches.
#[derive(Debug)]
pub struct If {
    pub condition: Box<Term>,
    pub then_branch: Box<Term>,
    pub otherwise: Box<Term>,
    pub location: Location,
}

impl Element for If {
    fn location(&self) -> &Location {
        &self.location
    }
}

/// A sequential binding: bind `name` to `value`, then evaluate `next`.
#[derive(Debug)]
pub struct Let {
    pub name: Var,
    pub value: Box<Term>,
    pub next: Box<Term>,
    pub location: Location,
}

impl Element for Let {
    fn location(&self) -> &Location {
        &self.location
    }
}

/// A string literal.
#[derive(Debug)]
pub struct Str {
    pub value: String,
    pub location: Location,
}

impl Element for Str {
    fn location(&self) -> &Location {
        &self.location
    }
}

/// A boolean literal.
#[derive(Debug)]
pub struct Bool {
    pub value: bool,
    pub location: Location,
}

impl Element for Bool {
    fn location(&self) -> &Location {
        &self.location
    }
}

/// An integer literal, 32-bit signed.
#[derive(Debug)]
pub struct Int {
    /// The value of the integer.
    pub value: i32,
    /// The location of the integer in the source code.
    pub location: Location,
}

impl Element for Int {
    fn location(&self) -> &Location {
        &self.location
    }
}

impl Default for Int {
    fn default() -> (r: Self)
        ensures
            r.value == 0,
            r.location.start == 0,
            r.location.end == 0,
            r.location.filename@ == Seq::<char>::empty(),
    {
        Self { value: 0, location: Location::default() }
    }
}

/// The fixed set of binary operators.
#[derive(Debug, Clone, Copy, PartialEq, Eq, Structural)]
pub enum BinaryOp {
    Add,
    Sub,
    Mul,
    Div,
    Rem,
    Eq,
    Neq,
    Lt,
    Gt,
    Lte,
    Gte,
    And,
    Or,
}

/// A binary operation over two sub-terms.
#[derive(Debug)]
pub struct Binary {
    pub lhs: Box<Term>,
    pub op: BinaryOp,
    pub rhs: Box<Term>,
    pub location: Location,
}

impl Element for Binary {
    fn location(&self) -> &Location {
        &self.location
    }
}

/// A function application: a callee plus its arguments, in order.
#[derive(Debug)]
pub struct Call {
    pub callee: Box<Term>,
    pub arguments: Vec<Term>,
    pub location: Location,
}

impl Element for Call {
    fn location(&self) -> &Location {
        &self.location
    }
}

/// A function literal: ordered parameter names and a body.
#[derive(Debug)]
pub struct Function {
    pub parameters: Vec<Var>,
    pub value: Box<Term>,
    pub location: Location,
}

impl Element for Function {
    fn location(&self) -> &Location {
        &self.location
    }
}

/// A print expression: render the value, emit it, and pass it through.
#[derive(Debug)]
pub struct Print {
    pub value: Box<Term>,
    pub location: Location,
}

impl Element for Print {
    fn location(&self) -> &Location {
        &self.location
    }
}

/// Projection of the first component of a tuple, or of a string's
/// first character.
#[derive(Debug)]
pub struct First {
    pub value: Box<Term>,
    pub location: Location,
}

impl Element for First {
    fn location(&self) -> &Location {
        &self.location
    }
}

/// Projection of the second component of a tuple, or of a string's
/// second character.
#[derive(Debug)]
pub struct Second {
    pub value: Box<Term>,
    pub location: Location,
}

impl Element for Second {
    fn location(&self) -> &Location {
        &self.location
    }
}

/// A pair of sub-terms, both evaluated eagerly.
#[derive(Debug)]
pub struct Tuple {
    pub first: Box<Term>,
    pub second: Box<Term>,
    pub location: Location,
}

impl Element for Tuple {
    fn location(&self) -> &Location {
        &self.location
    }
}

/// One node of the program tree.
///
/// The function node sits behind a reference count so that a closure value
/// can share it with the tree instead of copying it.
#[derive(Debug)]
pub enum Term {
    Error(Error),
    Int(Int),
    Str(Str),
    Call(Call),
    Binary(Binary),
    Function(Rc<Function>),
    Let(Let),
    If(If),
    Print(Print),
    First(First),
    Second(Second),
    Bool(Bool),
    Tuple(Tuple),
    Var(Var),
}

impl Element for Term {
    fn location(&self) -> &Location {
        match self {
            Term::Error(arg0) => &arg0.location,
            Term::Int(arg0) => &arg0.location,
            Term::Str(arg0) => &arg0.location,
            Term::Function(arg0) => &arg0.location,
            Term::Call(arg0) => &arg0.location,
            Term::Var(arg0) => &arg0.location,
            Term::Binary(arg0) => &arg0.location,
            Term::Print(arg0) => &arg0.location,
            Term::First(arg0) => &arg0.location,
            Term::Second(arg0) => &arg0.location,
            Term::Let(arg0) => &arg0.location,
            Term::If(arg0) => &arg0.location,
            Term::Bool(arg0) => &arg0.location,
            Term::Tuple(arg0) => &arg0.location,
        }
    }
}

} // verus!
