//! The value model: what evaluation produces, and its textual rendering.

use crate::ast::Function;
use crate::text::dec_int;
use crate::text::int_to_string;
use std::rc::Rc;
use vstd::prelude::*;
use vstd::string::StringExecFns;

verus! {

/// A runtime pair.
#[derive(Debug)]
pub struct Tuple {
    pub f: Box<Val>,
    pub s: Box<Val>,
}

/// A runtime value.
///
/// A closure keeps its captured scope as an index into the evaluation's
/// environment store, so that the same cell can be aliased by every copy of
/// the closure and mutated when a `let` binds the closure under its own name.
#[derive(Debug)]
pub enum Val {
    Int(i32),
    Bool(bool),
    Str(String),
    Closure { f: Rc<Function>, env: usize },
    Tuple(Tuple),
    Void,
}

/// The mathematical form of a [`Val`]: strings become character sequences
/// and the captured environment is a plain index.
pub enum ValV {
    Int(i32),
    Bool(bool),
    Str(Seq<char>),
    Closure { f: Function, env: int },
    Tuple(Box<ValV>, Box<ValV>),
    Void,
}

/// The [`ValV`] a given [`Val`] stands for.
pub open spec fn val_view(v: Val) -> ValV
    decreases v,
{
    match v {
        Val::Int(n) => ValV::Int(n),
        Val::Bool(b) => ValV::Bool(b),
        Val::Str(s) => ValV::Str(s@),
        Val::Closure { f, env } => ValV::Closure { f: *f, env: env as int },
        Val::Tuple(t) => ValV::Tuple(Box::new(val_view(*t.f)), Box::new(val_view(*t.s))),
        Val::Void => ValV::Void,
    }
}

/// The textual form of a value: decimal for integers, `true`/`false` for
/// booleans, the string itself, `(<first>, <second>)` for tuples, an opaque
/// placeholder for closures, and nothing for the void sentinel.
pub open spec fn render_v(v: ValV) -> Seq<char>
    decreases v,
{
    match v {
        ValV::Int(n) => dec_int(n as int),
        ValV::Bool(b) => if b {
            "true"@
        } else {
            "false"@
        },
        ValV::Str(s) => s,
        ValV::Closure { .. } => "<#closure>"@,
        ValV::Tuple(a, b) => "("@ + render_v(*a) + ", "@ + render_v(*b) + ")"@,
        ValV::Void => Seq::empty(),
    }
}

impl Tuple {
    /// Renders a pair as `(<first>, <second>)`.
    pub fn render(&self) -> (r: String)
        ensures
            r@ == "("@ + render_v(val_view(*self.f)) + ", "@ + render_v(val_view(*self.s))
                + ")"@,
        decreases *self,
    {
        let mut out = String::from_str("(");
        let a = self.f.render();
        out.append(a.as_str());
        out.append(", ");
        let b = self.s.render();
        out.append(b.as_str());
        out.append(")");
        out
    }
}

impl Val {
    /// Renders a value as [`render_v`] describes.
    pub fn render(&self) -> (r: String)
        ensures
            r@ == render_v(val_view(*self)),
        decreases *self,
    {
        match self {
            Val::Int(n) => int_to_string(*n),
            Val::Bool(b) => if *b {
                String::from_str("true")
            } else {
                String::from_str("false")
            },
            Val::Str(s) => s.clone(),
            Val::Closure { .. } => String::from_str("<#closure>"),
            Val::Tuple(t) => t.render(),
            Val::Void => String::new(),
        }
    }
}

/// Copies a value. The copy is equal to the original; a closure copy shares
/// the original's function node and captured scope.
pub fn clone_val(v: &Val) -> (r: Val)
    ensures
        r == *v,
    decreases *v,
{
    match v {
        Val::Int(n) => Val::Int(*n),
        Val::Bool(b) => Val::Bool(*b),
        Val::Str(s) => Val::Str(s.clone()),
        Val::Closure { f, env } => Val::Closure { f: f.clone(), env: *env },
        Val::Tuple(t) => Val::Tuple(Tuple { f: Box::new(clone_val(&*t.f)), s: Box::new(clone_val(&*t.s)) }),
        Val::Void => Val::Void,
    }
}

} // verus!
