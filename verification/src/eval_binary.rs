//! The operator evaluator: resolves one binary operator over two
//! already-evaluated operands, exactly as the table [`apply_binop`] says.
//!
//! Both operands reach this function already evaluated, so `&&` and `||`
//! are strict, and the permissive `+` fallback concatenates the textual
//! forms of any two successfully evaluated values. The one coercion `!=`
//! performs (a string against an integer's decimal form) is kept as the
//! language has it.

use crate::ast::BinaryOp;
use crate::error::EvalError;
use crate::semantics::apply_binop;
use crate::semantics::lemma_div_trunc_range;
use crate::semantics::lemma_rem_trunc_range;
use crate::semantics::res_view;
use crate::text::int_to_string;
use crate::text::str_lt;
use crate::val::Val;
use crate::val::val_view;
use vstd::prelude::*;

verus! {

/// Applies one binary operator to two evaluated operands.
pub fn eval_bin(op: BinaryOp, lhs: Val, rhs: Val) -> (r: Result<Val, EvalError>)
    ensures
        res_view(r) == apply_binop(op, val_view(lhs), val_view(rhs)),
{
    match op {
        BinaryOp::Add => match (lhs, rhs) {
            (Val::Int(a), Val::Int(b)) => Ok(Val::Int(a.wrapping_add(b))),
            (x, y) => {
                let s = x.render();
                let t = y.render();
                Ok(Val::Str(s.concat(t.as_str())))
            },
        },
        BinaryOp::Sub => match (lhs, rhs) {
            (Val::Int(a), Val::Int(b)) => Ok(Val::Int(a.wrapping_sub(b))),
            _ => Err(EvalError::TypeError),
        },
        BinaryOp::Mul => match (lhs, rhs) {
            (Val::Int(a), Val::Int(b)) => Ok(Val::Int(a.wrapping_mul(b))),
            _ => Err(EvalError::TypeError),
        },
        BinaryOp::Div => match (lhs, rhs) {
            (Val::Int(a), Val::Int(b)) => {
                if b == 0 {
                    Err(EvalError::DivisionByZero)
                } else {
                    match a.checked_div(b) {
                        Some(q) => Ok(Val::Int(q)),
                        None => {
                            proof {
                                if !(a == i32::MIN && b == -1) {
                                    lemma_div_trunc_range(a as int, b as int);
                                }
                            }
                            Ok(Val::Int(i32::MIN))
                        },
                    }
                }
            },
            _ => Err(EvalError::TypeError),
        },
        BinaryOp::Rem => match (lhs, rhs) {
            (Val::Int(a), Val::Int(b)) => {
                if b == 0 {
                    Err(EvalError::DivisionByZero)
                } else {
                    match a.checked_rem(b) {
                        Some(q) => Ok(Val::Int(q)),
                        None => {
                            proof {
                                if !(a == i32::MIN && b == -1) {
                                    lemma_rem_trunc_range(a as int, b as int);
                                }
                            }
                            Ok(Val::Int(0))
                        },
                    }
                }
            },
            _ => Err(EvalError::TypeError),
        },
        BinaryOp::Lt => match (lhs, rhs) {
            (Val::Int(a), Val::Int(b)) => Ok(Val::Bool(a < b)),
            (Val::Str(a), Val::Str(b)) => Ok(Val::Bool(str_lt(a.as_str(), b.as_str()))),
            _ => Err(EvalError::TypeError),
        },
        BinaryOp::Gt => match (lhs, rhs) {
            (Val::Int(a), Val::Int(b)) => Ok(Val::Bool(a > b)),
            (Val::Str(a), Val::Str(b)) => Ok(Val::Bool(str_lt(b.as_str(), a.as_str()))),
            _ => Err(EvalError::TypeError),
        },
        BinaryOp::Lte => match (lhs, rhs) {
            (Val::Int(a), Val::Int(b)) => Ok(Val::Bool(a <= b)),
            (Val::Str(a), Val::Str(b)) => {
                let lt = str_lt(a.as_str(), b.as_str());
                Ok(Val::Bool(lt || a == b))
            },
            _ => Err(EvalError::TypeError),
        },
        BinaryOp::Gte => match (lhs, rhs) {
            (Val::Int(a), Val::Int(b)) => Ok(Val::Bool(a >= b)),
            (Val::Str(a), Val::Str(b)) => {
                let gt = str_lt(b.as_str(), a.as_str());
                Ok(Val::Bool(gt || a == b))
            },
            _ => Err(EvalError::TypeError),
        },
        BinaryOp::Eq => match (lhs, rhs) {
            (Val::Int(a), Val::Int(b)) => Ok(Val::Bool(a == b)),
            (Val::Bool(a), Val::Bool(b)) => Ok(Val::Bool(a == b)),
            (Val::Str(a), Val::Str(b)) => Ok(Val::Bool(a == b)),
            _ => Err(EvalError::TypeError),
        },
        BinaryOp::Neq => match (lhs, rhs) {
            (Val::Int(a), Val::Int(b)) => Ok(Val::Bool(a != b)),
            (Val::Bool(a), Val::Bool(b)) => Ok(Val::Bool(a != b)),
            (Val::Str(a), Val::Str(b)) => Ok(Val::Bool(!(a == b))),
            (Val::Str(a), Val::Int(b)) => {
                let s = int_to_string(b);
                Ok(Val::Bool(!(a == s)))
            },
            (Val::Int(a), Val::Str(b)) => {
                let s = int_to_string(a);
                Ok(Val::Bool(!(s == b)))
            },
            _ => Err(EvalError::TypeError),
        },
        BinaryOp::And => match (lhs, rhs) {
            (Val::Bool(a), Val::Bool(b)) => Ok(Val::Bool(a && b)),
            _ => Err(EvalError::TypeError),
        },
        BinaryOp::Or => match (lhs, rhs) {
            (Val::Bool(a), Val::Bool(b)) => Ok(Val::Bool(a || b)),
            _ => Err(EvalError::TypeError),
        },
    }
}

} // verus!
