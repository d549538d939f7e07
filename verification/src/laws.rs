//! Laws of the evaluator, stated over the semantics [`sem`] and proved once
//! for all inputs. Together with the evaluator's own contract (its outcome
//! equals `sem`), each law carries over to every run of [`crate::eval::eval`].

use crate::ast::Binary;
use crate::ast::BinaryOp;
use crate::ast::Call;
use crate::ast::Int;
use crate::ast::Term;
use crate::error::ErrV;
use crate::scope::StoreV;
use crate::semantics::Sem;
use crate::semantics::init_store;
use crate::semantics::sem;
use crate::val::ValV;
use vstd::prelude::*;

verus! {

/// An integer literal evaluates to itself: same integer back, the store
/// untouched, nothing printed. Any quota that lets evaluation start at all
/// suffices.
pub proof fn lemma_int_literal(i: Int, env: int, st: StoreV, fuel: nat)
    requires
        fuel >= 1,
    ensures
        sem(Term::Int(i), env, st, fuel).res == Ok::<ValV, ErrV>(ValV::Int(i.value)),
        sem(Term::Int(i), env, st, fuel).store == st,
        sem(Term::Int(i), env, st, fuel).out == Seq::<Seq<char>>::empty(),
{
}

/// Adding two integer literals yields their sum wrapped to 32 bits (the
/// sum modulo two to the thirty-second, read as signed), with no other
/// effect.
pub proof fn lemma_add_wraps(b: Binary, x: Int, y: Int, env: int, st: StoreV, fuel: nat)
    requires
        fuel >= 2,
        b.op == BinaryOp::Add,
        *b.lhs == Term::Int(x),
        *b.rhs == Term::Int(y),
    ensures
        sem(Term::Binary(b), env, st, fuel).res == Ok::<ValV, ErrV>(
            ValV::Int(vstd::wrapping::i32_specs::wrapping_add(x.value, y.value)),
        ),
        sem(Term::Binary(b), env, st, fuel).store == st,
        sem(Term::Binary(b), env, st, fuel).out == Seq::<Seq<char>>::empty(),
{
    reveal_with_fuel(sem, 3);
    assert(Seq::<Seq<char>>::empty() + Seq::<Seq<char>>::empty() =~= Seq::<Seq<char>>::empty());
}

/// Applying a value that is not a closure fails with `NotCallable`: the
/// arguments are never evaluated, so the store and output stay as the
/// callee's evaluation left them.
pub proof fn lemma_call_non_closure(c: Call, env: int, st: StoreV, fuel: nat)
    requires
        fuel >= 1,
        sem(*c.callee, env, st, (fuel - 1) as nat).res matches Ok(v) && !(v is Closure),
    ensures
        sem(Term::Call(c), env, st, fuel).res == Err::<ValV, ErrV>(ErrV::NotCallable),
        sem(Term::Call(c), env, st, fuel).store == sem(
            *c.callee,
            env,
            st,
            (fuel - 1) as nat,
        ).store,
        sem(Term::Call(c), env, st, fuel).out == sem(*c.callee, env, st, (fuel - 1) as nat).out,
{
    reveal_with_fuel(sem, 2);
    reveal_with_fuel(crate::semantics::sem_call, 2);
}

/// Evaluation is a function of the term, the scope, the store and the
/// quota alone: two runs of one immutable term against fresh empty
/// top-level scopes have identical outcomes — the same result, the same
/// printed lines. No hidden state survives a run. (The evaluator's own
/// contract says each run returns exactly `sem` of its inputs, so this law
/// covers the executable evaluator too.)
pub proof fn lemma_evaluation_repeatable(t: Term, fuel: nat, r1: Sem, r2: Sem)
    requires
        r1 == sem(t, 0, init_store(), fuel),
        r2 == sem(t, 0, init_store(), fuel),
    ensures
        r1.res == r2.res,
        r1.out == r2.out,
        r1.store == r2.store,
{
}

} // verus!
