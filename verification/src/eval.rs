//! The root evaluator: the recursive dispatcher over the term tree, proved
//! to return exactly what the operational semantics [`sem`] specifies, to
//! leave the store of scopes well formed, and to append to the output sink
//! exactly the lines the semantics prints.
//!
//! Evaluation is total: every failure is an [`EvalError`], never a panic.
//! The `fuel` argument is the configurable depth quota of spec function
//! [`sem`]; a program that nests or recurses past it ends in a clean
//! `StackExhausted` error instead of exhausting the host stack.

use crate::ast::Let;
use crate::ast::Print;
use crate::ast::Term;
use crate::error::EvalError;
use crate::eval_binary::eval_bin;
use crate::eval_call::eval_call;
use crate::scope::Env;
use crate::scope::lemma_store_wf_bind;
use crate::scope::lemma_store_wf_push;
use crate::scope::lemma_val_wf_mono;
use crate::scope::lookup;
use crate::scope::store_bind;
use crate::scope::store_env_clone;
use crate::scope::store_push;
use crate::scope::store_view;
use crate::scope::store_wf;
use crate::semantics::eval_post;
use crate::semantics::init_store;
use crate::semantics::lemma_apply_binop_wf;
use crate::semantics::out_view;
use crate::semantics::res_view;
use crate::semantics::sem;
use crate::semantics::sem_let;
use crate::semantics::sem_print;
use crate::val::Val;
use crate::val::ValV;
use crate::val::clone_val;
use crate::val::val_view;
use vstd::prelude::*;
use vstd::string::StrSliceExecFns;
use vstd::string::StringExecFns;

verus! {

/// Evaluates one term in the scope named `env` of the store `st`, with the
/// depth quota `fuel`, appending printed lines to `out`.
#[verifier::loop_isolation(false)]
pub fn eval(term: &Term, env: usize, st: &mut Vec<Env>, out: &mut Vec<String>, fuel: u64) -> (r:
    Result<Val, EvalError>)
    requires
        env < old(st)@.len(),
        store_wf(store_view(old(st)@)),
    ensures
        eval_post(
            sem(*term, env as int, store_view(old(st)@), fuel as nat),
            store_view(old(st)@),
            store_view(final(st)@),
            out_view(old(out)@),
            out_view(final(out)@),
            r,
        ),
    decreases fuel, 1int,
{
    let ghost st0 = store_view(st@);
    let ghost out0 = out_view(out@);
    let ghost s = sem(*term, env as int, st0, fuel as nat);
    proof {
        assert(out0 + Seq::<Seq<char>>::empty() =~= out0);
    }
    if fuel == 0 {
        return Err(EvalError::StackExhausted);
    }
    let f1 = fuel - 1;
    match term {
        Term::Int(i) => Ok(Val::Int(i.value)),
        Term::Str(t) => Ok(Val::Str(t.value.clone())),
        Term::Bool(b) => Ok(Val::Bool(b.value)),
        Term::Var(v) => {
            let found = lookup(&st[env], &v.text);
            match found {
                Some(value) => {
                    let r = clone_val(value);
                    proof {
                        assert(store_view(st@)[env as int] == st0[env as int]);
                    }
                    Ok(r)
                },
                None => Err(EvalError::UndefinedVariable),
            }
        },
        Term::Function(func) => {
            let captured = store_env_clone(st, env);
            let id = store_push(st, captured);
            proof {
                lemma_store_wf_push(st0, st0[env as int]);
                assert(store_view(st@) =~= s.store);
            }
            Ok(Val::Closure { f: func.clone(), env: id })
        },
        Term::If(i) => {
            let ghost csem = sem(*i.condition, env as int, st0, f1 as nat);
            match eval(&*i.condition, env, st, out, f1) {
                Ok(Val::Bool(true)) => {
                    let ghost tsem = sem(*i.then_branch, env as int, csem.store, f1 as nat);
                    let r = eval(&*i.then_branch, env, st, out, f1);
                    proof {
                        assert((out0 + csem.out) + tsem.out =~= out0 + (csem.out + tsem.out));
                    }
                    r
                },
                Ok(Val::Bool(false)) => {
                    let ghost tsem = sem(*i.otherwise, env as int, csem.store, f1 as nat);
                    let r = eval(&*i.otherwise, env, st, out, f1);
                    proof {
                        assert((out0 + csem.out) + tsem.out =~= out0 + (csem.out + tsem.out));
                    }
                    r
                },
                Ok(_) => Err(EvalError::TypeError),
                Err(e) => Err(e),
            }
        },
        Term::Let(l) => eval_let(l, env, st, out, f1),
        Term::Print(p) => eval_print(p, env, st, out, f1),
        Term::First(fs) => {
            match eval(&*fs.value, env, st, out, f1) {
                Ok(Val::Str(sv)) => {
                    let n = sv.as_str().unicode_len();
                    if n >= 1 {
                        let piece = sv.as_str().substring_char(0, 1);
                        Ok(Val::Str(String::from_str(piece)))
                    } else {
                        Err(EvalError::IndexError)
                    }
                },
                Ok(Val::Tuple(t)) => Ok(*t.f),
                Ok(_) => Err(EvalError::TypeError),
                Err(e) => Err(e),
            }
        },
        Term::Second(sc) => {
            match eval(&*sc.value, env, st, out, f1) {
                Ok(Val::Str(sv)) => {
                    let n = sv.as_str().unicode_len();
                    if n >= 2 {
                        let piece = sv.as_str().substring_char(1, 2);
                        Ok(Val::Str(String::from_str(piece)))
                    } else {
                        Err(EvalError::IndexError)
                    }
                },
                Ok(Val::Tuple(t)) => Ok(*t.s),
                Ok(_) => Err(EvalError::TypeError),
                Err(e) => Err(e),
            }
        },
        Term::Tuple(tp) => {
            let ghost asem = sem(*tp.first, env as int, st0, f1 as nat);
            match eval(&*tp.first, env, st, out, f1) {
                Ok(a) => {
                    let ghost bsem = sem(*tp.second, env as int, asem.store, f1 as nat);
                    match eval(&*tp.second, env, st, out, f1) {
                        Ok(b) => {
                            proof {
                                assert((out0 + asem.out) + bsem.out =~= out0 + (asem.out
                                    + bsem.out));
                                lemma_val_wf_mono(
                                    val_view(a),
                                    asem.store.len() as int,
                                    bsem.store.len() as int,
                                );
                            }
                            Ok(Val::Tuple(crate::val::Tuple { f: Box::new(a), s: Box::new(b) }))
                        },
                        Err(e) => {
                            proof {
                                assert((out0 + asem.out) + bsem.out =~= out0 + (asem.out
                                    + bsem.out));
                            }
                            Err(e)
                        },
                    }
                },
                Err(e) => Err(e),
            }
        },
        Term::Error(e) => Err(EvalError::UserError(e.message.clone())),
        Term::Binary(b) => {
            let ghost lsem = sem(*b.lhs, env as int, st0, f1 as nat);
            let lv = eval(&*b.lhs, env, st, out, f1);
            let ghost rsem = sem(*b.rhs, env as int, lsem.store, f1 as nat);
            let rv = eval(&*b.rhs, env, st, out, f1);
            proof {
                assert((out0 + lsem.out) + rsem.out =~= out0 + (lsem.out + rsem.out));
            }
            match (lv, rv) {
                (Ok(x), Ok(y)) => {
                    proof {
                        lemma_apply_binop_wf(
                            b.op,
                            val_view(x),
                            val_view(y),
                            rsem.store.len() as int,
                        );
                    }
                    eval_bin(b.op, x, y)
                },
                (Err(e), _) => Err(e),
                (_, Err(e)) => Err(e),
            }
        },
        Term::Call(c) => eval_call(c, env, st, out, f1),
    }
}

/// Evaluates a `let`: the bound value first; a closure value is also bound
/// under its own name inside its captured cell, so its body can recurse;
/// then the rest of the program in the extended scope.
fn eval_let(l: &Let, env: usize, st: &mut Vec<Env>, out: &mut Vec<String>, fuel: u64) -> (r: Result<
    Val,
    EvalError,
>)
    requires
        env < old(st)@.len(),
        store_wf(store_view(old(st)@)),
    ensures
        eval_post(
            sem_let(*l, env as int, store_view(old(st)@), fuel as nat),
            store_view(old(st)@),
            store_view(final(st)@),
            out_view(old(out)@),
            out_view(final(out)@),
            r,
        ),
    decreases fuel, 2int,
{
    let ghost st0 = store_view(st@);
    let ghost out0 = out_view(out@);
    let ghost vsem = sem(*l.value, env as int, st0, fuel as nat);
    match eval(&*l.value, env, st, out, fuel) {
        Ok(value) => {
            match value {
                Val::Closure { f, env: cenv } => {
                    let ghost st1 = store_view(st@);
                    let c1 = Val::Closure { f: f.clone(), env: cenv };
                    let c2 = Val::Closure { f, env: cenv };
                    proof {
                        lemma_store_wf_bind(st1, cenv as int, l.name.text@, val_view(c1));
                    }
                    store_bind(st, cenv, l.name.text.clone(), c1);
                    proof {
                        lemma_store_wf_bind(
                            store_view(st@),
                            env as int,
                            l.name.text@,
                            val_view(c2),
                        );
                    }
                    store_bind(st, env, l.name.text.clone(), c2);
                },
                other => {
                    proof {
                        lemma_store_wf_bind(store_view(st@), env as int, l.name.text@, val_view(other));
                    }
                    store_bind(st, env, l.name.text.clone(), other);
                },
            }
            let ghost nsem = sem(*l.next, env as int, store_view(st@), fuel as nat);
            let r = eval(&*l.next, env, st, out, fuel);
            proof {
                assert((out0 + vsem.out) + nsem.out =~= out0 + (vsem.out + nsem.out));
            }
            r
        },
        Err(e) => Err(e),
    }
}

/// Evaluates a `print`: renders the value, emits it as one line on the
/// sink, and passes the value through. A failing inner term is a type
/// error.
fn eval_print(p: &Print, env: usize, st: &mut Vec<Env>, out: &mut Vec<String>, fuel: u64) -> (r:
    Result<Val, EvalError>)
    requires
        env < old(st)@.len(),
        store_wf(store_view(old(st)@)),
    ensures
        eval_post(
            sem_print(*p, env as int, store_view(old(st)@), fuel as nat),
            store_view(old(st)@),
            store_view(final(st)@),
            out_view(old(out)@),
            out_view(final(out)@),
            r,
        ),
    decreases fuel, 2int,
{
    let ghost st0 = store_view(st@);
    let ghost out0 = out_view(out@);
    let ghost vsem = sem(*p.value, env as int, st0, fuel as nat);
    match eval(&*p.value, env, st, out, fuel) {
        Ok(value) => {
            let line = value.render();
            let ghost mid = out@;
            out.push(line);
            proof {
                assert(out_view(out@) =~= out_view(mid).push(line@));
                assert(out_view(mid).push(line@) =~= out0 + vsem.out.push(line@));
            }
            Ok(value)
        },
        Err(_) => Err(EvalError::TypeError),
    }
}

/// Evaluates a whole program: the term against a fresh store holding one
/// empty top-level scope, with the given depth quota. Returns the result
/// and the lines printed, in order.
pub fn evaluate(term: &Term, fuel: u64) -> (r: (Result<Val, EvalError>, Vec<String>))
    ensures
        res_view(r.0) == sem(*term, 0, init_store(), fuel as nat).res,
        out_view(r.1@) == sem(*term, 0, init_store(), fuel as nat).out,
{
    let mut st: Vec<Env> = Vec::new();
    st.push(Env { bindings: Vec::new() });
    let mut out: Vec<String> = Vec::new();
    proof {
        assert(store_view(st@) =~= init_store());
        assert forall|i: int| 0 <= i < init_store().len() implies crate::scope::scope_wf(
            #[trigger] init_store()[i],
            init_store().len() as int,
        ) by {
            assert(init_store()[i] =~= Map::<Seq<char>, ValV>::empty());
        }
        assert(out_view(out@) =~= Seq::<Seq<char>>::empty());
    }
    let r = eval(term, 0, &mut st, &mut out, fuel);
    proof {
        assert(Seq::<Seq<char>>::empty() + sem(*term, 0, init_store(), fuel as nat).out =~= sem(
            *term,
            0,
            init_store(),
            fuel as nat,
        ).out);
    }
    (r, out)
}

} // verus!
