//! The call evaluator: resolves a function application as [`sem_call`]
//! specifies. The callee must evaluate to a closure; the arguments are
//! evaluated in the caller's scope, left to right, call-by-value; a fresh
//! activation scope copies the closure's captured cell and binds each
//! parameter to its argument in positional order, up to the shorter of the
//! two lists; the body then runs in that scope.

use crate::ast::Call;
use crate::error::EvalError;
use crate::eval::eval;
use crate::scope::Env;
use crate::scope::bind;
use crate::scope::env_map;
use crate::scope::lemma_scope_wf_insert;
use crate::scope::lemma_store_wf_push;
use crate::scope::lemma_val_wf_mono;
use crate::scope::store_env_clone;
use crate::scope::store_push;
use crate::scope::store_view;
use crate::scope::store_wf;
use crate::scope::val_wf;
use crate::semantics::bind_params;
use crate::semantics::eval_post;
use crate::semantics::out_view;
use crate::semantics::sem;
use crate::semantics::sem_args;
use crate::semantics::sem_call;
use crate::val::Val;
use crate::val::ValV;
use crate::val::clone_val;
use crate::val::val_view;
use vstd::prelude::*;

verus! {

/// Evaluates one function application.
#[verifier::loop_isolation(false)]
pub fn eval_call(call: &Call, env: usize, st: &mut Vec<Env>, out: &mut Vec<String>, fuel: u64) -> (r:
    Result<Val, EvalError>)
    requires
        env < old(st)@.len(),
        store_wf(store_view(old(st)@)),
    ensures
        eval_post(
            sem_call(*call, env as int, store_view(old(st)@), fuel as nat),
            store_view(old(st)@),
            store_view(final(st)@),
            out_view(old(out)@),
            out_view(final(out)@),
            r,
        ),
    decreases fuel, 2int,
{
    let ghost st0 = store_view(st@);
    let ghost out0 = out_view(out@);
    let ghost cs = sem_call(*call, env as int, st0, fuel as nat);
    let ghost cal = sem(*call.callee, env as int, st0, fuel as nat);
    match eval(&*call.callee, env, st, out, fuel) {
        Ok(Val::Closure { f: rcf, env: cenv }) => {
            let ghost st1 = store_view(st@);
            proof {
                // a callee cannot succeed with no fuel, so the arguments
                // get a positive quota
                assert(fuel >= 1);
            }
            let ghost argsem = sem_args(call.arguments@, env as int, st1, fuel as nat);
            let n = call.arguments.len();
            let mut vals: Vec<Val> = Vec::new();
            let mut i: usize = 0;
            let ghost mut done: Seq<Seq<char>> = Seq::empty();
            let ghost mut vdone: Seq<ValV> = Seq::empty();
            proof {
                assert(call.arguments@.skip(0) =~= call.arguments@);
                assert(out_view(out@) =~= (out0 + cal.out) + done);
            }
            while i < n
                invariant
                    i <= n,
                    vals@.len() == i as int,
                    env < st@.len(),
                    store_wf(store_view(st@)),
                    store_view(st@).len() >= st1.len(),
                    cenv < st1.len(),
                    out_view(out@) == (out0 + cal.out) + done,
                    forall|j: int|
                        0 <= j < vals@.len() ==> val_wf(
                            val_view(#[trigger] vals@[j]),
                            store_view(st@).len() as int,
                        ),
                    forall|j: int| 0 <= j < vals@.len() ==> vdone[j] == val_view(#[trigger] vals@[j]),
                    vdone.len() == i as int,
                    ({
                        let rest = sem_args(
                            call.arguments@.skip(i as int),
                            env as int,
                            store_view(st@),
                            fuel as nat,
                        );
                        &&& argsem.store == rest.store
                        &&& argsem.out == done + rest.out
                        &&& argsem.res == (match rest.res {
                            Ok(v2) => Ok::<Seq<ValV>, crate::error::ErrV>(vdone + v2),
                            Err(e) => Err(e),
                        })
                    }),
                decreases n - i,
            {
                let ghost rest = sem_args(
                    call.arguments@.skip(i as int),
                    env as int,
                    store_view(st@),
                    fuel as nat,
                );
                let ghost a0 = sem(
                    call.arguments@[i as int],
                    env as int,
                    store_view(st@),
                    (fuel - 1) as nat,
                );
                proof {
                    assert(call.arguments@.skip(i as int)[0] == call.arguments@[i as int]);
                    assert(call.arguments@.skip(i as int).skip(1) =~= call.arguments@.skip(
                        i as int + 1,
                    ));
                }
                let ghost len_before = store_view(st@).len();
                match eval(&call.arguments[i], env, st, out, fuel - 1) {
                    Ok(v) => {
                        proof {
                            let rest2 = sem_args(
                                call.arguments@.skip(i as int + 1),
                                env as int,
                                store_view(st@),
                                fuel as nat,
                            );
                            if rest2.res is Ok {
                                let v2 = rest2.res->Ok_0;
                                assert(vdone + (seq![val_view(v)] + v2) =~= (vdone.push(
                                    val_view(v),
                                )) + v2);
                            }
                            assert(done + (a0.out + rest2.out) =~= (done + a0.out) + rest2.out);
                            assert((out0 + cal.out) + (done + a0.out) =~= ((out0 + cal.out) + done)
                                + a0.out);
                            assert forall|j: int| 0 <= j < vals@.len() implies val_wf(
                                val_view(#[trigger] vals@[j]),
                                store_view(st@).len() as int,
                            ) by {
                                lemma_val_wf_mono(
                                    val_view(vals@[j]),
                                    len_before as int,
                                    store_view(st@).len() as int,
                                );
                            }
                            done = done + a0.out;
                            vdone = vdone.push(val_view(v));
                        }
                        vals.push(v);
                        i = i + 1;
                    },
                    Err(e) => {
                        proof {
                            assert((out0 + cal.out) + (done + a0.out) =~= ((out0 + cal.out) + done)
                                + a0.out);
                            assert(out0 + (cal.out + argsem.out) =~= (out0 + cal.out) + (done
                                + a0.out));
                        }
                        return Err(e);
                    },
                }
            }
            proof {
                assert(call.arguments@.skip(n as int).len() == 0);
                assert(vdone + Seq::<ValV>::empty() =~= vdone);
                assert(argsem.out =~= done);
            }
            // the arguments are in; build the activation scope from the
            // closure's captured cell
            let ghost st2 = store_view(st@);
            let mut act = store_env_clone(st, cenv);
            let np = rcf.parameters.len();
            let nv = vals.len();
            let m = if np < nv {
                np
            } else {
                nv
            };
            let mut j: usize = 0;
            proof {
                assert((*rcf).parameters@.skip(0) =~= (*rcf).parameters@);
                assert(vdone.skip(0) =~= vdone);
            }
            while j < m
                invariant
                    j <= m,
                    act.bindings@.len() >= 0,
                    crate::scope::scope_wf(env_map(act.bindings@), st2.len() as int),
                    bind_params(st2[cenv as int], (*rcf).parameters@, vdone) == bind_params(
                        env_map(act.bindings@),
                        (*rcf).parameters@.skip(j as int),
                        vdone.skip(j as int),
                    ),
                decreases m - j,
            {
                let ghost before = env_map(act.bindings@);
                proof {
                    assert((*rcf).parameters@.skip(j as int)[0] == (*rcf).parameters@[j as int]);
                    assert(vdone.skip(j as int)[0] == vdone[j as int]);
                    assert((*rcf).parameters@.skip(j as int).skip(1) =~= (*rcf).parameters@.skip(
                        j as int + 1,
                    ));
                    assert(vdone.skip(j as int).skip(1) =~= vdone.skip(j as int + 1));
                    assert(vdone[j as int] == val_view(vals@[j as int]));
                    lemma_scope_wf_insert(
                        before,
                        st2.len() as int,
                        (*rcf).parameters@[j as int].text@,
                        vdone[j as int],
                    );
                }
                let param = &rcf.parameters[j];
                let arg = clone_val(&vals[j]);
                bind(&mut act, param.text.clone(), arg);
                j = j + 1;
            }
            proof {
                if (*rcf).parameters@.skip(m as int).len() != 0 {
                    assert(vdone.skip(m as int).len() == 0);
                }
                assert(env_map(act.bindings@) == bind_params(
                    st2[cenv as int],
                    (*rcf).parameters@,
                    vdone,
                ));
                lemma_store_wf_push(st2, env_map(act.bindings@));
            }
            let act_id = store_push(st, act);
            let body: &crate::ast::Term = &*(*rcf).value;
            let ghost bodysem = sem(*body, act_id as int, store_view(st@), fuel as nat);
            let r = eval(body, act_id, st, out, fuel);
            proof {
                assert(out_view(out@) =~= out0 + ((cal.out + argsem.out) + bodysem.out));
            }
            r
        },
        Ok(_) => Err(EvalError::NotCallable),
        Err(e) => Err(e),
    }
}

} // verus!
