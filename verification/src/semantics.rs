//! The operational semantics, written once as a total specification
//! function. [`sem`] says, for every term, scope index, store and fuel
//! quota, what evaluation returns, what the store of scopes becomes, and
//! what lines are printed. The executable evaluator is verified to agree
//! with it exactly.
//!
//! Fuel bounds the depth of the evaluation tree (nesting plus guest calls);
//! when it runs out the outcome is a clean `StackExhausted` error rather
//! than an unbounded host recursion.

use crate::ast::BinaryOp;
use crate::ast::Call;
use crate::ast::Let;
use crate::ast::Print;
use crate::ast::Term;
use crate::ast::Var;
use crate::error::ErrV;
use crate::error::EvalError;
use crate::error::err_view;
use crate::scope::StoreV;
use crate::scope::store_wf;
use crate::scope::val_wf;
use crate::val::Val;
use crate::val::val_view;
use crate::text::dec_int;
use crate::text::lex_lt;
use crate::val::ValV;
use crate::val::render_v;
use vstd::arithmetic::div_mod::lemma_div_basics;
use vstd::arithmetic::div_mod::lemma_div_is_ordered;
use vstd::arithmetic::div_mod::lemma_div_is_ordered_by_denominator;
use vstd::arithmetic::div_mod::lemma_div_nonincreasing;
use vstd::arithmetic::div_mod::lemma_div_pos_is_pos;
use vstd::arithmetic::div_mod::lemma_mod_bound;
use vstd::prelude::*;

verus! {

/// The outcome of evaluating one term: the result, the store of scopes
/// after evaluation, and the lines printed along the way.
pub struct Sem {
    pub res: Result<ValV, ErrV>,
    pub store: StoreV,
    pub out: Seq<Seq<char>>,
}

/// The outcome of evaluating an argument list, left to right.
pub struct SemArgs {
    pub res: Result<Seq<ValV>, ErrV>,
    pub store: StoreV,
    pub out: Seq<Seq<char>>,
}

/// Truncating division (rounding toward zero), as machine division does it.
pub open spec fn div_trunc(x: int, d: int) -> int
    recommends
        d != 0,
{
    if x == 0 {
        0
    } else if x > 0 && d > 0 {
        x / d
    } else if x < 0 && d < 0 {
        (x * -1) / (d * -1)
    } else if x < 0 {
        ((x * -1) / d) * -1
    } else {
        (x / (d * -1)) * -1
    }
}

/// The remainder that pairs with [`div_trunc`]: it takes the sign of the
/// dividend.
pub open spec fn rem_trunc(x: int, d: int) -> int
    recommends
        d != 0,
{
    if x == 0 {
        0
    } else if x > 0 && d > 0 {
        x % d
    } else if x < 0 && d < 0 {
        ((x * -1) % (d * -1)) * -1
    } else if x < 0 {
        ((x * -1) % d) * -1
    } else {
        x % (d * -1)
    }
}

/// Truncating division of a 32-bit value stays in 32-bit range, apart from
/// the one overflowing pair, which the operator table handles separately.
pub proof fn lemma_div_trunc_range(x: int, d: int)
    requires
        -0x8000_0000 <= x <= 0x7fff_ffff,
        -0x8000_0000 <= d <= 0x7fff_ffff,
        d != 0,
        !(x == -0x8000_0000 && d == -1),
    ensures
        -0x8000_0000 <= div_trunc(x, d) <= 0x7fff_ffff,
{
    if x == 0 {
    } else if x > 0 && d > 0 {
        lemma_div_pos_is_pos(x, d);
        lemma_div_nonincreasing(x, d);
    } else if x < 0 && d < 0 {
        if d == -1 {
            lemma_div_basics(x * -1);
        } else {
            lemma_div_pos_is_pos(x * -1, d * -1);
            lemma_div_is_ordered_by_denominator(x * -1, 2, d * -1);
            lemma_div_is_ordered(x * -1, 0x8000_0000, 2);
        }
    } else if x < 0 {
        lemma_div_pos_is_pos(x * -1, d);
        lemma_div_nonincreasing(x * -1, d);
    } else {
        lemma_div_pos_is_pos(x, d * -1);
        lemma_div_nonincreasing(x, d * -1);
    }
}

/// The truncating remainder of a 32-bit value stays in 32-bit range.
pub proof fn lemma_rem_trunc_range(x: int, d: int)
    requires
        -0x8000_0000 <= x <= 0x7fff_ffff,
        -0x8000_0000 <= d <= 0x7fff_ffff,
        d != 0,
    ensures
        -0x8000_0000 <= rem_trunc(x, d) <= 0x7fff_ffff,
{
    if x == 0 {
    } else if x > 0 && d > 0 {
        lemma_mod_bound(x, d);
    } else if x < 0 && d < 0 {
        lemma_mod_bound(x * -1, d * -1);
    } else if x < 0 {
        lemma_mod_bound(x * -1, d);
    } else {
        lemma_mod_bound(x, d * -1);
    }
}

/// The operator table: what each binary operator yields on two
/// already-evaluated operands.
///
/// `+` on two integers wraps at 32 bits; on any other pair of values it
/// falls back to concatenating their textual forms. `!=` additionally
/// accepts one string and one integer, comparing the string with the
/// integer's decimal form; no other operator coerces. Division and
/// remainder by zero fail; on the one overflowing pair they wrap.
pub open spec fn apply_binop(op: BinaryOp, a: ValV, b: ValV) -> Result<ValV, ErrV> {
    match op {
        BinaryOp::Add => match (a, b) {
            (ValV::Int(x), ValV::Int(y)) => Ok(
                ValV::Int(vstd::wrapping::i32_specs::wrapping_add(x, y)),
            ),
            _ => Ok(ValV::Str(render_v(a) + render_v(b))),
        },
        BinaryOp::Sub => match (a, b) {
            (ValV::Int(x), ValV::Int(y)) => Ok(
                ValV::Int(vstd::wrapping::i32_specs::wrapping_sub(x, y)),
            ),
            _ => Err(ErrV::TypeError),
        },
        BinaryOp::Mul => match (a, b) {
            (ValV::Int(x), ValV::Int(y)) => Ok(
                ValV::Int(vstd::wrapping::i32_specs::wrapping_mul(x, y)),
            ),
            _ => Err(ErrV::TypeError),
        },
        BinaryOp::Div => match (a, b) {
            (ValV::Int(x), ValV::Int(y)) => if y == 0 {
                Err(ErrV::DivisionByZero)
            } else if x == i32::MIN && y == -1 {
                Ok(ValV::Int(i32::MIN))
            } else {
                Ok(ValV::Int(div_trunc(x as int, y as int) as i32))
            },
            _ => Err(ErrV::TypeError),
        },
        BinaryOp::Rem => match (a, b) {
            (ValV::Int(x), ValV::Int(y)) => if y == 0 {
                Err(ErrV::DivisionByZero)
            } else if x == i32::MIN && y == -1 {
                Ok(ValV::Int(0))
            } else {
                Ok(ValV::Int(rem_trunc(x as int, y as int) as i32))
            },
            _ => Err(ErrV::TypeError),
        },
        BinaryOp::Lt => match (a, b) {
            (ValV::Int(x), ValV::Int(y)) => Ok(ValV::Bool(x < y)),
            (ValV::Str(p), ValV::Str(q)) => Ok(ValV::Bool(lex_lt(p, q))),
            _ => Err(ErrV::TypeError),
        },
        BinaryOp::Gt => match (a, b) {
            (ValV::Int(x), ValV::Int(y)) => Ok(ValV::Bool(x > y)),
            (ValV::Str(p), ValV::Str(q)) => Ok(ValV::Bool(lex_lt(q, p))),
            _ => Err(ErrV::TypeError),
        },
        BinaryOp::Lte => match (a, b) {
            (ValV::Int(x), ValV::Int(y)) => Ok(ValV::Bool(x <= y)),
            (ValV::Str(p), ValV::Str(q)) => Ok(ValV::Bool(lex_lt(p, q) || p == q)),
            _ => Err(ErrV::TypeError),
        },
        BinaryOp::Gte => match (a, b) {
            (ValV::Int(x), ValV::Int(y)) => Ok(ValV::Bool(x >= y)),
            (ValV::Str(p), ValV::Str(q)) => Ok(ValV::Bool(lex_lt(q, p) || p == q)),
            _ => Err(ErrV::TypeError),
        },
        BinaryOp::Eq => match (a, b) {
            (ValV::Int(x), ValV::Int(y)) => Ok(ValV::Bool(x == y)),
            (ValV::Bool(x), ValV::Bool(y)) => Ok(ValV::Bool(x == y)),
            (ValV::Str(p), ValV::Str(q)) => Ok(ValV::Bool(p == q)),
            _ => Err(ErrV::TypeError),
        },
        BinaryOp::Neq => match (a, b) {
            (ValV::Int(x), ValV::Int(y)) => Ok(ValV::Bool(x != y)),
            (ValV::Bool(x), ValV::Bool(y)) => Ok(ValV::Bool(x != y)),
            (ValV::Str(p), ValV::Str(q)) => Ok(ValV::Bool(p != q)),
            (ValV::Str(p), ValV::Int(y)) => Ok(ValV::Bool(p != dec_int(y as int))),
            (ValV::Int(x), ValV::Str(q)) => Ok(ValV::Bool(dec_int(x as int) != q)),
            _ => Err(ErrV::TypeError),
        },
        BinaryOp::And => match (a, b) {
            (ValV::Bool(x), ValV::Bool(y)) => Ok(ValV::Bool(x && y)),
            _ => Err(ErrV::TypeError),
        },
        BinaryOp::Or => match (a, b) {
            (ValV::Bool(x), ValV::Bool(y)) => Ok(ValV::Bool(x || y)),
            _ => Err(ErrV::TypeError),
        },
    }
}

/// Whatever the operator table yields, it is a plain value: never a closure
/// or a tuple, so it is well formed for any store.
pub proof fn lemma_apply_binop_wf(op: BinaryOp, a: ValV, b: ValV, n: int)
    ensures
        apply_binop(op, a, b) matches Ok(v) ==> val_wf(v, n),
{
}

/// What the evaluator promises: its outcome is the specified one, the store
/// only grows and stays well formed, output is appended, and a returned
/// value only points at scopes that exist.
pub open spec fn eval_post(
    s: Sem,
    st0: StoreV,
    st1: StoreV,
    out0: Seq<Seq<char>>,
    out1: Seq<Seq<char>>,
    r: Result<Val, EvalError>,
) -> bool {
    &&& st1 == s.store
    &&& out1 == out0 + s.out
    &&& res_view(r) == s.res
    &&& st1.len() >= st0.len()
    &&& store_wf(st1)
    &&& (r matches Ok(v) ==> val_wf(val_view(v), st1.len() as int))
}

/// The activation scope of a call: the captured scope extended with each
/// parameter bound to its argument, in positional order, up to the shorter
/// of the two lists. Extra parameters stay unbound; extra arguments are
/// dropped.
pub open spec fn bind_params(
    m: Map<Seq<char>, ValV>,
    params: Seq<Var>,
    vals: Seq<ValV>,
) -> Map<Seq<char>, ValV>
    decreases params.len(),
{
    if params.len() == 0 || vals.len() == 0 {
        m
    } else {
        bind_params(m.insert(params[0].text@, vals[0]), params.skip(1), vals.skip(1))
    }
}

/// An executable outcome, viewed mathematically.
pub open spec fn res_view(r: Result<Val, EvalError>) -> Result<ValV, ErrV> {
    match r {
        Ok(v) => Ok(val_view(v)),
        Err(e) => Err(err_view(e)),
    }
}

/// The lines of an output sink, viewed as character sequences.
pub open spec fn out_view(s: Seq<String>) -> Seq<Seq<char>> {
    s.map_values(|x: String| x@)
}

/// The store an evaluation starts from: one empty top-level scope.
pub open spec fn init_store() -> StoreV {
    seq![Map::<Seq<char>, ValV>::empty()]
}

/// The meaning of one term, in the scope named `env` of store `st`, with a
/// depth quota of `fuel`.
pub open spec fn sem(t: Term, env: int, st: StoreV, fuel: nat) -> Sem
    decreases fuel, 1int, 0int,
{
    if fuel == 0 {
        Sem { res: Err(ErrV::StackExhausted), store: st, out: Seq::empty() }
    } else {
        let f = (fuel - 1) as nat;
        match t {
            Term::Int(i) => Sem { res: Ok(ValV::Int(i.value)), store: st, out: Seq::empty() },
            Term::Str(s) => Sem { res: Ok(ValV::Str(s.value@)), store: st, out: Seq::empty() },
            Term::Bool(b) => Sem { res: Ok(ValV::Bool(b.value)), store: st, out: Seq::empty() },
            Term::Var(v) => if st[env].dom().contains(v.text@) {
                Sem { res: Ok(st[env][v.text@]), store: st, out: Seq::empty() }
            } else {
                Sem { res: Err(ErrV::UndefinedVariable), store: st, out: Seq::empty() }
            },
            Term::Function(func) => Sem {
                res: Ok(ValV::Closure { f: *func, env: st.len() as int }),
                store: st.push(st[env]),
                out: Seq::empty(),
            },
            Term::If(i) => {
                let c = sem(*i.condition, env, st, f);
                match c.res {
                    Ok(ValV::Bool(true)) => {
                        let taken = sem(*i.then_branch, env, c.store, f);
                        Sem { res: taken.res, store: taken.store, out: c.out + taken.out }
                    },
                    Ok(ValV::Bool(false)) => {
                        let taken = sem(*i.otherwise, env, c.store, f);
                        Sem { res: taken.res, store: taken.store, out: c.out + taken.out }
                    },
                    Ok(_) => Sem { res: Err(ErrV::TypeError), store: c.store, out: c.out },
                    Err(e) => Sem { res: Err(e), store: c.store, out: c.out },
                }
            },
            Term::Let(l) => sem_let(l, env, st, f),
            Term::Print(p) => sem_print(p, env, st, f),
            Term::First(fs) => {
                let v = sem(*fs.value, env, st, f);
                match v.res {
                    Ok(ValV::Str(s)) => if s.len() >= 1 {
                        Sem { res: Ok(ValV::Str(s.subrange(0, 1))), store: v.store, out: v.out }
                    } else {
                        Sem { res: Err(ErrV::IndexError), store: v.store, out: v.out }
                    },
                    Ok(ValV::Tuple(a, _)) => Sem { res: Ok(*a), store: v.store, out: v.out },
                    Ok(_) => Sem { res: Err(ErrV::TypeError), store: v.store, out: v.out },
                    Err(e) => Sem { res: Err(e), store: v.store, out: v.out },
                }
            },
            Term::Second(sc) => {
                let v = sem(*sc.value, env, st, f);
                match v.res {
                    Ok(ValV::Str(s)) => if s.len() >= 2 {
                        Sem { res: Ok(ValV::Str(s.subrange(1, 2))), store: v.store, out: v.out }
                    } else {
                        Sem { res: Err(ErrV::IndexError), store: v.store, out: v.out }
                    },
                    Ok(ValV::Tuple(_, b)) => Sem { res: Ok(*b), store: v.store, out: v.out },
                    Ok(_) => Sem { res: Err(ErrV::TypeError), store: v.store, out: v.out },
                    Err(e) => Sem { res: Err(e), store: v.store, out: v.out },
                }
            },
            Term::Tuple(tp) => {
                let a = sem(*tp.first, env, st, f);
                match a.res {
                    Ok(av) => {
                        let b = sem(*tp.second, env, a.store, f);
                        match b.res {
                            Ok(bv) => Sem {
                                res: Ok(ValV::Tuple(Box::new(av), Box::new(bv))),
                                store: b.store,
                                out: a.out + b.out,
                            },
                            Err(e) => Sem { res: Err(e), store: b.store, out: a.out + b.out },
                        }
                    },
                    Err(e) => Sem { res: Err(e), store: a.store, out: a.out },
                }
            },
            Term::Error(e) => Sem {
                res: Err(ErrV::UserError(e.message@)),
                store: st,
                out: Seq::empty(),
            },
            Term::Binary(b) => {
                let l = sem(*b.lhs, env, st, f);
                let r = sem(*b.rhs, env, l.store, f);
                let out = l.out + r.out;
                match (l.res, r.res) {
                    (Ok(x), Ok(y)) => Sem { res: apply_binop(b.op, x, y), store: r.store, out },
                    (Err(e), _) => Sem { res: Err(e), store: r.store, out },
                    (_, Err(e)) => Sem { res: Err(e), store: r.store, out },
                }
            },
            Term::Call(c) => sem_call(c, env, st, f),
        }
    }
}

/// The meaning of a `let`: evaluate the bound value; when it is a closure,
/// bind it under its own name inside its captured cell as well, so the body
/// can recurse; bind the name in the current scope; evaluate the rest.
pub open spec fn sem_let(l: Let, env: int, st: StoreV, fuel: nat) -> Sem
    decreases fuel, 2int, 0int,
{
    let v = sem(*l.value, env, st, fuel);
    match v.res {
        Ok(val) => {
            let st2 = match val {
                ValV::Closure { env: cenv, .. } => {
                    let cell = v.store.update(cenv, v.store[cenv].insert(l.name.text@, val));
                    cell.update(env, cell[env].insert(l.name.text@, val))
                },
                _ => v.store.update(env, v.store[env].insert(l.name.text@, val)),
            };
            let n = sem(*l.next, env, st2, fuel);
            Sem { res: n.res, store: n.store, out: v.out + n.out }
        },
        Err(e) => Sem { res: Err(e), store: v.store, out: v.out },
    }
}

/// The meaning of a `print`: evaluate the value, emit its textual form as
/// one line, and pass the value through unchanged. A failing inner term is
/// a type error.
pub open spec fn sem_print(p: Print, env: int, st: StoreV, fuel: nat) -> Sem
    decreases fuel, 2int, 0int,
{
    let v = sem(*p.value, env, st, fuel);
    match v.res {
        Ok(val) => Sem { res: Ok(val), store: v.store, out: v.out.push(render_v(val)) },
        Err(_) => Sem { res: Err(ErrV::TypeError), store: v.store, out: v.out },
    }
}

/// The meaning of a call: the callee must evaluate to a closure, else the
/// call is not callable; every argument is then evaluated in the caller's
/// scope, left to right; a fresh activation scope copies the closure's
/// captured cell and binds the parameters; the body runs there.
pub open spec fn sem_call(c: Call, env: int, st: StoreV, fuel: nat) -> Sem
    decreases fuel, 2int, 0int,
{
    let cal = sem(*c.callee, env, st, fuel);
    match cal.res {
        Ok(ValV::Closure { f: func, env: cenv }) => {
            let args = sem_args(c.arguments@, env, cal.store, fuel);
            match args.res {
                Ok(vals) => {
                    let act = bind_params(args.store[cenv], func.parameters@, vals);
                    let act_id = args.store.len() as int;
                    let body = sem(*func.value, act_id, args.store.push(act), fuel);
                    Sem { res: body.res, store: body.store, out: cal.out + args.out + body.out }
                },
                Err(e) => Sem { res: Err(e), store: args.store, out: cal.out + args.out },
            }
        },
        Ok(_) => Sem { res: Err(ErrV::NotCallable), store: cal.store, out: cal.out },
        Err(e) => Sem { res: Err(e), store: cal.store, out: cal.out },
    }
}

/// The meaning of an argument list: each argument in turn, in the caller's
/// scope, threading the store and stopping at the first failure.
pub open spec fn sem_args(args: Seq<Term>, env: int, st: StoreV, fuel: nat) -> SemArgs
    decreases fuel, 0int, args.len(),
{
    if args.len() == 0 {
        SemArgs { res: Ok(Seq::empty()), store: st, out: Seq::empty() }
    } else if fuel == 0 {
        SemArgs { res: Err(ErrV::StackExhausted), store: st, out: Seq::empty() }
    } else {
        let a0 = sem(args[0], env, st, (fuel - 1) as nat);
        match a0.res {
            Ok(v) => {
                let rest = sem_args(args.skip(1), env, a0.store, fuel);
                match rest.res {
                    Ok(vs) => SemArgs {
                        res: Ok(seq![v] + vs),
                        store: rest.store,
                        out: a0.out + rest.out,
                    },
                    Err(e) => SemArgs { res: Err(e), store: rest.store, out: a0.out + rest.out },
                }
            },
            Err(e) => SemArgs { res: Err(e), store: a0.store, out: a0.out },
        }
    }
}

} // verus!
