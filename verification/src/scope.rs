//! The environment model: one lexical scope is a list of bindings read as a
//! map (the newest binding for a name wins), and the store is the arena of
//! all scopes alive during one evaluation.
//!
//! A closure names its captured scope by index into the store. That one
//! level of indirection is what lets a `let`-bound closure see its own name:
//! binding the closure mutates the captured cell in place, and every copy of
//! the closure aliases the same cell. The cycle this creates (cell to
//! closure to cell) is a cycle of indices, which plain ownership tolerates.

use crate::val::Val;
use crate::val::ValV;
use crate::val::clone_val;
use crate::val::val_view;
use vstd::prelude::*;

verus! {

/// One lexical scope.
#[derive(Debug)]
pub struct Env {
    pub bindings: Vec<(String, Val)>,
}

/// The store of every scope alive in one evaluation, viewed as maps.
pub type StoreV = Seq<Map<Seq<char>, ValV>>;

/// The map a binding list stands for: later entries shadow earlier ones.
pub open spec fn env_map(s: Seq<(String, Val)>) -> Map<Seq<char>, ValV>
    decreases s.len(),
{
    if s.len() == 0 {
        Map::empty()
    } else {
        env_map(s.drop_last()).insert(s.last().0@, val_view(s.last().1))
    }
}

/// The maps an environment store stands for.
pub open spec fn store_view(s: Seq<Env>) -> StoreV {
    s.map_values(|e: Env| env_map(e.bindings@))
}

/// A value is well formed for a store of `n` scopes when every closure in
/// it points at a scope that exists.
pub open spec fn val_wf(v: ValV, n: int) -> bool
    decreases v,
{
    match v {
        ValV::Closure { env, .. } => 0 <= env < n,
        ValV::Tuple(a, b) => val_wf(*a, n) && val_wf(*b, n),
        _ => true,
    }
}

/// Every value bound in the scope is well formed.
pub open spec fn scope_wf(m: Map<Seq<char>, ValV>, n: int) -> bool {
    forall|k: Seq<char>| #[trigger] m.dom().contains(k) ==> val_wf(m[k], n)
}

/// Every scope of the store only holds closures that point back into the
/// store.
pub open spec fn store_wf(st: StoreV) -> bool {
    forall|i: int| 0 <= i < st.len() ==> scope_wf(#[trigger] st[i], st.len() as int)
}

/// Well-formedness only ever asks that indices exist, so it survives the
/// store growing.
pub proof fn lemma_val_wf_mono(v: ValV, n: int, m: int)
    requires
        val_wf(v, n),
        n <= m,
    ensures
        val_wf(v, m),
    decreases v,
{
    match v {
        ValV::Tuple(a, b) => {
            lemma_val_wf_mono(*a, n, m);
            lemma_val_wf_mono(*b, n, m);
        },
        _ => {},
    }
}

/// As [`lemma_val_wf_mono`], lifted to a whole scope.
pub proof fn lemma_scope_wf_mono(s: Map<Seq<char>, ValV>, n: int, m: int)
    requires
        scope_wf(s, n),
        n <= m,
    ensures
        scope_wf(s, m),
{
    assert forall|k: Seq<char>| #[trigger] s.dom().contains(k) implies val_wf(s[k], m) by {
        lemma_val_wf_mono(s[k], n, m);
    }
}

/// Inserting a well-formed value keeps a scope well formed.
pub proof fn lemma_scope_wf_insert(m: Map<Seq<char>, ValV>, n: int, k: Seq<char>, v: ValV)
    requires
        scope_wf(m, n),
        val_wf(v, n),
    ensures
        scope_wf(m.insert(k, v), n),
{
    assert forall|k2: Seq<char>| #[trigger] m.insert(k, v).dom().contains(k2) implies val_wf(
        m.insert(k, v)[k2],
        n,
    ) by {
        if k2 != k {
            assert(m.dom().contains(k2));
        }
    }
}

/// Inserting a well-formed value into one scope keeps the store well
/// formed.
pub proof fn lemma_store_wf_bind(st: StoreV, i: int, k: Seq<char>, v: ValV)
    requires
        store_wf(st),
        0 <= i < st.len(),
        val_wf(v, st.len() as int),
    ensures
        store_wf(st.update(i, st[i].insert(k, v))),
{
    let st2 = st.update(i, st[i].insert(k, v));
    assert forall|j: int| 0 <= j < st2.len() implies scope_wf(#[trigger] st2[j], st2.len() as int) by {
        if j == i {
            lemma_scope_wf_insert(st[i], st.len() as int, k, v);
        } else {
            assert(st2[j] == st[j]);
        }
    }
}

/// Adding a scope whose values are well formed for the old length keeps
/// the grown store well formed.
pub proof fn lemma_store_wf_push(st: StoreV, m: Map<Seq<char>, ValV>)
    requires
        store_wf(st),
        scope_wf(m, st.len() as int),
    ensures
        store_wf(st.push(m)),
{
    let st2 = st.push(m);
    assert forall|j: int| 0 <= j < st2.len() implies scope_wf(#[trigger] st2[j], st2.len() as int) by {
        if j < st.len() {
            assert(st2[j] == st[j]);
            lemma_scope_wf_mono(st[j], st.len() as int, st2.len() as int);
        } else {
            assert(st2[j] == m);
            lemma_scope_wf_mono(m, st.len() as int, st2.len() as int);
        }
    }
}

/// Appending a binding is insertion into the map the list stands for.
pub proof fn lemma_env_map_push(s: Seq<(String, Val)>, p: (String, Val))
    ensures
        env_map(s.push(p)) == env_map(s).insert(p.0@, val_view(p.1)),
{
    assert(s.push(p).drop_last() =~= s);
    assert(s.push(p).last() == p);
}

/// Unfolds the map of a prefix by one entry.
pub proof fn lemma_env_map_take(s: Seq<(String, Val)>, i: int)
    requires
        0 < i <= s.len(),
    ensures
        env_map(s.take(i)) == env_map(s.take(i - 1)).insert(s[i - 1].0@, val_view(s[i - 1].1)),
{
    assert(s.take(i).drop_last() =~= s.take(i - 1));
    assert(s.take(i).last() == s[i - 1]);
}

/// Finds the value bound to `name` in one scope, scanning the newest
/// bindings first.
pub fn lookup<'a>(e: &'a Env, name: &String) -> (r: Option<&'a Val>)
    ensures
        match r {
            Some(v) => env_map(e.bindings@).dom().contains(name@) && val_view(*v) == env_map(
                e.bindings@,
            )[name@],
            None => !env_map(e.bindings@).dom().contains(name@),
        },
{
    let ghost s = e.bindings@;
    let mut i: usize = e.bindings.len();
    proof {
        assert(s.take(s.len() as int) =~= s);
    }
    loop
        invariant
            i <= s.len(),
            s == e.bindings@,
            env_map(s).dom().contains(name@) == env_map(s.take(i as int)).dom().contains(name@),
            env_map(s).dom().contains(name@) ==> env_map(s)[name@] == env_map(
                s.take(i as int),
            )[name@],
        decreases i,
    {
        if i == 0 {
            proof {
                assert(s.take(0) =~= Seq::<(String, Val)>::empty());
            }
            return None;
        }
        i = i - 1;
        proof {
            lemma_env_map_take(s, i as int + 1);
        }
        let entry = &e.bindings[i];
        if entry.0 == *name {
            return Some(&entry.1);
        }
    }
}

/// Appends a binding to one scope: insertion into the map it stands for.
pub fn bind(e: &mut Env, name: String, v: Val)
    ensures
        env_map(final(e).bindings@) == env_map(old(e).bindings@).insert(name@, val_view(v)),
{
    let ghost s = e.bindings@;
    e.bindings.push((name, v));
    proof {
        lemma_env_map_push(s, (name, v));
    }
}

/// A copy of one scope, with equal bindings.
pub fn clone_env(e: &Env) -> (r: Env)
    ensures
        r.bindings@ == e.bindings@,
{
    let mut out: Vec<(String, Val)> = Vec::new();
    let n = e.bindings.len();
    let mut i: usize = 0;
    while i < n
        invariant
            i <= n,
            n == e.bindings@.len(),
            out@ =~= e.bindings@.take(i as int),
        decreases n - i,
    {
        let entry = &e.bindings[i];
        out.push((entry.0.clone(), clone_val(&entry.1)));
        i = i + 1;
    }
    assert(out@ =~= e.bindings@);
    Env { bindings: out }
}

/// Adds a scope to the store; its index names it from then on.
pub fn store_push(st: &mut Vec<Env>, e: Env) -> (id: usize)
    ensures
        store_view(final(st)@) == store_view(old(st)@).push(env_map(e.bindings@)),
        id == old(st)@.len(),
        final(st)@.len() == old(st)@.len() + 1,
{
    let id = st.len();
    st.push(e);
    proof {
        assert(store_view(st@) =~= store_view(old(st)@).push(env_map(e.bindings@)));
    }
    id
}

/// Inserts a binding into the scope at index `i` of the store.
pub fn store_bind(st: &mut Vec<Env>, i: usize, name: String, v: Val)
    requires
        i < old(st)@.len(),
    ensures
        store_view(final(st)@) == store_view(old(st)@).update(
            i as int,
            store_view(old(st)@)[i as int].insert(name@, val_view(v)),
        ),
        final(st)@.len() == old(st)@.len(),
{
    let e = &mut st[i];
    bind(e, name, v);
    proof {
        assert(store_view(st@) =~= store_view(old(st)@).update(
            i as int,
            store_view(old(st)@)[i as int].insert(name@, val_view(v)),
        ));
    }
}

/// A copy of the scope at index `i` of the store.
pub fn store_env_clone(st: &Vec<Env>, i: usize) -> (r: Env)
    requires
        i < st@.len(),
    ensures
        env_map(r.bindings@) == store_view(st@)[i as int],
{
    clone_env(&st[i])
}

} // verus!
