use vstd::prelude::*;

verus! {

use std::rc::Rc;

/// A persistent chain mapping de Bruijn index `i` to its `i`-th cell, generic
/// in the values it holds. Extension allocates a new head, so closures may
/// alias suffixes of one chain.
#[derive(PartialEq, Eq, Debug)]
pub enum Env<T> {
    Nil,
    Cons(Rc<T>, Rc<Env<T>>),
}

/// What looking up index `idx` yields: the `idx`-th cell, or nothing past the
/// end of the chain.
pub open spec fn lookup_spec<T>(env: Env<T>, idx: nat) -> Option<T>
    decreases env,
{
    match env {
        Env::Nil => None,
        Env::Cons(head, tail) => if idx == 0 {
            Some(*head)
        } else {
            lookup_spec(*tail, (idx - 1) as nat)
        },
    }
}

/// The empty environment.
pub fn empty<T>() -> (r: Rc<Env<T>>)
    ensures
        *r == Env::<T>::Nil,
{
    Rc::new(Env::Nil)
}

/// Extends `env` with `elm` at index zero, leaving `env` itself untouched.
pub fn cons<T>(elm: Rc<T>, env: Rc<Env<T>>) -> (r: Rc<Env<T>>)
    ensures
        *r == Env::<T>::Cons(elm, env),
{
    Rc::new(Env::Cons(elm, env))
}

/// Walks `idx` cells into the chain; `None` past its end.
pub fn lookup<T>(env: Rc<Env<T>>, idx: usize) -> (r: Option<Rc<T>>)
    ensures
        (match r {
            Some(v) => lookup_spec(*env, idx as nat) == Some(*v),
            None => lookup_spec(*env, idx as nat) is None,
        }),
    decreases *env,
{
    match &*env {
        Env::Nil => None,
        Env::Cons(head, tail) => {
            if idx == 0 {
                Some(head.clone())
            } else {
                lookup(tail.clone(), idx - 1)
            }
        },
    }
}

} // verus!
