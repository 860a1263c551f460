use vstd::prelude::*;
use crate::lamcirc::data::{Env, Val};

verus! {

use std::rc::Rc;

/// What looking up de Bruijn index `idx` in `env` yields: the `idx`-th cell
/// of the chain, or nothing past its end.
pub open spec fn lookup_spec(env: Env, idx: nat) -> Option<Val>
    decreases env,
{
    match env {
        Env::Nil => None,
        Env::Cons(head, tail) => if idx == 0 {
            Some(*head)
        } else {
            lookup_spec(*tail, (idx - 1) as nat)
        },
    }
}

/// The empty environment.
pub fn empty() -> (r: Rc<Env>)
    ensures
        *r == Env::Nil,
{
    Rc::new(Env::Nil)
}

/// Extends `env` with `elm` at index zero; `env` itself is shared, not
/// changed, so prior references to it stay valid.
pub fn cons(elm: Rc<Val>, env: Rc<Env>) -> (r: Rc<Env>)
    ensures
        *r == Env::Cons(elm, env),
{
    Rc::new(Env::Cons(elm, env))
}

/// Walks `idx` cells into the chain; `None` past the end, which callers
/// surface as an undefined-variable fault.
pub fn lookup(env: Rc<Env>, idx: usize) -> (r: Option<Rc<Val>>)
    ensures
        (match r {
            Some(v) => lookup_spec(*env, idx as nat) == Some(*v),
            None => lookup_spec(*env, idx as nat) is None,
        }),
    decreases *env,
{
    match &*env {
        Env::Nil => None,
        Env::Cons(head, tail) => {
            if idx == 0 {
                Some(head.clone())
            } else {
                lookup(tail.clone(), idx - 1)
            }
        },
    }
}

} // verus!
