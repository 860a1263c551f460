use vstd::prelude::*;
use crate::lamcirc::data::{Env, ErrTag, InstrSeq, Val};

verus! {

use std::rc::Rc;

/// Builds an error value carrying `tag`.
pub fn error(tag: ErrTag) -> (r: Rc<Val>)
    ensures
        *r == Val::Error(tag),
{
    Rc::new(Val::Error(tag))
}

/// Builds an integer value.
pub fn num(i: i32) -> (r: Rc<Val>)
    ensures
        *r == Val::Int(i),
{
    Rc::new(Val::Int(i))
}

/// Builds a closure from a captured environment and a compiled body.
pub fn clos(env: Rc<Env>, body: Rc<InstrSeq>) -> (r: Rc<Val>)
    ensures
        *r == Val::Clos(env, body),
{
    Rc::new(Val::Clos(env, body))
}

/// Builds a quoted-program value.
pub fn quo(code: Rc<InstrSeq>) -> (r: Rc<Val>)
    ensures
        *r == Val::Quo(code),
{
    Rc::new(Val::Quo(code))
}

/// Builds a future-stage residual fragment.
pub fn fut(code: Rc<InstrSeq>) -> (r: Rc<Val>)
    ensures
        *r == Val::Fut(code),
{
    Rc::new(Val::Fut(code))
}

} // verus!
