use vstd::prelude::*;
use crate::stlc::ast::Ast;
use crate::stlc::env::Env;

verus! {

use std::rc::Rc;

/// Runtime results of the unstaged calculus: a fault, an integer, or a
/// closure pairing a function body with its captured environment.
#[derive(PartialEq, Eq, Debug)]
pub enum Val {
    Error,
    Int(i32),
    Clos(Rc<Env<Val>>, Rc<Ast>),
}

/// Builds the error value.
pub fn error() -> (r: Rc<Val>)
    ensures
        *r == Val::Error,
{
    Rc::new(Val::Error)
}

/// Builds an integer value.
pub fn num(i: i32) -> (r: Rc<Val>)
    ensures
        *r == Val::Int(i),
{
    Rc::new(Val::Int(i))
}

/// Builds a closure value.
pub fn clos(env: Rc<Env<Val>>, body: Rc<Ast>) -> (r: Rc<Val>)
    ensures
        *r == Val::Clos(env, body),
{
    Rc::new(Val::Clos(env, body))
}

} // verus!
