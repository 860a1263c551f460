use vstd::prelude::*;
use crate::lamcirc::data::Ast;

verus! {

use std::rc::Rc;

/// Builds an integer literal term.
pub fn num(i: i32) -> (r: Rc<Ast>)
    ensures
        *r == Ast::Int(i),
{
    Rc::new(Ast::Int(i))
}

/// Builds a de Bruijn variable term.
pub fn var(i: usize) -> (r: Rc<Ast>)
    ensures
        *r == Ast::Var(i),
{
    Rc::new(Ast::Var(i))
}

/// Builds a lambda abstraction.
pub fn lam(ast: Rc<Ast>) -> (r: Rc<Ast>)
    ensures
        *r == Ast::Lam(ast),
{
    Rc::new(Ast::Lam(ast))
}

/// Builds an application.
pub fn app(ast1: Rc<Ast>, ast2: Rc<Ast>) -> (r: Rc<Ast>)
    ensures
        *r == Ast::App(ast1, ast2),
{
    Rc::new(Ast::App(ast1, ast2))
}

/// Builds a quotation.
pub fn quo(ast: Rc<Ast>) -> (r: Rc<Ast>)
    ensures
        *r == Ast::Quo(ast),
{
    Rc::new(Ast::Quo(ast))
}

/// Builds an unquotation.
pub fn unq(ast: Rc<Ast>) -> (r: Rc<Ast>)
    ensures
        *r == Ast::Unq(ast),
{
    Rc::new(Ast::Unq(ast))
}

} // verus!
