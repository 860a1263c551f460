use vstd::prelude::*;

verus! {

use std::rc::Rc;

/// Surface syntax of the unstaged lambda calculus. Variables are de Bruijn
/// indices counting enclosing `Lam` binders.
#[derive(PartialEq, Eq, Debug)]
pub enum Ast {
    Int(i32),
    Var(usize),
    Lam(Rc<Ast>),
    App(Rc<Ast>, Rc<Ast>),
}

/// Builds an integer literal term.
pub fn num(i: i32) -> (r: Rc<Ast>)
    ensures
        *r == Ast::Int(i),
{
    Rc::new(Ast::Int(i))
}

/// Builds a de Bruijn variable term.
pub fn var(i: usize) -> (r: Rc<Ast>)
    ensures
        *r == Ast::Var(i),
{
    Rc::new(Ast::Var(i))
}

/// Builds a lambda abstraction.
pub fn lam(a: Rc<Ast>) -> (r: Rc<Ast>)
    ensures
        *r == Ast::Lam(a),
{
    Rc::new(Ast::Lam(a))
}

/// Builds an application.
pub fn app(a1: Rc<Ast>, a2: Rc<Ast>) -> (r: Rc<Ast>)
    ensures
        *r == Ast::App(a1, a2),
{
    Rc::new(Ast::App(a1, a2))
}

} // verus!
