use vstd::prelude::*;

verus! {

/// Abstract syntax of the arithmetic language.
#[derive(PartialEq, Eq, Debug)]
pub enum Ast {
    Int(i32),
    Add(Box<Ast>, Box<Ast>),
    Mul(Box<Ast>, Box<Ast>),
}

/// Builds a literal.
pub fn num(i: i32) -> (r: Box<Ast>)
    ensures
        *r == Ast::Int(i),
{
    Box::new(Ast::Int(i))
}

/// Builds a sum.
pub fn add(e1: Box<Ast>, e2: Box<Ast>) -> (r: Box<Ast>)
    ensures
        *r == Ast::Add(e1, e2),
{
    Box::new(Ast::Add(e1, e2))
}

/// Builds a product.
pub fn mul(e1: Box<Ast>, e2: Box<Ast>) -> (r: Box<Ast>)
    ensures
        *r == Ast::Mul(e1, e2),
{
    Box::new(Ast::Mul(e1, e2))
}

} // verus!
