use vstd::prelude::*;
use crate::arith::ast::Ast;

verus! {

/// The mathematical value of an expression, over unbounded integers.
pub open spec fn eval_spec(e: Ast) -> int
    decreases e,
{
    match e {
        Ast::Int(i) => i as int,
        Ast::Add(e1, e2) => eval_spec(*e1) + eval_spec(*e2),
        Ast::Mul(e1, e2) => eval_spec(*e1) * eval_spec(*e2),
    }
}

/// Whether every subexpression of `e` evaluates within the range of `i32`,
/// so that machine evaluation neither overflows nor underflows.
pub open spec fn fits(e: Ast) -> bool
    decreases e,
{
    &&& i32::MIN <= eval_spec(e) <= i32::MAX
    &&& match e {
        Ast::Int(_) => true,
        Ast::Add(e1, e2) => fits(*e1) && fits(*e2),
        Ast::Mul(e1, e2) => fits(*e1) && fits(*e2),
    }
}

/// Evaluates an expression to its integer value.
pub fn eval(e: &Ast) -> (r: i32)
    requires
        fits(*e),
    ensures
        r as int == eval_spec(*e),
    decreases *e,
{
    match e {
        Ast::Int(i) => *i,
        Ast::Add(e1, e2) => {
            let a = eval(&**e1);
            let b = eval(&**e2);
            a + b
        },
        Ast::Mul(e1, e2) => {
            let a = eval(&**e1);
            let b = eval(&**e2);
            a * b
        },
    }
}

} // verus!
