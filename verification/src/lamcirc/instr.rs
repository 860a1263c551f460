use vstd::prelude::*;
use crate::lamcirc::data::{Instr, InstrSeq};

verus! {

use std::rc::Rc;

/// The literal instruction.
pub fn lit(i: i32) -> (r: Instr)
    ensures
        r == Instr::Lit(i),
{
    Instr::Lit(i)
}

/// The variable-access instruction.
pub fn var(idx: usize) -> (r: Instr)
    ensures
        r == Instr::Var(idx),
{
    Instr::Var(idx)
}

/// The closure-building instruction, carrying the compiled body.
pub fn clos(body: Rc<InstrSeq>) -> (r: Instr)
    ensures
        r == Instr::Clos(body),
{
    Instr::Clos(body)
}

/// The application instruction, carrying the compiled function position.
pub fn push(func: Rc<InstrSeq>) -> (r: Instr)
    ensures
        r == Instr::Push(func),
{
    Instr::Push(func)
}

/// The enter-quotation instruction.
pub fn ent() -> (r: Instr)
    ensures
        r == Instr::Ent,
{
    Instr::Ent
}

/// The leave-quotation (splice) instruction.
pub fn leave() -> (r: Instr)
    ensures
        r == Instr::Leave,
{
    Instr::Leave
}

} // verus!
