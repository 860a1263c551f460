use vstd::prelude::*;
use crate::lamcirc::data::{Instr, InstrSeq};

verus! {

use std::rc::Rc;

/// A sequence of exactly one instruction.
pub open spec fn singleton_spec(instr: Instr) -> InstrSeq {
    InstrSeq::Cons(instr, Rc::new(InstrSeq::End))
}

/// The empty instruction sequence.
pub fn end() -> (r: Rc<InstrSeq>)
    ensures
        *r == InstrSeq::End,
{
    Rc::new(InstrSeq::End)
}

/// Prepends `instr` to `rest`.
pub fn seq(instr: Instr, rest: Rc<InstrSeq>) -> (r: Rc<InstrSeq>)
    ensures
        *r == InstrSeq::Cons(instr, rest),
{
    Rc::new(InstrSeq::Cons(instr, rest))
}

/// The sequence holding `instr` alone.
pub fn singleton(instr: Instr) -> (r: Rc<InstrSeq>)
    ensures
        *r == singleton_spec(instr),
{
    Rc::new(InstrSeq::Cons(instr, Rc::new(InstrSeq::End)))
}

} // verus!
