//! A small staged (multi-level) call-by-value lambda calculus, compiled to a
//! linear instruction sequence and executed by an abstract machine with an
//! explicit, data-reified continuation, together with two earlier, simpler
//! languages: an arithmetic expression evaluator and an unstaged lambda
//! calculus.
//!
//! Every executable function carries a contract, and the machine semantics is
//! stated as fuel-bounded specification functions that the machines are proved
//! to implement exactly.

pub mod arith;
pub mod lamcirc;
pub mod stlc;
