//! The staged (multi-level) call-by-value lambda calculus: terms are compiled
//! to a linear instruction sequence and executed by an abstract machine over
//! (instructions, stage level, environment, continuation).

pub mod ast;
pub mod data;
pub mod env;
pub mod eval;
pub mod instr;
pub mod instrseq;
pub mod laws;
pub mod semantics;
pub mod val;
