//! An arithmetic expression language: integer literals, addition and
//! multiplication, evaluated by structural recursion.

pub mod ast;
pub mod eval;
