use vstd::prelude::*;

verus! {

use std::rc::Rc;

/// Surface syntax of the staged lambda calculus. Variables are de Bruijn
/// indices counting enclosing `Lam` binders; `Quo` freezes its body as code
/// one stage up, `Unq` splices previously built code back in, one stage down.
#[derive(PartialEq, Eq, Debug)]
pub enum Ast {
    Int(i32),
    Var(usize),
    Lam(Rc<Ast>),
    App(Rc<Ast>, Rc<Ast>),
    Quo(Rc<Ast>),
    Unq(Rc<Ast>),
}

/// A linear instruction sequence: the compiled form of a term. `Clos` and
/// `Push` carry a nested sequence (a lambda body, a function position), so a
/// program is a tree of linked lists rather than a flat array.
#[derive(PartialEq, Eq, Debug)]
pub enum InstrSeq {
    End,
    Cons(Instr, Rc<InstrSeq>),
}

/// One instruction per term constructor; `Ent` and `Leave` mark quotation and
/// unquotation boundaries.
#[derive(PartialEq, Eq, Debug)]
pub enum Instr {
    Lit(i32),
    Var(usize),
    Clos(Rc<InstrSeq>),
    Push(Rc<InstrSeq>),
    Ent,
    Leave,
}

/// The tag a runtime fault carries.
#[derive(PartialEq, Eq, Debug, Clone, Copy)]
pub enum ErrTag {
    UndefinedVariable,
    ExpectedClosure,
    ExpectedQuote,
    ExpectedFuture,
    TopLevelUnquote,
}

/// Runtime results. `Quo` is a first-class, fully normalized quoted program
/// at stage zero; `Fut` is a not-yet-finalized residual fragment produced
/// while evaluating at a stage above zero.
#[derive(PartialEq, Eq, Debug)]
pub enum Val {
    Error(ErrTag),
    Int(i32),
    Clos(Rc<Env>, Rc<InstrSeq>),
    Quo(Rc<InstrSeq>),
    Fut(Rc<InstrSeq>),
}

/// A persistent runtime environment: de Bruijn index `i` maps to the `i`-th
/// cell of the chain. Extension allocates a new head node, so closures may
/// alias suffixes of one chain without interference.
#[derive(PartialEq, Eq, Debug)]
pub enum Env {
    Nil,
    Cons(Rc<Val>, Rc<Env>),
}

/// The machine's reified continuation: a tagged stack of what remains to be
/// done, one variant per suspension point of the evaluator.
#[derive(PartialEq, Eq, Debug)]
pub enum Cont {
    End,
    EvalArg(Rc<InstrSeq>, Rc<Env>, Box<Cont>),
    ReduceFunc(Rc<InstrSeq>, Rc<Env>, Box<Cont>),
    ToQuo(Box<Cont>),
    RedQuo(Box<Cont>),
    FutLam(Box<Cont>),
    FutAppArg(i32, Rc<InstrSeq>, Rc<Env>, Box<Cont>),
    FutApp(Rc<InstrSeq>, Box<Cont>),
    FutQuo(Box<Cont>),
    FutUnq(Box<Cont>),
}

} // verus!
