use vstd::prelude::*;
use crate::lamcirc::data::{Ast, Cont, Env, ErrTag, Instr, InstrSeq, Val};
use crate::lamcirc::env::lookup_spec;
use crate::lamcirc::instrseq::singleton_spec;

verus! {

use std::rc::Rc;

/// What a fuel-bounded machine run comes to: a final value, fuel exhausted
/// before an answer (which is also how a level counter past `i32::MAX` is
/// reported), or the machine stuck on dispatching an empty instruction
/// sequence. The last is a defect of the code given to the machine, never of
/// a compiled term; `laws` proves it unreachable for well-formed inputs.
#[derive(PartialEq, Eq, Debug)]
pub enum Outcome {
    Done(Val),
    OutOfFuel,
    Stuck,
}

/// The compilation table: one instruction per term constructor. `App`
/// compiles to `Push` of the function code followed by the argument code;
/// `Quo` and `Unq` compile to `Ent` and `Leave` followed by the body code.
pub open spec fn compile_spec(t: Ast) -> InstrSeq
    decreases t,
{
    match t {
        Ast::Int(i) => singleton_spec(Instr::Lit(i)),
        Ast::Var(idx) => singleton_spec(Instr::Var(idx)),
        Ast::Lam(body) => singleton_spec(Instr::Clos(Rc::new(compile_spec(*body)))),
        Ast::App(func, arg) => InstrSeq::Cons(
            Instr::Push(Rc::new(compile_spec(*func))),
            Rc::new(compile_spec(*arg)),
        ),
        Ast::Quo(code) => InstrSeq::Cons(Instr::Ent, Rc::new(compile_spec(*code))),
        Ast::Unq(code) => InstrSeq::Cons(Instr::Leave, Rc::new(compile_spec(*code))),
    }
}

/// One step of the machine on an instruction sequence at stage `lev`, burning
/// one unit of fuel per machine step. At level zero instructions compute; at
/// any level above zero they rebuild themselves as residual code.
pub open spec fn run_spec(fuel: nat, instrs: InstrSeq, lev: int, env: Env, cont: Cont) -> Outcome
    decreases fuel,
{
    if fuel == 0 {
        Outcome::OutOfFuel
    } else {
        let f = (fuel - 1) as nat;
        match instrs {
            InstrSeq::End => Outcome::Stuck,
            InstrSeq::Cons(instr, rest) => match instr {
                Instr::Lit(i) => if lev == 0 {
                    apply_cont_spec(f, cont, Val::Int(i))
                } else {
                    apply_cont_spec(f, cont, Val::Fut(Rc::new(singleton_spec(Instr::Lit(i)))))
                },
                Instr::Var(idx) => if lev == 0 {
                    match lookup_spec(env, idx as nat) {
                        Some(v) => apply_cont_spec(f, cont, v),
                        None => Outcome::Done(Val::Error(ErrTag::UndefinedVariable)),
                    }
                } else {
                    apply_cont_spec(f, cont, Val::Fut(Rc::new(singleton_spec(Instr::Var(idx)))))
                },
                Instr::Clos(body) => if lev == 0 {
                    apply_cont_spec(f, cont, Val::Clos(Rc::new(env), body))
                } else {
                    run_spec(f, *body, lev, env, Cont::FutLam(Box::new(cont)))
                },
                Instr::Push(func) => if lev == 0 {
                    run_spec(f, *func, 0, env, Cont::EvalArg(rest, Rc::new(env), Box::new(cont)))
                } else {
                    run_spec(
                        f,
                        *func,
                        lev,
                        env,
                        Cont::FutAppArg(lev as i32, rest, Rc::new(env), Box::new(cont)),
                    )
                },
                Instr::Ent => if lev == 0 {
                    run_spec(f, *rest, 1, env, Cont::ToQuo(Box::new(cont)))
                } else if lev == i32::MAX as int {
                    Outcome::OutOfFuel
                } else {
                    run_spec(f, *rest, lev + 1, env, Cont::FutQuo(Box::new(cont)))
                },
                Instr::Leave => if lev == 0 {
                    Outcome::Done(Val::Error(ErrTag::TopLevelUnquote))
                } else if lev == 1 {
                    run_spec(f, *rest, 0, env, Cont::RedQuo(Box::new(cont)))
                } else if lev == i32::MIN as int {
                    Outcome::OutOfFuel
                } else {
                    run_spec(f, *rest, lev - 1, env, Cont::FutUnq(Box::new(cont)))
                },
            },
        }
    }
}

/// The second half of each machine step: hands a produced value to the
/// topmost continuation frame. A frame that receives a value of the wrong
/// shape yields the corresponding error as the machine's final answer.
pub open spec fn apply_cont_spec(fuel: nat, cont: Cont, v: Val) -> Outcome
    decreases fuel,
{
    if fuel == 0 {
        Outcome::OutOfFuel
    } else {
        let f = (fuel - 1) as nat;
        match cont {
            Cont::End => Outcome::Done(v),
            Cont::EvalArg(arg, env, rest) => match v {
                Val::Clos(cenv, body) => run_spec(
                    f,
                    *arg,
                    0,
                    *env,
                    Cont::ReduceFunc(body, cenv, rest),
                ),
                _ => Outcome::Done(Val::Error(ErrTag::ExpectedClosure)),
            },
            Cont::ReduceFunc(body, cenv, rest) => run_spec(
                f,
                *body,
                0,
                Env::Cons(Rc::new(v), cenv),
                *rest,
            ),
            Cont::ToQuo(rest) => match v {
                Val::Fut(code) => apply_cont_spec(f, *rest, Val::Quo(code)),
                _ => Outcome::Done(Val::Error(ErrTag::ExpectedFuture)),
            },
            Cont::RedQuo(rest) => match v {
                Val::Quo(code) => apply_cont_spec(f, *rest, Val::Fut(code)),
                _ => Outcome::Done(Val::Error(ErrTag::ExpectedQuote)),
            },
            Cont::FutLam(rest) => match v {
                Val::Fut(code) => apply_cont_spec(
                    f,
                    *rest,
                    Val::Fut(Rc::new(singleton_spec(Instr::Clos(code)))),
                ),
                _ => Outcome::Done(Val::Error(ErrTag::ExpectedFuture)),
            },
            Cont::FutAppArg(lev, arg, env, rest) => match v {
                Val::Fut(funcnorm) => run_spec(
                    f,
                    *arg,
                    lev as int,
                    *env,
                    Cont::FutApp(funcnorm, rest),
                ),
                _ => Outcome::Done(Val::Error(ErrTag::ExpectedFuture)),
            },
            Cont::FutApp(funcnorm, rest) => match v {
                Val::Fut(argnorm) => apply_cont_spec(
                    f,
                    *rest,
                    Val::Fut(Rc::new(InstrSeq::Cons(Instr::Push(funcnorm), argnorm))),
                ),
                _ => Outcome::Done(Val::Error(ErrTag::ExpectedFuture)),
            },
            Cont::FutQuo(rest) => match v {
                Val::Fut(code) => apply_cont_spec(
                    f,
                    *rest,
                    Val::Fut(Rc::new(InstrSeq::Cons(Instr::Ent, code))),
                ),
                _ => Outcome::Done(Val::Error(ErrTag::ExpectedFuture)),
            },
            Cont::FutUnq(rest) => match v {
                Val::Fut(code) => apply_cont_spec(
                    f,
                    *rest,
                    Val::Fut(Rc::new(InstrSeq::Cons(Instr::Leave, code))),
                ),
                _ => Outcome::Done(Val::Error(ErrTag::ExpectedFuture)),
            },
        }
    }
}

} // verus!
