use vstd::prelude::*;
use crate::lamcirc::data::{Ast, Cont, Env, ErrTag, Instr, InstrSeq, Val};
use crate::lamcirc::env::{lookup, lookup_spec};
use crate::lamcirc::semantics::{apply_cont_spec, compile_spec, run_spec, Outcome};

verus! {

use std::rc::Rc;

/// Compiles a term into its instruction sequence, following the table of
/// `compile_spec` exactly.
pub fn compile(ast: Rc<Ast>) -> (r: Rc<InstrSeq>)
    ensures
        *r == compile_spec(*ast),
    decreases *ast,
{
    match &*ast {
        Ast::Int(i) => Rc::new(InstrSeq::Cons(Instr::Lit(*i), Rc::new(InstrSeq::End))),
        Ast::Var(idx) => Rc::new(InstrSeq::Cons(Instr::Var(*idx), Rc::new(InstrSeq::End))),
        Ast::Lam(body) => Rc::new(InstrSeq::Cons(
            Instr::Clos(compile(body.clone())),
            Rc::new(InstrSeq::End),
        )),
        Ast::App(func, arg) => Rc::new(InstrSeq::Cons(
            Instr::Push(compile(func.clone())),
            compile(arg.clone()),
        )),
        Ast::Quo(code) => Rc::new(InstrSeq::Cons(Instr::Ent, compile(code.clone()))),
        Ast::Unq(code) => Rc::new(InstrSeq::Cons(Instr::Leave, compile(code.clone()))),
    }
}

/// A machine configuration: either about to run an instruction sequence at a
/// stage level, or about to hand a produced value to the continuation.
enum Step {
    Run(Rc<InstrSeq>, i32, Rc<Env>, Box<Cont>),
    Apply(Box<Cont>, Rc<Val>),
}

/// What a configuration comes to with `fuel` machine steps left.
spec fn step_eval(fuel: nat, st: Step) -> Outcome {
    match st {
        Step::Run(instrs, lev, env, cont) => run_spec(fuel, *instrs, lev as int, *env, *cont),
        Step::Apply(cont, v) => apply_cont_spec(fuel, *cont, *v),
    }
}

/// What one machine step yields: a next configuration, a final value, the
/// stuck dispatch of an empty instruction sequence, or a level counter at the
/// end of its range (reported like fuel exhaustion).
enum StepOutcome {
    Next(Step),
    Fin(Rc<Val>),
    Dead,
    Spent,
}

/// Performs one machine step, mirroring one unfolding of the specification.
fn step(st: Step) -> (r: StepOutcome)
    ensures
        (match r {
            StepOutcome::Next(st2) => forall|f: nat|
                step_eval(f + 1, st) == #[trigger] step_eval(f, st2),
            StepOutcome::Fin(v) => forall|f: nat|
                f >= 1 ==> #[trigger] step_eval(f, st) == Outcome::Done(*v),
            StepOutcome::Dead => forall|f: nat|
                f >= 1 ==> #[trigger] step_eval(f, st) == Outcome::Stuck,
            StepOutcome::Spent => forall|f: nat|
                f >= 1 ==> #[trigger] step_eval(f, st) == Outcome::OutOfFuel,
        }),
{
    match st {
        Step::Run(instrs, lev, env, cont) => match &*instrs {
            InstrSeq::End => StepOutcome::Dead,
            InstrSeq::Cons(instr, rest) => match instr {
                Instr::Lit(i) => {
                    let v = if lev == 0 {
                        Rc::new(Val::Int(*i))
                    } else {
                        Rc::new(Val::Fut(Rc::new(InstrSeq::Cons(
                            Instr::Lit(*i),
                            Rc::new(InstrSeq::End),
                        ))))
                    };
                    StepOutcome::Next(Step::Apply(cont, v))
                },
                Instr::Var(idx) => {
                    if lev == 0 {
                        match lookup(env.clone(), *idx) {
                            Some(v) => StepOutcome::Next(Step::Apply(cont, v)),
                            None => StepOutcome::Fin(Rc::new(Val::Error(
                                ErrTag::UndefinedVariable,
                            ))),
                        }
                    } else {
                        StepOutcome::Next(Step::Apply(
                            cont,
                            Rc::new(Val::Fut(Rc::new(InstrSeq::Cons(
                                Instr::Var(*idx),
                                Rc::new(InstrSeq::End),
                            )))),
                        ))
                    }
                },
                Instr::Clos(body) => {
                    if lev == 0 {
                        StepOutcome::Next(Step::Apply(
                            cont,
                            Rc::new(Val::Clos(env.clone(), body.clone())),
                        ))
                    } else {
                        StepOutcome::Next(Step::Run(
                            body.clone(),
                            lev,
                            env,
                            Box::new(Cont::FutLam(cont)),
                        ))
                    }
                },
                Instr::Push(func) => {
                    if lev == 0 {
                        StepOutcome::Next(Step::Run(
                            func.clone(),
                            0,
                            env.clone(),
                            Box::new(Cont::EvalArg(rest.clone(), env, cont)),
                        ))
                    } else {
                        StepOutcome::Next(Step::Run(
                            func.clone(),
                            lev,
                            env.clone(),
                            Box::new(Cont::FutAppArg(lev, rest.clone(), env, cont)),
                        ))
                    }
                },
                Instr::Ent => {
                    if lev == 0 {
                        StepOutcome::Next(Step::Run(
                            rest.clone(),
                            1,
                            env,
                            Box::new(Cont::ToQuo(cont)),
                        ))
                    } else if lev == i32::MAX {
                        StepOutcome::Spent
                    } else {
                        StepOutcome::Next(Step::Run(
                            rest.clone(),
                            lev + 1,
                            env,
                            Box::new(Cont::FutQuo(cont)),
                        ))
                    }
                },
                Instr::Leave => {
                    if lev == 0 {
                        StepOutcome::Fin(Rc::new(Val::Error(ErrTag::TopLevelUnquote)))
                    } else if lev == 1 {
                        StepOutcome::Next(Step::Run(
                            rest.clone(),
                            0,
                            env,
                            Box::new(Cont::RedQuo(cont)),
                        ))
                    } else if lev == i32::MIN {
                        StepOutcome::Spent
                    } else {
                        StepOutcome::Next(Step::Run(
                            rest.clone(),
                            lev - 1,
                            env,
                            Box::new(Cont::FutUnq(cont)),
                        ))
                    }
                },
            },
        },
        Step::Apply(cont, v) => match *cont {
            Cont::End => StepOutcome::Fin(v),
            Cont::EvalArg(arg, env, rest) => match &*v {
                Val::Clos(cenv, body) => StepOutcome::Next(Step::Run(
                    arg,
                    0,
                    env,
                    Box::new(Cont::ReduceFunc(body.clone(), cenv.clone(), rest)),
                )),
                _ => StepOutcome::Fin(Rc::new(Val::Error(ErrTag::ExpectedClosure))),
            },
            Cont::ReduceFunc(body, cenv, rest) => StepOutcome::Next(Step::Run(
                body,
                0,
                Rc::new(Env::Cons(v, cenv)),
                rest,
            )),
            Cont::ToQuo(rest) => match &*v {
                Val::Fut(code) => StepOutcome::Next(Step::Apply(
                    rest,
                    Rc::new(Val::Quo(code.clone())),
                )),
                _ => StepOutcome::Fin(Rc::new(Val::Error(ErrTag::ExpectedFuture))),
            },
            Cont::RedQuo(rest) => match &*v {
                Val::Quo(code) => StepOutcome::Next(Step::Apply(
                    rest,
                    Rc::new(Val::Fut(code.clone())),
                )),
                _ => StepOutcome::Fin(Rc::new(Val::Error(ErrTag::ExpectedQuote))),
            },
            Cont::FutLam(rest) => match &*v {
                Val::Fut(code) => StepOutcome::Next(Step::Apply(
                    rest,
                    Rc::new(Val::Fut(Rc::new(InstrSeq::Cons(
                        Instr::Clos(code.clone()),
                        Rc::new(InstrSeq::End),
                    )))),
                )),
                _ => StepOutcome::Fin(Rc::new(Val::Error(ErrTag::ExpectedFuture))),
            },
            Cont::FutAppArg(lev, arg, env, rest) => match &*v {
                Val::Fut(funcnorm) => StepOutcome::Next(Step::Run(
                    arg,
                    lev,
                    env,
                    Box::new(Cont::FutApp(funcnorm.clone(), rest)),
                )),
                _ => StepOutcome::Fin(Rc::new(Val::Error(ErrTag::ExpectedFuture))),
            },
            Cont::FutApp(funcnorm, rest) => match &*v {
                Val::Fut(argnorm) => StepOutcome::Next(Step::Apply(
                    rest,
                    Rc::new(Val::Fut(Rc::new(InstrSeq::Cons(
                        Instr::Push(funcnorm),
                        argnorm.clone(),
                    )))),
                )),
                _ => StepOutcome::Fin(Rc::new(Val::Error(ErrTag::ExpectedFuture))),
            },
            Cont::FutQuo(rest) => match &*v {
                Val::Fut(code) => StepOutcome::Next(Step::Apply(
                    rest,
                    Rc::new(Val::Fut(Rc::new(InstrSeq::Cons(Instr::Ent, code.clone())))),
                )),
                _ => StepOutcome::Fin(Rc::new(Val::Error(ErrTag::ExpectedFuture))),
            },
            Cont::FutUnq(rest) => match &*v {
                Val::Fut(code) => StepOutcome::Next(Step::Apply(
                    rest,
                    Rc::new(Val::Fut(Rc::new(InstrSeq::Cons(Instr::Leave, code.clone())))),
                )),
                _ => StepOutcome::Fin(Rc::new(Val::Error(ErrTag::ExpectedFuture))),
            },
        },
    }
}

/// Runs an instruction sequence at stage `lev` under `cont`, taking at most
/// `fuel` machine steps. Returns exactly what the specification semantics
/// yields with that much fuel: `Some(v)` when it reaches the final value `v`,
/// `None` when the fuel runs out first or the machine would get stuck on an
/// empty instruction sequence.
pub fn run(instrs: Rc<InstrSeq>, lev: i32, env: Rc<Env>, cont: Box<Cont>, fuel: u64) -> (r: Option<
    Rc<Val>,
>)
    requires
        lev >= 0,
    ensures
        (match r {
            Some(v) => run_spec(fuel as nat, *instrs, lev as int, *env, *cont) == Outcome::Done(
                *v,
            ),
            None => !(run_spec(fuel as nat, *instrs, lev as int, *env, *cont) is Done),
        }),
{
    let mut st = Step::Run(instrs, lev, env, cont);
    let ghost st0: Step = st;
    let mut gas: u64 = fuel;
    loop
        invariant
            gas <= fuel,
            step_eval(fuel as nat, st0) == run_spec(
                fuel as nat,
                *instrs,
                lev as int,
                *env,
                *cont,
            ),
            forall|f: nat| #[trigger]
                step_eval(f, st) == step_eval(f + (fuel - gas) as nat, st0),
        decreases gas,
    {
        if gas == 0 {
            assert(step_eval(0, st) == step_eval(fuel as nat, st0));
            return None;
        }
        let ghost old_st = st;
        let ghost old_gas = gas;
        gas = gas - 1;
        match step(st) {
            StepOutcome::Next(st2) => {
                proof {
                    assert forall|f: nat|
                        step_eval(f, st2) == step_eval(f + (fuel - gas) as nat, st0) by {
                        assert(step_eval(f + 1, old_st) == step_eval(f, st2));
                        assert(step_eval(f + 1, old_st) == step_eval(
                            (f + 1) + (fuel - old_gas) as nat,
                            st0,
                        ));
                    }
                }
                st = st2;
            },
            StepOutcome::Fin(v) => {
                proof {
                    assert(step_eval(old_gas as nat, old_st) == Outcome::Done(*v));
                }
                return Some(v);
            },
            StepOutcome::Dead => {
                proof {
                    assert(step_eval(old_gas as nat, old_st) == Outcome::Stuck);
                }
                return None;
            },
            StepOutcome::Spent => {
                proof {
                    assert(step_eval(old_gas as nat, old_st) == Outcome::OutOfFuel);
                }
                return None;
            },
        }
    }
}

} // verus!
