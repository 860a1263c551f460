use vstd::prelude::*;
use crate::stlc::ast::Ast;
use crate::stlc::env::{lookup, lookup_spec, Env};
use crate::stlc::val::Val;

verus! {

use std::rc::Rc;

/// The machine's reified continuation: finished, about to evaluate an
/// application's argument, or about to enter a closure body.
#[derive(PartialEq, Eq, Debug)]
pub enum Cont {
    Cont0,
    EvalArg(Rc<Ast>, Rc<Env<Val>>, Box<Cont>),
    EvalClos(Rc<Ast>, Rc<Env<Val>>, Box<Cont>),
}

/// One machine step on a term, burning one unit of fuel per step; `None` when
/// the fuel runs out before a final value.
pub open spec fn eval_spec(fuel: nat, ast: Ast, env: Env<Val>, cont: Cont) -> Option<Val>
    decreases fuel,
{
    if fuel == 0 {
        None
    } else {
        let f = (fuel - 1) as nat;
        match ast {
            Ast::Int(i) => apply_cont_spec(f, cont, Val::Int(i)),
            Ast::Var(idx) => match lookup_spec(env, idx as nat) {
                Some(v) => apply_cont_spec(f, cont, v),
                None => Some(Val::Error),
            },
            Ast::Lam(body) => apply_cont_spec(f, cont, Val::Clos(Rc::new(env), body)),
            Ast::App(func, arg) => eval_spec(
                f,
                *func,
                env,
                Cont::EvalArg(arg, Rc::new(env), Box::new(cont)),
            ),
        }
    }
}

/// The value-consuming half of each machine step. A frame that receives a
/// value of the wrong shape yields the error value as the final answer.
pub open spec fn apply_cont_spec(fuel: nat, cont: Cont, v: Val) -> Option<Val>
    decreases fuel,
{
    if fuel == 0 {
        None
    } else {
        let f = (fuel - 1) as nat;
        match cont {
            Cont::Cont0 => Some(v),
            Cont::EvalArg(arg, env, rest) => match v {
                Val::Clos(cenv, body) => eval_spec(
                    f,
                    *arg,
                    *env,
                    Cont::EvalClos(body, cenv, rest),
                ),
                _ => Some(Val::Error),
            },
            Cont::EvalClos(body, cenv, rest) => eval_spec(
                f,
                *body,
                Env::Cons(Rc::new(v), cenv),
                *rest,
            ),
        }
    }
}

/// A machine configuration: about to evaluate a term, or about to hand a
/// value to the continuation.
enum Step {
    Run(Rc<Ast>, Rc<Env<Val>>, Cont),
    Apply(Cont, Rc<Val>),
}

/// What a configuration comes to with `fuel` machine steps left.
spec fn step_eval(fuel: nat, st: Step) -> Option<Val> {
    match st {
        Step::Run(ast, env, cont) => eval_spec(fuel, *ast, *env, cont),
        Step::Apply(cont, v) => apply_cont_spec(fuel, cont, *v),
    }
}

/// What one machine step yields: a next configuration or a final value.
enum StepOutcome {
    Next(Step),
    Fin(Rc<Val>),
}

/// Performs one machine step, mirroring one unfolding of the specification.
fn step(st: Step) -> (r: StepOutcome)
    ensures
        (match r {
            StepOutcome::Next(st2) => forall|f: nat|
                step_eval(f + 1, st) == #[trigger] step_eval(f, st2),
            StepOutcome::Fin(v) => forall|f: nat|
                f >= 1 ==> #[trigger] step_eval(f, st) == Some(*v),
        }),
{
    match st {
        Step::Run(ast, env, cont) => match &*ast {
            Ast::Int(i) => StepOutcome::Next(Step::Apply(cont, Rc::new(Val::Int(*i)))),
            Ast::Var(idx) => match lookup(env, *idx) {
                Some(v) => StepOutcome::Next(Step::Apply(cont, v)),
                None => StepOutcome::Fin(Rc::new(Val::Error)),
            },
            Ast::Lam(body) => StepOutcome::Next(Step::Apply(
                cont,
                Rc::new(Val::Clos(env, body.clone())),
            )),
            Ast::App(func, arg) => StepOutcome::Next(Step::Run(
                func.clone(),
                env.clone(),
                Cont::EvalArg(arg.clone(), env, Box::new(cont)),
            )),
        },
        Step::Apply(cont, v) => match cont {
            Cont::Cont0 => StepOutcome::Fin(v),
            Cont::EvalArg(arg, env, rest) => match &*v {
                Val::Clos(cenv, body) => StepOutcome::Next(Step::Run(
                    arg,
                    env,
                    Cont::EvalClos(body.clone(), cenv.clone(), rest),
                )),
                _ => StepOutcome::Fin(Rc::new(Val::Error)),
            },
            Cont::EvalClos(body, cenv, rest) => StepOutcome::Next(Step::Run(
                body,
                Rc::new(Env::Cons(v, cenv)),
                *rest,
            )),
        },
    }
}

/// Evaluates a term under an environment and continuation, taking at most
/// `fuel` machine steps. Returns exactly what the specification semantics
/// yields with that much fuel: `Some(v)` when it reaches the final value `v`,
/// `None` when the fuel runs out first.
pub fn eval(ast: Rc<Ast>, env: Rc<Env<Val>>, cont: Cont, fuel: u64) -> (r: Option<Rc<Val>>)
    ensures
        (match r {
            Some(v) => eval_spec(fuel as nat, *ast, *env, cont) == Some(*v),
            None => eval_spec(fuel as nat, *ast, *env, cont) is None,
        }),
{
    let mut st = Step::Run(ast, env, cont);
    let ghost st0: Step = st;
    let mut gas: u64 = fuel;
    loop
        invariant
            gas <= fuel,
            step_eval(fuel as nat, st0) == eval_spec(fuel as nat, *ast, *env, cont),
            forall|f: nat| #[trigger]
                step_eval(f, st) == step_eval(f + (fuel - gas) as nat, st0),
        decreases gas,
    {
        if gas == 0 {
            assert(step_eval(0, st) == step_eval(fuel as nat, st0));
            return None;
        }
        let ghost old_st = st;
        let ghost old_gas = gas;
        gas = gas - 1;
        match step(st) {
            StepOutcome::Next(st2) => {
                proof {
                    assert forall|f: nat|
                        step_eval(f, st2) == step_eval(f + (fuel - gas) as nat, st0) by {
                        assert(step_eval(f + 1, old_st) == step_eval(f, st2));
                        assert(step_eval(f + 1, old_st) == step_eval(
                            (f + 1) + (fuel - old_gas) as nat,
                            st0,
                        ));
                    }
                }
                st = st2;
            },
            StepOutcome::Fin(v) => {
                proof {
                    assert(step_eval(old_gas as nat, old_st) == Some(*v));
                }
                return Some(v);
            },
        }
    }
}

} // verus!
