use std::rc::Rc;

use compiler_learning::stlc::ast;
use compiler_learning::stlc::ast::Ast;
use compiler_learning::stlc::compiled;
use compiler_learning::stlc::env::{cons, empty};
use compiler_learning::stlc::env::Env;
use compiler_learning::stlc::eval::{eval, Cont};
use compiler_learning::stlc::val;
use compiler_learning::stlc::val::Val;

const FUEL: u64 = 1_000_000;

fn env1() -> Rc<Env<Val>> {
    cons(val::num(10), cons(val::num(20), empty()))
}

#[test]
fn make_literal() {
    assert_eq!(*ast::num(1), Ast::Int(1));
}

#[test]
fn ast_make_var() {
    assert_eq!(*ast::var(1), Ast::Var(1));
}

#[test]
fn make_var() {
    assert_eq!(*ast::var(1), Ast::Var(1));
}

#[test]
fn ast_make_lam() {
    assert_eq!(*ast::lam(ast::var(1)), Ast::Lam(ast::var(1)));
}

#[test]
fn make_lam() {
    assert_eq!(*ast::lam(ast::var(1)), Ast::Lam(ast::var(1)));
}

#[test]
fn ast_make_app() {
    assert_eq!(*ast::app(ast::lam(ast::var(0)), ast::var(2)), Ast::App(ast::lam(ast::var(0)), ast::var(2)));
}

#[test]
fn make_app() {
    assert_eq!(*ast::app(ast::lam(ast::var(0)), ast::var(2)), Ast::App(ast::lam(ast::var(0)), ast::var(2)));
}

#[test]
fn env_make_nil() {
    assert_eq!(empty::<i32>(), Rc::new(Env::Nil));
}

#[test]
fn data_make_nil() {
    assert_eq!(empty::<compiled::Val>(), Rc::new(Env::Nil));
}

#[test]
fn eval_literal() {
    assert_eq!(eval(ast::num(1), env1(), Cont::Cont0, FUEL), Some(val::num(1)));
    assert_eq!(eval(ast::var(0), env1(), Cont::Cont0, FUEL), Some(val::num(10)));
    assert_eq!(eval(ast::var(1), env1(), Cont::Cont0, FUEL), Some(val::num(20)));
    assert_eq!(
        eval(
            ast::app(
                ast::app(ast::lam(ast::lam(ast::var(1))), ast::num(33)),
                ast::num(44),
            ),
            env1(),
            Cont::Cont0,
            FUEL,
        ),
        Some(val::num(33)),
    );
}

#[test]
fn eval_defunct1() {
    assert_eq!(eval(ast::num(1), env1(), Cont::Cont0, FUEL), Some(val::num(1)));
    assert_eq!(eval(ast::var(0), env1(), Cont::Cont0, FUEL), Some(val::num(10)));
    assert_eq!(eval(ast::var(1), env1(), Cont::Cont0, FUEL), Some(val::num(20)));
    assert_eq!(
        eval(
            ast::app(
                ast::app(ast::lam(ast::lam(ast::var(1))), ast::num(33)),
                ast::num(44),
            ),
            env1(),
            Cont::Cont0,
            FUEL,
        ),
        Some(val::num(33)),
    );
}

#[test]
fn eval_undefined_variable() {
    assert_eq!(eval(ast::var(5), env1(), Cont::Cont0, FUEL), Some(val::error()));
    assert_eq!(eval(ast::var(0), empty(), Cont::Cont0, FUEL), Some(val::error()));
}

#[test]
fn eval_expects_closure() {
    assert_eq!(
        eval(ast::app(ast::num(1), ast::num(2)), env1(), Cont::Cont0, FUEL),
        Some(val::error()),
    );
}

#[test]
fn eval_out_of_fuel_on_divergence() {
    let omega_half = ast::lam(ast::app(ast::var(0), ast::var(0)));
    let omega = ast::app(omega_half.clone(), omega_half);
    assert_eq!(eval(omega, env1(), Cont::Cont0, 10_000), None);
}

#[test]
fn data_make_literal() {
    assert_eq!(*ast::num(1), Ast::Int(1));
}

#[test]
fn data_make_var() {
    assert_eq!(*ast::var(1), Ast::Var(1));
}

#[test]
fn data_make_lam() {
    assert_eq!(*ast::lam(ast::var(1)), Ast::Lam(ast::var(1)));
}

#[test]
fn data_make_app() {
    assert_eq!(*ast::app(ast::lam(ast::var(0)), ast::var(2)), Ast::App(ast::lam(ast::var(0)), ast::var(2)));
}

fn cenv1() -> Rc<Env<compiled::Val>> {
    cons(
        Rc::new(compiled::Val::Int(10)),
        cons(Rc::new(compiled::Val::Int(20)), empty()),
    )
}

#[test]
fn compiled_forms() {
    assert_eq!(*compiled::eval(ast::num(1)), compiled::Compt::Lit(1));
    assert_eq!(*compiled::eval(ast::var(3)), compiled::Compt::Access(3));
    assert_eq!(
        *compiled::eval(ast::lam(ast::var(0))),
        compiled::Compt::Close(Rc::new(compiled::Compt::Access(0))),
    );
    assert_eq!(
        *compiled::eval(ast::app(ast::lam(ast::var(0)), ast::num(7))),
        compiled::Compt::Push(
            Rc::new(compiled::Compt::Close(Rc::new(compiled::Compt::Access(0)))),
            Rc::new(compiled::Compt::Lit(7)),
        ),
    );
}

#[test]
fn eval_eval_literal_compiled() {
    assert_eq!(
        compiled::apply_compt(compiled::eval(ast::num(1)), cenv1(), compiled::Cont::Cont0, FUEL),
        Some(Rc::new(compiled::Val::Int(1))),
    );
    assert_eq!(
        compiled::apply_compt(compiled::eval(ast::var(0)), cenv1(), compiled::Cont::Cont0, FUEL),
        Some(Rc::new(compiled::Val::Int(10))),
    );
    assert_eq!(
        compiled::apply_compt(compiled::eval(ast::var(1)), cenv1(), compiled::Cont::Cont0, FUEL),
        Some(Rc::new(compiled::Val::Int(20))),
    );
    assert_eq!(
        compiled::apply_compt(
            compiled::eval(ast::app(
                ast::app(ast::lam(ast::lam(ast::var(1))), ast::num(33)),
                ast::num(44),
            )),
            cenv1(),
            compiled::Cont::Cont0,
            FUEL,
        ),
        Some(Rc::new(compiled::Val::Int(33))),
    );
}
