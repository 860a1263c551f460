use std::rc::Rc;

use compiler_learning::lamcirc::ast;
use compiler_learning::lamcirc::data::{Cont, Env, ErrTag, Val};
use compiler_learning::lamcirc::env::{cons, empty, lookup};
use compiler_learning::lamcirc::eval::{compile, run};
use compiler_learning::lamcirc::instr;
use compiler_learning::lamcirc::instrseq;
use compiler_learning::lamcirc::val;

const FUEL: u64 = 1_000_000;

fn env1() -> Rc<Env> {
    cons(val::num(10), cons(val::num(20), empty()))
}

#[test]
fn eval_misc() {
    assert_eq!(
        run(compile(ast::num(1)), 0, env1(), Box::new(Cont::End), FUEL),
        Some(val::num(1)),
    );
    assert_eq!(
        run(compile(ast::var(0)), 0, env1(), Box::new(Cont::End), FUEL),
        Some(val::num(10)),
    );
    assert_eq!(
        run(compile(ast::var(1)), 0, env1(), Box::new(Cont::End), FUEL),
        Some(val::num(20)),
    );
    assert_eq!(
        run(
            compile(ast::app(
                ast::app(ast::lam(ast::lam(ast::var(1))), ast::num(33)),
                ast::num(44),
            )),
            0,
            env1(),
            Box::new(Cont::End),
            FUEL,
        ),
        Some(val::num(33)),
    );
}

#[test]
fn eval_eval_misc() {
    assert_eq!(
        run(compile(ast::num(1)), 0, env1(), Box::new(Cont::End), FUEL),
        Some(val::num(1)),
    );
    assert_eq!(
        run(compile(ast::var(0)), 0, env1(), Box::new(Cont::End), FUEL),
        Some(val::num(10)),
    );
    assert_eq!(
        run(compile(ast::var(1)), 0, env1(), Box::new(Cont::End), FUEL),
        Some(val::num(20)),
    );
    assert_eq!(
        run(
            compile(ast::app(
                ast::app(ast::lam(ast::lam(ast::var(1))), ast::num(33)),
                ast::num(44),
            )),
            0,
            env1(),
            Box::new(Cont::End),
            FUEL,
        ),
        Some(val::num(33)),
    );
}

#[test]
fn eval_staged() {
    assert_eq!(
        run(compile(ast::num(1)), 1, env1(), Box::new(Cont::End), FUEL),
        Some(val::fut(instrseq::singleton(instr::lit(1)))),
    );
    assert_eq!(
        run(compile(ast::quo(ast::num(1))), 0, env1(), Box::new(Cont::End), FUEL),
        Some(val::quo(instrseq::singleton(instr::lit(1)))),
    );
    assert_eq!(
        run(
            compile(ast::quo(ast::unq(ast::quo(ast::num(1))))),
            0,
            env1(),
            Box::new(Cont::End),
            FUEL,
        ),
        Some(val::quo(instrseq::singleton(instr::lit(1)))),
    );
    assert_eq!(
        run(
            compile(ast::quo(ast::unq(ast::quo(ast::num(1))))),
            0,
            env1(),
            Box::new(Cont::End),
            FUEL,
        ),
        Some(val::quo(instrseq::singleton(instr::lit(1)))),
    );
    assert_eq!(
        run(
            compile(ast::app(ast::lam(ast::quo(ast::unq(ast::var(0)))), ast::quo(ast::num(1)))),
            0,
            env1(),
            Box::new(Cont::End),
            FUEL,
        ),
        Some(val::quo(instrseq::singleton(instr::lit(1)))),
    );
    assert_eq!(
        run(
            compile(ast::quo(ast::lam(ast::unq(ast::quo(ast::var(0)))))),
            0,
            env1(),
            Box::new(Cont::End),
            FUEL,
        ),
        Some(val::quo(instrseq::singleton(instr::clos(instrseq::singleton(instr::var(0)))))),
    );
    assert_eq!(
        run(
            compile(ast::quo(ast::app(ast::var(0), ast::unq(ast::quo(ast::num(1)))))),
            0,
            env1(),
            Box::new(Cont::End),
            FUEL,
        ),
        Some(val::quo(instrseq::seq(
            instr::push(instrseq::singleton(instr::var(0))),
            instrseq::singleton(instr::lit(1)),
        ))),
    );
}

#[test]
fn eval_eval_staged() {
    assert_eq!(
        run(compile(ast::num(1)), 1, env1(), Box::new(Cont::End), FUEL),
        Some(val::fut(instrseq::singleton(instr::lit(1)))),
    );
    assert_eq!(
        run(compile(ast::quo(ast::num(1))), 0, env1(), Box::new(Cont::End), FUEL),
        Some(val::quo(instrseq::singleton(instr::lit(1)))),
    );
    assert_eq!(
        run(
            compile(ast::quo(ast::unq(ast::quo(ast::num(1))))),
            0,
            env1(),
            Box::new(Cont::End),
            FUEL,
        ),
        Some(val::quo(instrseq::singleton(instr::lit(1)))),
    );
}

#[test]
fn eval_nested_quotes() {
    assert_eq!(
        run(
            compile(ast::quo(ast::quo(ast::unq(ast::var(0))))),
            0,
            env1(),
            Box::new(Cont::End),
            FUEL,
        ),
        Some(val::quo(instrseq::seq(
            instr::ent(),
            instrseq::seq(instr::leave(), instrseq::singleton(instr::var(0))),
        ))),
    );
    assert_eq!(
        run(
            compile(ast::quo(ast::quo(ast::unq(ast::unq(ast::quo(ast::var(1))))))),
            0,
            env1(),
            Box::new(Cont::End),
            FUEL,
        ),
        Some(val::quo(instrseq::seq(
            instr::ent(),
            instrseq::seq(instr::leave(), instrseq::singleton(instr::var(1))),
        ))),
    );
}

#[test]
fn eval_eval_nested_quotes() {
    assert_eq!(
        run(
            compile(ast::quo(ast::quo(ast::unq(ast::var(0))))),
            0,
            env1(),
            Box::new(Cont::End),
            FUEL,
        ),
        Some(val::quo(instrseq::seq(
            instr::ent(),
            instrseq::seq(instr::leave(), instrseq::singleton(instr::var(0))),
        ))),
    );
}

#[test]
fn compile_table() {
    assert_eq!(compile(ast::num(7)), instrseq::singleton(instr::lit(7)));
    assert_eq!(compile(ast::var(2)), instrseq::singleton(instr::var(2)));
    assert_eq!(
        compile(ast::lam(ast::var(0))),
        instrseq::singleton(instr::clos(instrseq::singleton(instr::var(0)))),
    );
    assert_eq!(
        compile(ast::app(ast::var(0), ast::num(1))),
        instrseq::seq(
            instr::push(instrseq::singleton(instr::var(0))),
            instrseq::singleton(instr::lit(1)),
        ),
    );
    assert_eq!(
        compile(ast::quo(ast::num(1))),
        instrseq::seq(instr::ent(), instrseq::singleton(instr::lit(1))),
    );
    assert_eq!(
        compile(ast::unq(ast::num(1))),
        instrseq::seq(instr::leave(), instrseq::singleton(instr::lit(1))),
    );
    assert_eq!(instrseq::end(), Rc::new(compiler_learning::lamcirc::data::InstrSeq::End));
}

#[test]
fn compile_injective_samples() {
    let a = compile(ast::app(ast::num(1), ast::num(2)));
    let b = compile(ast::app(ast::num(2), ast::num(1)));
    assert_ne!(a, b);
    assert_eq!(
        compile(ast::lam(ast::var(0))),
        compile(ast::lam(ast::var(0))),
    );
    assert_ne!(compile(ast::quo(ast::num(1))), compile(ast::unq(ast::num(1))));
}

#[test]
fn error_expected_closure() {
    assert_eq!(
        run(
            compile(ast::app(ast::num(1), ast::num(2))),
            0,
            env1(),
            Box::new(Cont::End),
            FUEL,
        ),
        Some(val::error(ErrTag::ExpectedClosure)),
    );
}

#[test]
fn error_undefined_variable() {
    assert_eq!(
        run(compile(ast::var(5)), 0, env1(), Box::new(Cont::End), FUEL),
        Some(val::error(ErrTag::UndefinedVariable)),
    );
}

#[test]
fn error_top_level_unquote() {
    assert_eq!(
        run(compile(ast::unq(ast::num(1))), 0, env1(), Box::new(Cont::End), FUEL),
        Some(val::error(ErrTag::TopLevelUnquote)),
    );
}

#[test]
fn error_expected_quote() {
    assert_eq!(
        run(
            compile(ast::quo(ast::unq(ast::num(1)))),
            0,
            env1(),
            Box::new(Cont::End),
            FUEL,
        ),
        Some(val::error(ErrTag::ExpectedQuote)),
    );
}

#[test]
fn closures_at_stage_zero() {
    assert_eq!(
        run(compile(ast::lam(ast::var(0))), 0, env1(), Box::new(Cont::End), FUEL),
        Some(val::clos(env1(), instrseq::singleton(instr::var(0)))),
    );
}

#[test]
fn staged_results_are_futures() {
    let terms = [
        ast::num(5),
        ast::var(0),
        ast::lam(ast::var(0)),
        ast::app(ast::lam(ast::var(0)), ast::num(1)),
        ast::quo(ast::num(1)),
    ];
    for t in terms.iter() {
        for lev in 1..4i32 {
            let r = run(compile(t.clone()), lev, env1(), Box::new(Cont::End), FUEL).unwrap();
            assert!(matches!(&*r, Val::Fut(_)));
        }
        let r0 = run(compile(t.clone()), 0, env1(), Box::new(Cont::End), FUEL).unwrap();
        assert!(!matches!(&*r0, Val::Fut(_)));
    }
}

#[test]
fn quote_splice_round_trip_matches_direct_quote() {
    let samples = [
        ast::num(9),
        ast::lam(ast::var(0)),
        ast::app(ast::lam(ast::var(0)), ast::num(2)),
        ast::quo(ast::var(1)),
    ];
    for t in samples.iter() {
        let direct = run(
            compile(ast::quo(t.clone())),
            0,
            env1(),
            Box::new(Cont::End),
            FUEL,
        );
        let round = run(
            compile(ast::quo(ast::unq(ast::quo(t.clone())))),
            0,
            env1(),
            Box::new(Cont::End),
            FUEL,
        );
        assert_eq!(direct, round);
        assert_eq!(direct, Some(val::quo(compile(t.clone()))));
    }
}

#[test]
fn run_out_of_fuel_on_divergence() {
    let omega_half = ast::lam(ast::app(ast::var(0), ast::var(0)));
    let omega = ast::app(omega_half.clone(), omega_half);
    assert_eq!(run(compile(omega), 0, env1(), Box::new(Cont::End), 10_000), None);
}

#[test]
fn run_lookup_and_env() {
    assert_eq!(lookup(env1(), 0), Some(val::num(10)));
    assert_eq!(lookup(env1(), 1), Some(val::num(20)));
    assert_eq!(lookup(env1(), 2), None);
    assert_eq!(lookup(empty(), 0), None);
}
