use compiler_learning::arith::ast;
use compiler_learning::arith::ast::Ast;
use compiler_learning::arith::eval::eval;

#[test]
fn ast_make_literal() {
    assert_eq!(*ast::num(1), Ast::Int(1));
}

#[test]
fn make_add() {
    assert_eq!(*ast::add(ast::num(1), ast::num(2)), Ast::Add(ast::num(1), ast::num(2)));
}

#[test]
fn make_mul() {
    assert_eq!(*ast::mul(ast::num(1), ast::num(2)), Ast::Mul(ast::num(1), ast::num(2)));
}

#[test]
fn main_eval_literal() {
    assert_eq!(eval(&*ast::num(1)), 1);
    assert_eq!(eval(&*ast::num(10)), 10);
    assert_eq!(eval(&*ast::num(-999)), -999);
}

#[test]
fn eval_eval_literal() {
    assert_eq!(eval(&*ast::num(1)), 1);
    assert_eq!(eval(&*ast::num(10)), 10);
    assert_eq!(eval(&*ast::num(-999)), -999);
}

#[test]
fn main_eval_add() {
    assert_eq!(eval(&*ast::add(ast::num(1), ast::num(2))), 3);
    assert_eq!(eval(&*ast::add(ast::num(0), ast::add(ast::num(2), ast::num(3)))), 5);
    assert_eq!(eval(&*ast::add(ast::add(ast::num(2), ast::num(3)), ast::num(-10))), -5);
}

#[test]
fn eval_eval_add() {
    assert_eq!(eval(&*ast::add(ast::num(1), ast::num(2))), 3);
    assert_eq!(eval(&*ast::add(ast::num(0), ast::add(ast::num(2), ast::num(3)))), 5);
    assert_eq!(eval(&*ast::add(ast::add(ast::num(2), ast::num(3)), ast::num(-10))), -5);
}

#[test]
fn main_eval_mul() {
    assert_eq!(eval(&*ast::mul(ast::num(1), ast::num(2))), 2);
    assert_eq!(eval(&*ast::mul(ast::num(2), ast::add(ast::num(2), ast::num(3)))), 10);
    assert_eq!(eval(&*ast::mul(ast::mul(ast::num(2), ast::num(3)), ast::num(0))), 0);
}

#[test]
fn eval_eval_mul() {
    assert_eq!(eval(&*ast::mul(ast::num(1), ast::num(2))), 2);
    assert_eq!(eval(&*ast::mul(ast::num(2), ast::add(ast::num(2), ast::num(3)))), 10);
    assert_eq!(eval(&*ast::mul(ast::mul(ast::num(2), ast::num(3)), ast::num(0))), 0);
}

#[test]
fn eval_random_things() {
    assert_eq!(eval(&*ast::add(ast::num(2), ast::num(3))), 5);
    assert_eq!(eval(&*ast::mul(ast::num(2), ast::num(3))), 6);
    assert_eq!(eval(&*ast::mul(ast::add(ast::num(10), ast::num(2)), ast::num(3))), 36);
}

#[test]
fn eval_deep_nesting() {
    let e = ast::mul(ast::num(10), ast::add(ast::num(1), ast::num(5)));
    assert_eq!(eval(&*e), 60);
    let e2 = ast::add(ast::mul(ast::num(-4), ast::num(7)), ast::mul(ast::num(4), ast::num(7)));
    assert_eq!(eval(&*e2), 0);
}
