use vstd::prelude::*;
use crate::lamcirc::data::{Ast, Cont, Env, Instr, InstrSeq, Val};
use crate::lamcirc::env::lookup_spec;
use crate::lamcirc::semantics::{apply_cont_spec, compile_spec, run_spec, Outcome};

verus! {

use std::rc::Rc;

/// Spec-level equality, named so that it can serve as a quantifier trigger.
spec fn equal_to<T>(a: T, b: T) -> bool {
    a == b
}

/// Yields a ghost duplicate of any value; proof code may not move a value out
/// of a shared `Rc` node, but it may freely conjure an equal ghost copy.
proof fn dup<T>(x: &T) -> (r: T)
    ensures
        r == *x,
{
    assert(equal_to(*x, *x));
    choose|r: T| #[trigger] equal_to(r, *x)
}

// ---------------------------------------------------------------------------
// Compilation is injective.
// ---------------------------------------------------------------------------

/// Two terms compile to the same instruction sequence exactly when they are
/// the same term: compilation loses nothing.
pub proof fn lemma_compile_injective(t1: Ast, t2: Ast)
    ensures
        compile_spec(t1) == compile_spec(t2) <==> t1 == t2,
    decreases t1,
{
    if compile_spec(t1) == compile_spec(t2) {
        match (t1, t2) {
            (Ast::Lam(b1), Ast::Lam(b2)) => {
                let d_b1 = dup(&*b1);
                let d_b2 = dup(&*b2);
                lemma_compile_injective(d_b1, d_b2);
            },
            (Ast::App(f1, a1), Ast::App(f2, a2)) => {
                let d_f1 = dup(&*f1);
                let d_f2 = dup(&*f2);
                lemma_compile_injective(d_f1, d_f2);
                let d_a1 = dup(&*a1);
                let d_a2 = dup(&*a2);
                lemma_compile_injective(d_a1, d_a2);
            },
            (Ast::Quo(c1), Ast::Quo(c2)) => {
                let d_c1 = dup(&*c1);
                let d_c2 = dup(&*c2);
                lemma_compile_injective(d_c1, d_c2);
            },
            (Ast::Unq(c1), Ast::Unq(c2)) => {
                let d_c1 = dup(&*c1);
                let d_c2 = dup(&*c2);
                lemma_compile_injective(d_c1, d_c2);
            },
            _ => {},
        }
    }
}

// ---------------------------------------------------------------------------
// Well-formed inputs never strand the machine on an empty sequence.
// ---------------------------------------------------------------------------

/// An instruction sequence the machine can dispatch: it starts with an
/// instruction, every nested block does too, and the tail is again
/// dispatchable wherever the machine will run it (after `Push`, `Ent` and
/// `Leave`; the tail after `Lit`, `Var` and `Clos` is never consulted).
/// Every compiled term satisfies this.
pub open spec fn seq_wf(s: InstrSeq) -> bool
    decreases s,
{
    match s {
        InstrSeq::End => false,
        InstrSeq::Cons(instr, rest) => match instr {
            Instr::Lit(_) => true,
            Instr::Var(_) => true,
            Instr::Clos(body) => seq_wf(*body),
            Instr::Push(func) => seq_wf(*func) && seq_wf(*rest),
            Instr::Ent => seq_wf(*rest),
            Instr::Leave => seq_wf(*rest),
        },
    }
}

/// A value whose every embedded code block is dispatchable.
pub open spec fn val_wf(v: Val) -> bool
    decreases v,
{
    match v {
        Val::Error(_) => true,
        Val::Int(_) => true,
        Val::Clos(env, body) => env_wf(*env) && seq_wf(*body),
        Val::Quo(code) => seq_wf(*code),
        Val::Fut(code) => seq_wf(*code),
    }
}

/// An environment all of whose values are well-formed.
pub open spec fn env_wf(e: Env) -> bool
    decreases e,
{
    match e {
        Env::Nil => true,
        Env::Cons(head, tail) => val_wf(*head) && env_wf(*tail),
    }
}

/// A continuation all of whose stored code blocks and environments are
/// well-formed.
pub open spec fn cont_wf(c: Cont) -> bool
    decreases c,
{
    match c {
        Cont::End => true,
        Cont::EvalArg(arg, env, rest) => seq_wf(*arg) && env_wf(*env) && cont_wf(*rest),
        Cont::ReduceFunc(body, env, rest) => seq_wf(*body) && env_wf(*env) && cont_wf(*rest),
        Cont::ToQuo(rest) => cont_wf(*rest),
        Cont::RedQuo(rest) => cont_wf(*rest),
        Cont::FutLam(rest) => cont_wf(*rest),
        Cont::FutAppArg(_, arg, env, rest) => seq_wf(*arg) && env_wf(*env) && cont_wf(*rest),
        Cont::FutApp(funcnorm, rest) => seq_wf(*funcnorm) && cont_wf(*rest),
        Cont::FutQuo(rest) => cont_wf(*rest),
        Cont::FutUnq(rest) => cont_wf(*rest),
    }
}

/// Compiled code is always dispatchable.
pub proof fn lemma_compile_wf(t: Ast)
    ensures
        seq_wf(compile_spec(t)),
    decreases t,
{
    match t {
        Ast::Int(_) => {},
        Ast::Var(_) => {},
        Ast::Lam(body) => {
            let d_body = dup(&*body);
            lemma_compile_wf(d_body);
        },
        Ast::App(func, arg) => {
            let d_func = dup(&*func);
            lemma_compile_wf(d_func);
            let d_arg = dup(&*arg);
            lemma_compile_wf(d_arg);
        },
        Ast::Quo(code) => {
            let d_code = dup(&*code);
            lemma_compile_wf(d_code);
        },
        Ast::Unq(code) => {
            let d_code = dup(&*code);
            lemma_compile_wf(d_code);
        },
    }
}

/// Looking a value up in a well-formed environment yields a well-formed
/// value.
proof fn lemma_lookup_wf(e: Env, idx: nat)
    requires
        env_wf(e),
    ensures
        lookup_spec(e, idx) matches Some(v) ==> val_wf(v),
    decreases e,
{
    match e {
        Env::Nil => {},
        Env::Cons(_, tail) => {
            if idx > 0 {
                let d_tail = dup(&*tail);
                lemma_lookup_wf(d_tail, (idx - 1) as nat);
            }
        },
    }
}

/// On well-formed inputs the machine never reaches the end of an instruction
/// sequence unexpectedly: the one host-level defect is impossible, and any
/// final value is itself well-formed.
pub proof fn lemma_run_no_stuck(fuel: nat, instrs: InstrSeq, lev: int, env: Env, cont: Cont)
    requires
        seq_wf(instrs),
        env_wf(env),
        cont_wf(cont),
    ensures
        run_spec(fuel, instrs, lev, env, cont) != Outcome::Stuck,
        run_spec(fuel, instrs, lev, env, cont) matches Outcome::Done(v) ==> val_wf(v),
    decreases fuel,
{
    if fuel > 0 {
        let f = (fuel - 1) as nat;
        match instrs {
            InstrSeq::End => {},
            InstrSeq::Cons(instr, rest) => match instr {
                Instr::Lit(i) => {
                    if lev == 0 {
                        lemma_apply_no_stuck(f, cont, Val::Int(i));
                    } else {
                        lemma_apply_no_stuck(
                            f,
                            cont,
                            Val::Fut(Rc::new(InstrSeq::Cons(Instr::Lit(i), Rc::new(InstrSeq::End)))),
                        );
                    }
                },
                Instr::Var(idx) => {
                    if lev == 0 {
                        lemma_lookup_wf(env, idx as nat);
                        match lookup_spec(env, idx as nat) {
                            Some(v) => {
                                lemma_apply_no_stuck(f, cont, v);
                            },
                            None => {},
                        }
                    } else {
                        lemma_apply_no_stuck(
                            f,
                            cont,
                            Val::Fut(Rc::new(InstrSeq::Cons(Instr::Var(idx), Rc::new(InstrSeq::End)))),
                        );
                    }
                },
                Instr::Clos(body) => {
                    if lev == 0 {
                        lemma_apply_no_stuck(f, cont, Val::Clos(Rc::new(env), body));
                    } else {
                        let d_body = dup(&*body);
                        lemma_run_no_stuck(f, d_body, lev, env, Cont::FutLam(Box::new(cont)));
                    }
                },
                Instr::Push(func) => {
                    if lev == 0 {
                        let g_env = dup(&env);
                        let d_func = dup(&*func);
                        lemma_run_no_stuck(
                            f,
                            d_func,
                            0,
                            env,
                            Cont::EvalArg(rest, Rc::new(g_env), Box::new(cont)),
                        );
                    } else {
                        let g_env = dup(&env);
                        let d_func = dup(&*func);
                        lemma_run_no_stuck(
                            f,
                            d_func,
                            lev,
                            env,
                            Cont::FutAppArg(lev as i32, rest, Rc::new(g_env), Box::new(cont)),
                        );
                    }
                },
                Instr::Ent => {
                    if lev == 0 {
                        let d_rest = dup(&*rest);
                        lemma_run_no_stuck(f, d_rest, 1, env, Cont::ToQuo(Box::new(cont)));
                    } else if lev != i32::MAX as int {
                        let d_rest = dup(&*rest);
                        lemma_run_no_stuck(f, d_rest, lev + 1, env, Cont::FutQuo(Box::new(cont)));
                    }
                },
                Instr::Leave => {
                    if lev == 1 {
                        let d_rest = dup(&*rest);
                        lemma_run_no_stuck(f, d_rest, 0, env, Cont::RedQuo(Box::new(cont)));
                    } else if lev != 0 && lev != i32::MIN as int {
                        let d_rest = dup(&*rest);
                        lemma_run_no_stuck(f, d_rest, lev - 1, env, Cont::FutUnq(Box::new(cont)));
                    }
                },
            },
        }
    }
}

/// Companion to `lemma_run_no_stuck` for the value-consuming half of the
/// machine.
pub proof fn lemma_apply_no_stuck(fuel: nat, cont: Cont, v: Val)
    requires
        cont_wf(cont),
        val_wf(v),
    ensures
        apply_cont_spec(fuel, cont, v) != Outcome::Stuck,
        apply_cont_spec(fuel, cont, v) matches Outcome::Done(r) ==> val_wf(r),
    decreases fuel,
{
    if fuel > 0 {
        let f = (fuel - 1) as nat;
        match cont {
            Cont::End => {},
            Cont::EvalArg(arg, env, rest) => match v {
                Val::Clos(cenv, body) => {
                    let d_arg = dup(&*arg);
                    let d_env = dup(&*env);
                    lemma_run_no_stuck(f, d_arg, 0, d_env, Cont::ReduceFunc(body, cenv, rest));
                },
                _ => {},
            },
            Cont::ReduceFunc(body, cenv, rest) => {
                let d_body = dup(&*body);
                lemma_run_no_stuck(f, d_body, 0, Env::Cons(Rc::new(v), cenv), *rest);
            },
            Cont::ToQuo(rest) => match v {
                Val::Fut(code) => {
                    lemma_apply_no_stuck(f, *rest, Val::Quo(code));
                },
                _ => {},
            },
            Cont::RedQuo(rest) => match v {
                Val::Quo(code) => {
                    lemma_apply_no_stuck(f, *rest, Val::Fut(code));
                },
                _ => {},
            },
            Cont::FutLam(rest) => match v {
                Val::Fut(code) => {
                    lemma_apply_no_stuck(
                        f,
                        *rest,
                        Val::Fut(Rc::new(InstrSeq::Cons(
                            Instr::Clos(code),
                            Rc::new(InstrSeq::End),
                        ))),
                    );
                },
                _ => {},
            },
            Cont::FutAppArg(lev, arg, env, rest) => match v {
                Val::Fut(funcnorm) => {
                    let d_arg = dup(&*arg);
                    let d_env = dup(&*env);
                    lemma_run_no_stuck(f, d_arg, lev as int, d_env, Cont::FutApp(funcnorm, rest));
                },
                _ => {},
            },
            Cont::FutApp(funcnorm, rest) => match v {
                Val::Fut(argnorm) => {
                    lemma_apply_no_stuck(
                        f,
                        *rest,
                        Val::Fut(Rc::new(InstrSeq::Cons(Instr::Push(funcnorm), argnorm))),
                    );
                },
                _ => {},
            },
            Cont::FutQuo(rest) => match v {
                Val::Fut(code) => {
                    lemma_apply_no_stuck(
                        f,
                        *rest,
                        Val::Fut(Rc::new(InstrSeq::Cons(Instr::Ent, code))),
                    );
                },
                _ => {},
            },
            Cont::FutUnq(rest) => match v {
                Val::Fut(code) => {
                    lemma_apply_no_stuck(
                        f,
                        *rest,
                        Val::Fut(Rc::new(InstrSeq::Cons(Instr::Leave, code))),
                    );
                },
                _ => {},
            },
        }
    }
}

} // verus!

verus! {

// ---------------------------------------------------------------------------
// The stage-level invariant: above level zero the machine only ever produces
// residual `Fut` fragments; at level zero it never does.
// ---------------------------------------------------------------------------

/// A value legitimate at stage zero: never a residual fragment, and any
/// captured environment consists of stage-zero values again.
pub open spec fn val_stage0(v: Val) -> bool
    decreases v,
{
    match v {
        Val::Error(_) => true,
        Val::Int(_) => true,
        Val::Clos(env, _) => env_stage0(*env),
        Val::Quo(_) => true,
        Val::Fut(_) => false,
    }
}

/// An environment all of whose values are stage-zero values. Lookups happen
/// only at stage zero, so a well-staged machine never binds a residual.
pub open spec fn env_stage0(e: Env) -> bool
    decreases e,
{
    match e {
        Env::Nil => true,
        Env::Cons(head, tail) => val_stage0(*head) && env_stage0(*tail),
    }
}

/// The value shape a continuation frame at incoming stage `lin` consumes:
/// a stage-zero value at stage zero, a residual fragment above.
pub open spec fn val_at(lin: int, v: Val) -> bool {
    if lin == 0 {
        val_stage0(v)
    } else {
        v is Fut
    }
}

/// Whether a continuation is staged consistently when it consumes a value
/// produced at stage `lin`: each frame expects the stage its creation site
/// hands it, and every stored environment holds stage-zero values.
pub open spec fn cont_staged(c: Cont, lin: int) -> bool
    decreases c,
{
    match c {
        Cont::End => true,
        Cont::EvalArg(_, env, rest) => lin == 0 && env_stage0(*env) && cont_staged(*rest, 0),
        Cont::ReduceFunc(_, env, rest) => lin == 0 && env_stage0(*env) && cont_staged(*rest, 0),
        Cont::ToQuo(rest) => lin == 1 && cont_staged(*rest, 0),
        Cont::RedQuo(rest) => lin == 0 && cont_staged(*rest, 1),
        Cont::FutLam(rest) => lin >= 1 && cont_staged(*rest, lin),
        Cont::FutAppArg(l, _, env, rest) => lin >= 1 && l as int == lin && env_stage0(*env)
            && cont_staged(*rest, lin),
        Cont::FutApp(_, rest) => lin >= 1 && cont_staged(*rest, lin),
        Cont::FutQuo(rest) => lin >= 2 && cont_staged(*rest, lin - 1),
        Cont::FutUnq(rest) => lin >= 1 && cont_staged(*rest, lin + 1),
    }
}

/// The stage at which the machine's final answer is produced, given the
/// continuation and the stage of the value it first consumes.
pub open spec fn out_stage(c: Cont, lin: int) -> int
    decreases c,
{
    match c {
        Cont::End => lin,
        Cont::EvalArg(_, _, rest) => out_stage(*rest, 0),
        Cont::ReduceFunc(_, _, rest) => out_stage(*rest, 0),
        Cont::ToQuo(rest) => out_stage(*rest, 0),
        Cont::RedQuo(rest) => out_stage(*rest, 1),
        Cont::FutLam(rest) => out_stage(*rest, lin),
        Cont::FutAppArg(l, _, _, rest) => out_stage(*rest, l as int),
        Cont::FutApp(_, rest) => out_stage(*rest, lin),
        Cont::FutQuo(rest) => out_stage(*rest, lin - 1),
        Cont::FutUnq(rest) => out_stage(*rest, lin + 1),
    }
}

/// The shape a final answer produced at stage `lout` may have: never a
/// residual at stage zero; only a residual, or an error cutting the run
/// short, above stage zero.
pub open spec fn result_staged(v: Val, lout: int) -> bool {
    if lout == 0 {
        !(v is Fut)
    } else {
        v is Fut || v is Error
    }
}

/// Looking a value up in a stage-zero environment yields a stage-zero value.
proof fn lemma_lookup_stage0(e: Env, idx: nat)
    requires
        env_stage0(e),
    ensures
        lookup_spec(e, idx) matches Some(v) ==> val_stage0(v),
    decreases e,
{
    match e {
        Env::Nil => {},
        Env::Cons(_, tail) => {
            if idx > 0 {
                let d = dup(&*tail);
                lemma_lookup_stage0(d, (idx - 1) as nat);
            }
        },
    }
}

/// The staging invariant of the running machine: on a stage-zero environment
/// and a consistently staged continuation, a final answer has the shape of
/// its output stage.
pub proof fn lemma_run_staged(fuel: nat, instrs: InstrSeq, lev: int, env: Env, cont: Cont)
    requires
        0 <= lev <= i32::MAX,
        env_stage0(env),
        cont_staged(cont, lev),
    ensures
        run_spec(fuel, instrs, lev, env, cont) matches Outcome::Done(v) ==> result_staged(
            v,
            out_stage(cont, lev),
        ),
    decreases fuel,
{
    if fuel > 0 {
        let f = (fuel - 1) as nat;
        match instrs {
            InstrSeq::End => {},
            InstrSeq::Cons(instr, rest) => match instr {
                Instr::Lit(i) => {
                    if lev == 0 {
                        lemma_apply_staged(f, cont, Val::Int(i), 0);
                    } else {
                        lemma_apply_staged(
                            f,
                            cont,
                            Val::Fut(Rc::new(InstrSeq::Cons(Instr::Lit(i), Rc::new(InstrSeq::End)))),
                            lev,
                        );
                    }
                },
                Instr::Var(idx) => {
                    if lev == 0 {
                        lemma_lookup_stage0(env, idx as nat);
                        match lookup_spec(env, idx as nat) {
                            Some(v) => {
                                lemma_apply_staged(f, cont, v, 0);
                            },
                            None => {},
                        }
                    } else {
                        lemma_apply_staged(
                            f,
                            cont,
                            Val::Fut(Rc::new(InstrSeq::Cons(Instr::Var(idx), Rc::new(InstrSeq::End)))),
                            lev,
                        );
                    }
                },
                Instr::Clos(body) => {
                    if lev == 0 {
                        lemma_apply_staged(f, cont, Val::Clos(Rc::new(env), body), 0);
                    } else {
                        let d = dup(&*body);
                        lemma_run_staged(f, d, lev, env, Cont::FutLam(Box::new(cont)));
                    }
                },
                Instr::Push(func) => {
                    if lev == 0 {
                        let g_env = dup(&env);
                        let d = dup(&*func);
                        lemma_run_staged(
                            f,
                            d,
                            0,
                            env,
                            Cont::EvalArg(rest, Rc::new(g_env), Box::new(cont)),
                        );
                    } else {
                        let g_env = dup(&env);
                        let d = dup(&*func);
                        lemma_run_staged(
                            f,
                            d,
                            lev,
                            env,
                            Cont::FutAppArg(lev as i32, rest, Rc::new(g_env), Box::new(cont)),
                        );
                    }
                },
                Instr::Ent => {
                    if lev == 0 {
                        let d = dup(&*rest);
                        lemma_run_staged(f, d, 1, env, Cont::ToQuo(Box::new(cont)));
                    } else if lev != i32::MAX as int {
                        let d = dup(&*rest);
                        lemma_run_staged(f, d, lev + 1, env, Cont::FutQuo(Box::new(cont)));
                    }
                },
                Instr::Leave => {
                    if lev == 1 {
                        let d = dup(&*rest);
                        lemma_run_staged(f, d, 0, env, Cont::RedQuo(Box::new(cont)));
                    } else if lev != 0 {
                        let d = dup(&*rest);
                        lemma_run_staged(f, d, lev - 1, env, Cont::FutUnq(Box::new(cont)));
                    }
                },
            },
        }
    }
}

/// Companion to `lemma_run_staged` for the value-consuming half of the
/// machine: the consumed value has the shape of its stage, and the final
/// answer that of the output stage.
pub proof fn lemma_apply_staged(fuel: nat, cont: Cont, v: Val, lin: int)
    requires
        0 <= lin,
        cont_staged(cont, lin),
        val_at(lin, v),
    ensures
        apply_cont_spec(fuel, cont, v) matches Outcome::Done(r) ==> result_staged(
            r,
            out_stage(cont, lin),
        ),
    decreases fuel,
{
    if fuel > 0 {
        let f = (fuel - 1) as nat;
        match cont {
            Cont::End => {},
            Cont::EvalArg(arg, env, rest) => match v {
                Val::Clos(cenv, body) => {
                    let d_arg = dup(&*arg);
                    let d_env = dup(&*env);
                    lemma_run_staged(f, d_arg, 0, d_env, Cont::ReduceFunc(body, cenv, rest));
                },
                _ => {},
            },
            Cont::ReduceFunc(body, cenv, rest) => {
                let d_body = dup(&*body);
                let d_rest = dup(&*rest);
                lemma_run_staged(f, d_body, 0, Env::Cons(Rc::new(v), cenv), d_rest);
            },
            Cont::ToQuo(rest) => match v {
                Val::Fut(code) => {
                    let d = dup(&*rest);
                    lemma_apply_staged(f, d, Val::Quo(code), 0);
                },
                _ => {},
            },
            Cont::RedQuo(rest) => match v {
                Val::Quo(code) => {
                    let d = dup(&*rest);
                    lemma_apply_staged(f, d, Val::Fut(code), 1);
                },
                _ => {},
            },
            Cont::FutLam(rest) => match v {
                Val::Fut(code) => {
                    let d = dup(&*rest);
                    lemma_apply_staged(
                        f,
                        d,
                        Val::Fut(Rc::new(InstrSeq::Cons(
                            Instr::Clos(code),
                            Rc::new(InstrSeq::End),
                        ))),
                        lin,
                    );
                },
                _ => {},
            },
            Cont::FutAppArg(l, arg, env, rest) => match v {
                Val::Fut(funcnorm) => {
                    let d_arg = dup(&*arg);
                    let d_env = dup(&*env);
                    lemma_run_staged(f, d_arg, l as int, d_env, Cont::FutApp(funcnorm, rest));
                },
                _ => {},
            },
            Cont::FutApp(funcnorm, rest) => match v {
                Val::Fut(argnorm) => {
                    let d = dup(&*rest);
                    lemma_apply_staged(
                        f,
                        d,
                        Val::Fut(Rc::new(InstrSeq::Cons(Instr::Push(funcnorm), argnorm))),
                        lin,
                    );
                },
                _ => {},
            },
            Cont::FutQuo(rest) => match v {
                Val::Fut(code) => {
                    let d = dup(&*rest);
                    lemma_apply_staged(
                        f,
                        d,
                        Val::Fut(Rc::new(InstrSeq::Cons(Instr::Ent, code))),
                        lin - 1,
                    );
                },
                _ => {},
            },
            Cont::FutUnq(rest) => match v {
                Val::Fut(code) => {
                    let d = dup(&*rest);
                    lemma_apply_staged(
                        f,
                        d,
                        Val::Fut(Rc::new(InstrSeq::Cons(Instr::Leave, code))),
                        lin + 1,
                    );
                },
                _ => {},
            },
        }
    }
}

/// The staging invariant at the machine's public entry: run at stage zero
/// under the terminal continuation, the answer is never a residual `Fut`;
/// run above stage zero, it is a residual whenever it is not an error.
pub proof fn lemma_run_stage_classification(fuel: nat, instrs: InstrSeq, lev: int, env: Env)
    requires
        0 <= lev <= i32::MAX,
        env_stage0(env),
    ensures
        run_spec(fuel, instrs, lev, env, Cont::End) matches Outcome::Done(v) ==> {
            &&& lev == 0 ==> !(v is Fut)
            &&& lev >= 1 ==> (v is Fut || v is Error)
        },
{
    lemma_run_staged(fuel, instrs, lev, env, Cont::End);
}

} // verus!

verus! {

// ---------------------------------------------------------------------------
// The quotation round trip: above stage zero an unquotation-free term
// rebuilds exactly its own compiled code, so quoting a term and splicing the
// quotation back yield the same quoted program as quoting it directly. A
// later run of either quoted program is therefore one and the same run.
// ---------------------------------------------------------------------------

/// A term with no unquotation anywhere.
pub open spec fn unq_free(t: Ast) -> bool
    decreases t,
{
    match t {
        Ast::Int(_) => true,
        Ast::Var(_) => true,
        Ast::Lam(body) => unq_free(*body),
        Ast::App(func, arg) => unq_free(*func) && unq_free(*arg),
        Ast::Quo(code) => unq_free(*code),
        Ast::Unq(_) => false,
    }
}

/// How deeply quotations nest in a term: the amount by which the stage level
/// may climb while the term is evaluated.
pub open spec fn qdepth(t: Ast) -> nat
    decreases t,
{
    match t {
        Ast::Int(_) => 0,
        Ast::Var(_) => 0,
        Ast::Lam(body) => qdepth(*body),
        Ast::App(func, arg) => if qdepth(*func) >= qdepth(*arg) {
            qdepth(*func)
        } else {
            qdepth(*arg)
        },
        Ast::Quo(code) => qdepth(*code) + 1,
        Ast::Unq(code) => qdepth(*code),
    }
}

/// How many machine steps evaluating an unquotation-free term above stage
/// zero takes before its residual is handed to the continuation.
pub open spec fn residual_steps(t: Ast) -> nat
    decreases t,
{
    match t {
        Ast::Int(_) => 1,
        Ast::Var(_) => 1,
        Ast::Lam(body) => residual_steps(*body) + 2,
        Ast::App(func, arg) => residual_steps(*func) + residual_steps(*arg) + 3,
        Ast::Quo(code) => residual_steps(*code) + 2,
        Ast::Unq(code) => residual_steps(*code),
    }
}

/// Above stage zero, an unquotation-free term evaluates to precisely its own
/// compiled code as residual: whatever the continuation then does with that
/// residual, the whole run does with `residual_steps(t)` more fuel.
pub proof fn lemma_stage_identity(t: Ast, lev: int, env: Env, cont: Cont, f2: nat, r: Val)
    requires
        unq_free(t),
        1 <= lev,
        lev + qdepth(t) <= i32::MAX,
        apply_cont_spec(f2, cont, Val::Fut(Rc::new(compile_spec(t)))) == Outcome::Done(r),
    ensures
        run_spec(f2 + residual_steps(t), compile_spec(t), lev, env, cont) == Outcome::Done(r),
    decreases t,
{
    match t {
        Ast::Int(_) => {},
        Ast::Var(_) => {},
        Ast::Lam(body) => {
            let d_body = dup(&*body);
            let d_env = dup(&env);
            let d_cont = dup(&cont);
            let c2 = Cont::FutLam(Box::new(d_cont));
            assert(apply_cont_spec(f2 + 1, c2, Val::Fut(Rc::new(compile_spec(*body))))
                == apply_cont_spec(f2, cont, Val::Fut(Rc::new(compile_spec(t)))));
            lemma_stage_identity(d_body, lev, d_env, c2, f2 + 1, r);
        },
        Ast::App(func, arg) => {
            let d_func0 = dup(&*func);
            let d_arg0 = dup(&*arg);
            let cf = Rc::new(compile_spec(d_func0));
            let ca = Rc::new(compile_spec(d_arg0));
            let d_cf = dup(&cf);
            let d_cont = dup(&cont);
            let c_app = Cont::FutApp(d_cf, Box::new(d_cont));
            assert(apply_cont_spec(f2 + 1, c_app, Val::Fut(ca))
                == apply_cont_spec(f2, cont, Val::Fut(Rc::new(compile_spec(t)))));
            let d_arg = dup(&*arg);
            let d_env = dup(&env);
            let d_c_app = dup(&c_app);
            lemma_stage_identity(d_arg, lev, d_env, d_c_app, f2 + 1, r);
            let d_arg1 = dup(&*arg);
            let fa = f2 + 1 + residual_steps(d_arg1);
            let d_ca = dup(&ca);
            let d_env1 = dup(&env);
            let d_cont1 = dup(&cont);
            let c_apparg = Cont::FutAppArg(
                lev as i32,
                d_ca,
                Rc::new(d_env1),
                Box::new(d_cont1),
            );
            assert(apply_cont_spec(fa + 1, c_apparg, Val::Fut(cf))
                == run_spec(fa, compile_spec(*arg), lev, env, c_app));
            let d_func = dup(&*func);
            let d_env2 = dup(&env);
            let d_c_apparg = dup(&c_apparg);
            lemma_stage_identity(d_func, lev, d_env2, d_c_apparg, fa + 1, r);
            assert(run_spec(f2 + residual_steps(t), compile_spec(t), lev, env, cont)
                == run_spec(
                fa + 1 + residual_steps(*func),
                compile_spec(*func),
                lev,
                env,
                c_apparg,
            ));
        },
        Ast::Quo(code) => {
            let d_code = dup(&*code);
            let d_env = dup(&env);
            let d_cont = dup(&cont);
            let c2 = Cont::FutQuo(Box::new(d_cont));
            assert(apply_cont_spec(f2 + 1, c2, Val::Fut(Rc::new(compile_spec(*code))))
                == apply_cont_spec(f2, cont, Val::Fut(Rc::new(compile_spec(t)))));
            lemma_stage_identity(d_code, lev + 1, d_env, c2, f2 + 1, r);
        },
        Ast::Unq(_) => {},
    }
}

/// Quoting an unquotation-free term yields, at stage zero, exactly the
/// quoted program holding its compiled code.
pub proof fn lemma_quote_round_trip(t: Ast, env: Env)
    requires
        unq_free(t),
        qdepth(t) + 1 <= i32::MAX,
    ensures
        run_spec(
            residual_steps(t) + 3,
            compile_spec(Ast::Quo(Rc::new(t))),
            0,
            env,
            Cont::End,
        ) == Outcome::Done(Val::Quo(Rc::new(compile_spec(t)))),
{
    reveal_with_fuel(run_spec, 3);
    reveal_with_fuel(apply_cont_spec, 3);
    reveal_with_fuel(compile_spec, 3);
    let ct = Rc::new(compile_spec(t));
    let d_ct = dup(&ct);
    let quoted = Val::Quo(d_ct);
    let c1 = Cont::ToQuo(Box::new(Cont::End));
    assert(apply_cont_spec(2, c1, Val::Fut(ct)) == Outcome::Done(quoted));
    let d_t = dup(&t);
    let d_env = dup(&env);
    let d_c1 = dup(&c1);
    let d_quoted = dup(&quoted);
    lemma_stage_identity(d_t, 1, d_env, d_c1, 2, d_quoted);
    assert(run_spec(residual_steps(t) + 3, compile_spec(Ast::Quo(Rc::new(t))), 0, env, Cont::End)
        == run_spec(residual_steps(t) + 2, compile_spec(t), 1, env, c1));
}

/// Splicing a quotation straight back into a quotation is transparent: the
/// quote-then-splice round trip produces the very same quoted program as
/// quoting directly, so a later run of the round-tripped program is a run of
/// the directly quoted one, with the same result and classification.
pub proof fn lemma_splice_round_trip(t: Ast, env: Env)
    requires
        unq_free(t),
        qdepth(t) + 1 <= i32::MAX,
    ensures
        run_spec(
            residual_steps(t) + 7,
            compile_spec(Ast::Quo(Rc::new(Ast::Unq(Rc::new(Ast::Quo(Rc::new(t))))))),
            0,
            env,
            Cont::End,
        ) == Outcome::Done(Val::Quo(Rc::new(compile_spec(t)))),
{
    reveal_with_fuel(run_spec, 5);
    reveal_with_fuel(apply_cont_spec, 6);
    reveal_with_fuel(compile_spec, 5);
    let ct = Rc::new(compile_spec(t));
    let d_ct = dup(&ct);
    let quoted = Val::Quo(d_ct);
    let c3 = Cont::ToQuo(Box::new(Cont::RedQuo(Box::new(Cont::ToQuo(Box::new(Cont::End))))));
    assert(apply_cont_spec(4, c3, Val::Fut(ct)) == Outcome::Done(quoted));
    let d_t = dup(&t);
    let d_env = dup(&env);
    let d_c3 = dup(&c3);
    let d_quoted = dup(&quoted);
    lemma_stage_identity(d_t, 1, d_env, d_c3, 4, d_quoted);
    let d_t2 = dup(&t);
    let w = Ast::Quo(Rc::new(Ast::Unq(Rc::new(Ast::Quo(Rc::new(d_t2))))));
    assert(run_spec(residual_steps(t) + 7, compile_spec(w), 0, env, Cont::End) == run_spec(
        residual_steps(t) + 4,
        compile_spec(t),
        1,
        env,
        c3,
    ));
}


/// The two quotations — direct, and round-tripped through a splice — come to
/// one and the same quoted program. A later run of that program is therefore
/// literally a run of `compile_spec(t)` in both cases, so its result, and in
/// particular its classification as integer, closure or error, cannot depend
/// on the round trip.
pub proof fn lemma_round_trip_same_program(t: Ast, env: Env)
    requires
        unq_free(t),
        qdepth(t) + 1 <= i32::MAX,
    ensures
        run_spec(
            residual_steps(t) + 3,
            compile_spec(Ast::Quo(Rc::new(t))),
            0,
            env,
            Cont::End,
        ) == run_spec(
            residual_steps(t) + 7,
            compile_spec(Ast::Quo(Rc::new(Ast::Unq(Rc::new(Ast::Quo(Rc::new(t))))))),
            0,
            env,
            Cont::End,
        ),
{
    let d_t1 = dup(&t);
    let d_env1 = dup(&env);
    lemma_quote_round_trip(d_t1, d_env1);
    let d_t2 = dup(&t);
    let d_env2 = dup(&env);
    lemma_splice_round_trip(d_t2, d_env2);
}

} // verus!

verus! {

// ---------------------------------------------------------------------------
// Fuel does not choose the answer: it only bounds how far the machine gets.
// Evaluation is a pure function of (instructions, stage level, environment,
// continuation); any two fuel budgets that suffice agree exactly.
// ---------------------------------------------------------------------------

/// Raising the fuel of a run that already came to an answer (or got stuck)
/// changes nothing about its outcome.
pub proof fn lemma_run_fuel_monotone(f1: nat, f2: nat, instrs: InstrSeq, lev: int, env: Env, cont: Cont)
    requires
        f1 <= f2,
        !(run_spec(f1, instrs, lev, env, cont) is OutOfFuel),
    ensures
        run_spec(f2, instrs, lev, env, cont) == run_spec(f1, instrs, lev, env, cont),
    decreases f1,
{
    if f1 > 0 {
        let g1 = (f1 - 1) as nat;
        let g2 = (f2 - 1) as nat;
        match instrs {
            InstrSeq::End => {},
            InstrSeq::Cons(instr, rest) => match instr {
                Instr::Lit(i) => {
                    if lev == 0 {
                        let d_cont = dup(&cont);
                        lemma_apply_fuel_monotone(g1, g2, d_cont, Val::Int(i));
                    } else {
                        let d_cont = dup(&cont);
                        lemma_apply_fuel_monotone(
                            g1,
                            g2,
                            d_cont,
                            Val::Fut(Rc::new(InstrSeq::Cons(Instr::Lit(i), Rc::new(InstrSeq::End)))),
                        );
                    }
                },
                Instr::Var(idx) => {
                    if lev == 0 {
                        match lookup_spec(env, idx as nat) {
                            Some(v) => {
                                let d_cont = dup(&cont);
                                lemma_apply_fuel_monotone(g1, g2, d_cont, v);
                            },
                            None => {},
                        }
                    } else {
                        let d_cont = dup(&cont);
                        lemma_apply_fuel_monotone(
                            g1,
                            g2,
                            d_cont,
                            Val::Fut(Rc::new(InstrSeq::Cons(Instr::Var(idx), Rc::new(InstrSeq::End)))),
                        );
                    }
                },
                Instr::Clos(body) => {
                    if lev == 0 {
                        let d_cont = dup(&cont);
                        let d_env = dup(&env);
                        lemma_apply_fuel_monotone(g1, g2, d_cont, Val::Clos(Rc::new(d_env), body));
                    } else {
                        let d_body = dup(&*body);
                        lemma_run_fuel_monotone(g1, g2, d_body, lev, env, Cont::FutLam(Box::new(cont)));
                    }
                },
                Instr::Push(func) => {
                    if lev == 0 {
                        let d_func = dup(&*func);
                        let d_env = dup(&env);
                        lemma_run_fuel_monotone(
                            g1,
                            g2,
                            d_func,
                            0,
                            env,
                            Cont::EvalArg(rest, Rc::new(d_env), Box::new(cont)),
                        );
                    } else {
                        let d_func = dup(&*func);
                        let d_env = dup(&env);
                        lemma_run_fuel_monotone(
                            g1,
                            g2,
                            d_func,
                            lev,
                            env,
                            Cont::FutAppArg(lev as i32, rest, Rc::new(d_env), Box::new(cont)),
                        );
                    }
                },
                Instr::Ent => {
                    if lev == 0 {
                        let d_rest = dup(&*rest);
                        lemma_run_fuel_monotone(g1, g2, d_rest, 1, env, Cont::ToQuo(Box::new(cont)));
                    } else if lev != i32::MAX as int {
                        let d_rest = dup(&*rest);
                        lemma_run_fuel_monotone(g1, g2, d_rest, lev + 1, env, Cont::FutQuo(Box::new(cont)));
                    }
                },
                Instr::Leave => {
                    if lev == 1 {
                        let d_rest = dup(&*rest);
                        lemma_run_fuel_monotone(g1, g2, d_rest, 0, env, Cont::RedQuo(Box::new(cont)));
                    } else if lev != 0 && lev != i32::MIN as int {
                        let d_rest = dup(&*rest);
                        lemma_run_fuel_monotone(g1, g2, d_rest, lev - 1, env, Cont::FutUnq(Box::new(cont)));
                    }
                },
            },
        }
    }
}

/// Companion to `lemma_run_fuel_monotone` for the value-consuming half of the
/// machine.
pub proof fn lemma_apply_fuel_monotone(f1: nat, f2: nat, cont: Cont, v: Val)
    requires
        f1 <= f2,
        !(apply_cont_spec(f1, cont, v) is OutOfFuel),
    ensures
        apply_cont_spec(f2, cont, v) == apply_cont_spec(f1, cont, v),
    decreases f1,
{
    if f1 > 0 {
        let g1 = (f1 - 1) as nat;
        let g2 = (f2 - 1) as nat;
        match cont {
            Cont::End => {},
            Cont::EvalArg(arg, env, rest) => match v {
                Val::Clos(cenv, body) => {
                    let d_arg = dup(&*arg);
                    let d_env = dup(&*env);
                    lemma_run_fuel_monotone(g1, g2, d_arg, 0, d_env, Cont::ReduceFunc(body, cenv, rest));
                },
                _ => {},
            },
            Cont::ReduceFunc(body, cenv, rest) => {
                let d_body = dup(&*body);
                lemma_run_fuel_monotone(g1, g2, d_body, 0, Env::Cons(Rc::new(v), cenv), *rest);
            },
            Cont::ToQuo(rest) => match v {
                Val::Fut(code) => {
                    let d_rest = dup(&*rest);
                    lemma_apply_fuel_monotone(g1, g2, d_rest, Val::Quo(code));
                },
                _ => {},
            },
            Cont::RedQuo(rest) => match v {
                Val::Quo(code) => {
                    let d_rest = dup(&*rest);
                    lemma_apply_fuel_monotone(g1, g2, d_rest, Val::Fut(code));
                },
                _ => {},
            },
            Cont::FutLam(rest) => match v {
                Val::Fut(code) => {
                    let d_rest = dup(&*rest);
                    lemma_apply_fuel_monotone(
                        g1,
                        g2,
                        d_rest,
                        Val::Fut(Rc::new(InstrSeq::Cons(Instr::Clos(code), Rc::new(InstrSeq::End)))),
                    );
                },
                _ => {},
            },
            Cont::FutAppArg(lev, arg, env, rest) => match v {
                Val::Fut(funcnorm) => {
                    let d_arg = dup(&*arg);
                    let d_env = dup(&*env);
                    lemma_run_fuel_monotone(g1, g2, d_arg, lev as int, d_env, Cont::FutApp(funcnorm, rest));
                },
                _ => {},
            },
            Cont::FutApp(funcnorm, rest) => match v {
                Val::Fut(argnorm) => {
                    let d_rest = dup(&*rest);
                    lemma_apply_fuel_monotone(
                        g1,
                        g2,
                        d_rest,
                        Val::Fut(Rc::new(InstrSeq::Cons(Instr::Push(funcnorm), argnorm))),
                    );
                },
                _ => {},
            },
            Cont::FutQuo(rest) => match v {
                Val::Fut(code) => {
                    let d_rest = dup(&*rest);
                    lemma_apply_fuel_monotone(
                        g1,
                        g2,
                        d_rest,
                        Val::Fut(Rc::new(InstrSeq::Cons(Instr::Ent, code))),
                    );
                },
                _ => {},
            },
            Cont::FutUnq(rest) => match v {
                Val::Fut(code) => {
                    let d_rest = dup(&*rest);
                    lemma_apply_fuel_monotone(
                        g1,
                        g2,
                        d_rest,
                        Val::Fut(Rc::new(InstrSeq::Cons(Instr::Leave, code))),
                    );
                },
                _ => {},
            },
        }
    }
}

/// Whatever two fuel budgets each suffice for an answer, it is the same
/// answer: the machine is deterministic, and the budget only decides whether
/// the answer is reached.
pub proof fn lemma_run_deterministic(
    f1: nat,
    f2: nat,
    instrs: InstrSeq,
    lev: int,
    env: Env,
    cont: Cont,
    v1: Val,
    v2: Val,
)
    requires
        run_spec(f1, instrs, lev, env, cont) == Outcome::Done(v1),
        run_spec(f2, instrs, lev, env, cont) == Outcome::Done(v2),
    ensures
        v1 == v2,
{
    let d_i = dup(&instrs);
    let d_e = dup(&env);
    let d_c = dup(&cont);
    if f1 <= f2 {
        lemma_run_fuel_monotone(f1, f2, d_i, lev, d_e, d_c);
    } else {
        lemma_run_fuel_monotone(f2, f1, d_i, lev, d_e, d_c);
    }
}

} // verus!
