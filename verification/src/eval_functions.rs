//! The tree-walking evaluator, proved against the definitional semantics.
//!
//! [`eval_expr`] reduces an expression to a value against an immutable
//! environment view; [`eval_stmt`] applies a statement as an environment
//! mutation; [`eval_cmd`] routes a command to either and normalizes the
//! result shape.  Every function's contract equates its outcome with
//! [`spec_eval_expr`] or with the statement relation [`stmt_post`].

use vstd::prelude::*;
use crate::env::{RollerEnv, funs_get, funs_map, keys_unique, roll, vars_dup, vars_get, vars_map,
    vars_set};
use crate::error::{EvalErr, ParseResult, RollerErr, Side};
use crate::semantics::{
    bind_params, spec_dice_operand, spec_eval_expr, spec_eval_exprs, spec_eval_op,
    spec_opt_operand,
};
use crate::syntax_tree::{Cmd, Expr, Ident, InfixOp, RollerFun, Stmt};
use crate::values::{NumType, RollerType, ValModel, Value, models_of, res_model};

verus! {

/// How many function calls may nest before evaluation fails with a
/// recursion-limit error.
pub const MAX_CALL_DEPTH: u64 = 64;

/// The model of an optional operand value.
pub open spec fn opt_model(o: Option<Value>) -> Option<ValModel> {
    match o {
        Some(v) => Some(v.model()),
        None => None,
    }
}

/// The environment is unchanged, as far as its mathematical shape goes.
pub open spec fn env_unchanged(pre: RollerEnv, post: RollerEnv) -> bool {
    &&& post.vars_model() == pre.vars_model()
    &&& post.funs_model() == pre.funs_model()
    &&& post.rng_state() == pre.rng_state()
}

/// What a statement does: the relation between the environment before and
/// after, and the returned result.
///
/// An assignment binds the identifier to the evaluated value, shadowing any
/// function of the same name, and advances the dice stream as far as the
/// evaluation drew from it; a failed right-hand side changes nothing.  A
/// function definition and a deletion always succeed; clearing empties both
/// tables; running or saving a file is not implemented and fails for every
/// path.
pub open spec fn stmt_post(s: Stmt, pre: RollerEnv, post: RollerEnv, r: Result<
    (),
    RollerErr,
>) -> bool {
    match s {
        Stmt::Assign(id, e) => {
            let er = spec_eval_expr(
                e,
                pre.vars_model(),
                pre.funs_model(),
                pre.rng_state(),
                MAX_CALL_DEPTH as nat,
            );
            match er.0 {
                Ok(v) => {
                    &&& r == Ok::<(), RollerErr>(())
                    &&& post.vars_model() == pre.vars_model().insert(id@, v)
                    &&& post.funs_model() == pre.funs_model().remove(id@)
                    &&& post.rng_state() == er.1
                },
                Err(err) => r == Err::<(), RollerErr>(err) && env_unchanged(pre, post),
            }
        },
        Stmt::FnDef(id, f) => {
            &&& r == Ok::<(), RollerErr>(())
            &&& post.funs_model() == pre.funs_model().insert(id@, f)
            &&& post.vars_model() == pre.vars_model().remove(id@)
            &&& post.rng_state() == pre.rng_state()
        },
        Stmt::Delete(id) => {
            &&& r == Ok::<(), RollerErr>(())
            &&& post.vars_model() == pre.vars_model().remove(id@)
            &&& post.funs_model() == pre.funs_model().remove(id@)
            &&& post.rng_state() == pre.rng_state()
        },
        Stmt::Clear => {
            &&& r == Ok::<(), RollerErr>(())
            &&& post.vars_model() == Map::<Seq<char>, ValModel>::empty()
            &&& post.funs_model() == Map::<Seq<char>, RollerFun>::empty()
            &&& post.rng_state() == pre.rng_state()
        },
        Stmt::Run(_) => r == Err::<(), RollerErr>(RollerErr::EvalError(EvalErr::Unimplemented))
            && env_unchanged(pre, post),
        Stmt::Save(_) => r == Err::<(), RollerErr>(RollerErr::EvalError(EvalErr::Unimplemented))
            && env_unchanged(pre, post),
    }
}

/// Evaluates a command and returns the value, if it was an expression, or
/// the error, if one arose; a statement that succeeds yields nothing.  The
/// three outcomes are mutually exclusive and exhaustive: nothing to report,
/// a value, or an error.
pub fn eval_cmd(input: Cmd, env: &mut RollerEnv) -> (r: Option<ParseResult<Value>>)
    requires
        old(env).wf(),
    ensures
        final(env).wf(),
        (match input {
            Cmd::Statement(s) => match r {
                None => stmt_post(s, *old(env), *final(env), Ok(())),
                Some(Err(e)) => stmt_post(s, *old(env), *final(env), Err(e)),
                Some(Ok(_)) => false,
            },
            Cmd::Expression(e) => {
                let sr = spec_eval_expr(
                    e,
                    old(env).vars_model(),
                    old(env).funs_model(),
                    old(env).rng_state(),
                    MAX_CALL_DEPTH as nat,
                );
                match r {
                    Some(Ok(v)) => {
                        &&& sr.0 == Ok::<ValModel, RollerErr>(v.model())
                        &&& final(env).vars_model() == old(env).vars_model()
                        &&& final(env).funs_model() == old(env).funs_model()
                        &&& final(env).rng_state() == sr.1
                    },
                    Some(Err(er)) => sr.0 == Err::<ValModel, RollerErr>(er) && env_unchanged(
                        *old(env),
                        *final(env),
                    ),
                    None => false,
                }
            },
        }),
{
    match input {
        Cmd::Statement(s) => match eval_stmt(s, env) {
            Ok(()) => None,
            Err(e) => Some(Err(e)),
        },
        Cmd::Expression(e) => {
            let (r0, s1) = eval_expr_fueled(&e, &env.vars, &env.funs, env.rng, MAX_CALL_DEPTH);
            match r0 {
                Ok(val) => {
                    env.rng = s1;
                    Some(Ok(val))
                },
                Err(er) => Some(Err(er)),
            }
        },
    }
}

/// Applies a statement to the environment; see [`stmt_post`] for what each
/// statement form does.
pub fn eval_stmt(input: Stmt, env: &mut RollerEnv) -> (r: ParseResult<()>)
    requires
        old(env).wf(),
    ensures
        final(env).wf(),
        stmt_post(input, *old(env), *final(env), r),
{
    match input {
        Stmt::Assign(id, exp) => {
            let (r0, s1) = eval_expr_fueled(&exp, &env.vars, &env.funs, env.rng, MAX_CALL_DEPTH);
            match r0 {
                Ok(val) => {
                    env.assign_var(&id, val);
                    env.rng = s1;
                    Ok(())
                },
                Err(er) => Err(er),
            }
        },
        Stmt::FnDef(id, fun) => {
            env.declare_function(&id, fun);
            Ok(())
        },
        Stmt::Delete(id) => {
            env.delete_id(&id);
            Ok(())
        },
        Stmt::Clear => {
            env.clear();
            Ok(())
        },
        Stmt::Run(_) => Err(RollerErr::EvalError(EvalErr::Unimplemented)),
        Stmt::Save(_) => Err(RollerErr::EvalError(EvalErr::Unimplemented)),
    }
}

/// Evaluates an expression against an immutable environment view.  The
/// result is exactly what the definitional semantics assigns to the
/// expression; the environment, the dice stream's position included, is
/// untouched.
pub fn eval_expr(input: &Expr, env: &RollerEnv) -> (r: ParseResult<Value>)
    requires
        env.wf(),
    ensures
        res_model(r) == spec_eval_expr(
            *input,
            env.vars_model(),
            env.funs_model(),
            env.rng_state(),
            MAX_CALL_DEPTH as nat,
        ).0,
{
    let (r, _state) = eval_expr_fueled(input, &env.vars, &env.funs, env.rng, MAX_CALL_DEPTH);
    r
}

/// The fueled evaluator the public entry points share: one unit of fuel is
/// one level of nested function calls.
fn eval_expr_fueled(
    e: &Expr,
    vars: &Vec<(Ident, Value)>,
    funs: &Vec<(Ident, RollerFun)>,
    state: u64,
    fuel: u64,
) -> (r: (ParseResult<Value>, u64))
    requires
        keys_unique(vars@),
        keys_unique(funs@),
    ensures
        ({
            let sr = spec_eval_expr(*e, vars_map(vars@), funs_map(funs@), state, fuel as nat);
            res_model(r.0) == sr.0 && r.1 == sr.1
        }),
    decreases fuel, *e, 0int,
{
    match e {
        Expr::Val(v) => (Ok(v.clone()), state),
        Expr::List(es) => {
            let (r0, s1) = eval_exprs_fueled(es, 0, vars, funs, state, fuel);
            match r0 {
                Ok(vs) => {
                    proof {
                        crate::values::lemma_models_of(vs@);
                    }
                    (Ok(Value::List(vs)), s1)
                },
                Err(er) => (Err(er), s1),
            }
        },
        Expr::Var(id) => {
            match vars_get(vars, id) {
                Some(v) => (Ok(v.clone()), state),
                None => (
                    Err(RollerErr::EvalError(EvalErr::UndefinedVariable((*id).clone()))),
                    state,
                ),
            }
        },
        Expr::FunCall(id, args) => {
            let (r0, s1) = eval_exprs_fueled(args, 0, vars, funs, state, fuel);
            match r0 {
                Err(er) => (Err(er), s1),
                Ok(vals) => match funs_get(funs, id) {
                    None => (
                        Err(RollerErr::EvalError(EvalErr::UndefinedFunction((*id).clone()))),
                        s1,
                    ),
                    Some(f) => {
                        if f.params.len() != vals.len() {
                            (
                                Err(
                                    RollerErr::EvalError(
                                        EvalErr::ArityMismatch {
                                            expected: f.params.len(),
                                            found: vals.len(),
                                        },
                                    ),
                                ),
                                s1,
                            )
                        } else if fuel == 0 {
                            (Err(RollerErr::EvalError(EvalErr::RecursionLimit)), s1)
                        } else {
                            let local = bind_arguments(vars, &f.params, &vals);
                            eval_expr_fueled(&f.body, &local, funs, s1, fuel - 1)
                        }
                    },
                },
            }
        },
        Expr::Op { op, left, right } => {
            if *op == InfixOp::Dice {
                let (lr, s1) = eval_dice_operand(left, vars, funs, state, fuel);
                match lr {
                    Err(er) => (Err(er), s1),
                    Ok(n) => {
                        let (rr, s2) = eval_dice_operand(right, vars, funs, s1, fuel);
                        match rr {
                            Err(er) => (Err(er), s2),
                            Ok(sides) => {
                                if n < 0 {
                                    (
                                        Err(
                                            RollerErr::EvalError(
                                                EvalErr::ExpectedPosNum(NumType::Int(n)),
                                            ),
                                        ),
                                        s2,
                                    )
                                } else if sides < 0 {
                                    (
                                        Err(
                                            RollerErr::EvalError(
                                                EvalErr::ExpectedPosNum(NumType::Int(sides)),
                                            ),
                                        ),
                                        s2,
                                    )
                                } else {
                                    let (faces, s3) = roll(n, sides, s2);
                                    proof {
                                        crate::values::lemma_models_of(faces@);
                                    }
                                    (Ok(Value::List(faces)), s3)
                                }
                            },
                        }
                    },
                }
            } else {
                let (lr, s1) = eval_opt_operand(left, vars, funs, state, fuel);
                match lr {
                    Err(er) => (Err(er), s1),
                    Ok(lv) => {
                        let (rr, s2) = eval_opt_operand(right, vars, funs, s1, fuel);
                        match rr {
                            Err(er) => (Err(er), s2),
                            Ok(rv) => (eval_op(*op, lv, rv), s2),
                        }
                    },
                }
            }
        },
        Expr::Range { start: _, step: _, end: _ } => (
            Err(RollerErr::EvalError(EvalErr::Unimplemented)),
            state,
        ),
        Expr::Filter { list: _, pred: _ } => (
            Err(RollerErr::EvalError(EvalErr::Unimplemented)),
            state,
        ),
    }
}

/// Evaluates the expressions of a vector from position `i` on, stopping at
/// the first error.
fn eval_exprs_fueled(
    es: &Vec<Expr>,
    i: usize,
    vars: &Vec<(Ident, Value)>,
    funs: &Vec<(Ident, RollerFun)>,
    state: u64,
    fuel: u64,
) -> (r: (ParseResult<Vec<Value>>, u64))
    requires
        keys_unique(vars@),
        keys_unique(funs@),
    ensures
        ({
            let sr = spec_eval_exprs(es@, i as int, vars_map(vars@), funs_map(funs@), state,
                fuel as nat);
            r.1 == sr.1 && (match (r.0, sr.0) {
                (Ok(vs), Ok(ms)) => models_of(vs@) == ms,
                (Err(e1), Err(e2)) => e1 == e2,
                _ => false,
            })
        }),
    decreases fuel, es@, es@.len() - i,
{
    if i >= es.len() {
        let out: Vec<Value> = Vec::new();
        proof {
            assert(models_of(out@) =~= Seq::<ValModel>::empty());
        }
        (Ok(out), state)
    } else {
        let (r0, s1) = eval_expr_fueled(&es[i], vars, funs, state, fuel);
        match r0 {
            Err(er) => (Err(er), s1),
            Ok(v) => {
                let (rest, s2) = eval_exprs_fueled(es, i + 1, vars, funs, s1, fuel);
                match rest {
                    Err(er) => (Err(er), s2),
                    Ok(mut vs) => {
                        let ghost tail = vs@;
                        vs.insert(0, v);
                        proof {
                            assert(models_of(vs@) =~= seq![v.model()] + models_of(tail));
                        }
                        (Ok(vs), s2)
                    },
                }
            },
        }
    }
}

/// Builds the variable table a function body runs against: the caller's
/// table with the parameters bound to the argument values, left to right.
fn bind_arguments(
    vars: &Vec<(Ident, Value)>,
    params: &Vec<Ident>,
    vals: &Vec<Value>,
) -> (r: Vec<(Ident, Value)>)
    requires
        keys_unique(vars@),
        params@.len() == vals@.len(),
    ensures
        keys_unique(r@),
        vars_map(r@) == bind_params(vars_map(vars@), params@, models_of(vals@)),
{
    let n = params.len();
    let mut local = vars_dup(vars);
    let mut i: usize = 0;
    proof {
        assert(params@.skip(0) =~= params@);
        assert(models_of(vals@).skip(0) =~= models_of(vals@));
    }
    while i < n
        invariant
            n == params@.len(),
            params@.len() == vals@.len(),
            0 <= i <= n,
            keys_unique(local@),
            bind_params(vars_map(local@), params@.skip(i as int), models_of(vals@).skip(i as int))
                == bind_params(vars_map(vars@), params@, models_of(vals@)),
        decreases n - i,
    {
        let ghost pre = vars_map(local@);
        vars_set(&mut local, &params[i], vals[i].clone());
        proof {
            assert(params@.skip(i as int)[0] == params@[i as int]);
            assert(models_of(vals@).skip(i as int)[0] == vals@[i as int].model());
            assert(params@.skip(i as int).drop_first() =~= params@.skip(i as int + 1));
            assert(models_of(vals@).skip(i as int).drop_first() =~= models_of(vals@).skip(
                i as int + 1,
            ));
        }
        i = i + 1;
    }
    proof {
        assert(params@.skip(n as int) =~= Seq::<Ident>::empty());
        assert(models_of(vals@).skip(n as int) =~= Seq::<ValModel>::empty());
    }
    local
}

/// Resolves a dice operand: an absent slot is the default of one; a present
/// one must reduce to an integer number.
fn eval_dice_operand(
    opt: &Option<Box<Expr>>,
    vars: &Vec<(Ident, Value)>,
    funs: &Vec<(Ident, RollerFun)>,
    state: u64,
    fuel: u64,
) -> (r: (ParseResult<i64>, u64))
    requires
        keys_unique(vars@),
        keys_unique(funs@),
    ensures
        ({
            let sr = spec_dice_operand(*opt, vars_map(vars@), funs_map(funs@), state, fuel as nat);
            r.1 == sr.1 && (match (r.0, sr.0) {
                (Ok(x), Ok(y)) => x == y,
                (Err(e1), Err(e2)) => e1 == e2,
                _ => false,
            })
        }),
    decreases fuel, *opt, 0int,
{
    match opt {
        None => (Ok(1), state),
        Some(b) => {
            let (r0, s1) = eval_expr_fueled(b, vars, funs, state, fuel);
            match r0 {
                Ok(Value::Num(NumType::Int(x))) => (Ok(x), s1),
                Ok(v) => (
                    Err(
                        RollerErr::EvalError(
                            EvalErr::ExpectedType {
                                expected: RollerType::NumInt,
                                found: RollerType::of(&v),
                            },
                        ),
                    ),
                    s1,
                ),
                Err(er) => (Err(er), s1),
            }
        },
    }
}

/// Evaluates an optional operand of a non-dice operator: absence yields no
/// value and draws nothing from the dice stream.
fn eval_opt_operand(
    opt: &Option<Box<Expr>>,
    vars: &Vec<(Ident, Value)>,
    funs: &Vec<(Ident, RollerFun)>,
    state: u64,
    fuel: u64,
) -> (r: (ParseResult<Option<Value>>, u64))
    requires
        keys_unique(vars@),
        keys_unique(funs@),
    ensures
        ({
            let sr = spec_opt_operand(*opt, vars_map(vars@), funs_map(funs@), state, fuel as nat);
            r.1 == sr.1 && (match (r.0, sr.0) {
                (Ok(x), Ok(y)) => opt_model(x) == y,
                (Err(e1), Err(e2)) => e1 == e2,
                _ => false,
            })
        }),
    decreases fuel, *opt, 0int,
{
    match opt {
        None => (Ok(None), state),
        Some(b) => {
            let (r0, s1) = eval_expr_fueled(b, vars, funs, state, fuel);
            match r0 {
                Ok(v) => (Ok(Some(v)), s1),
                Err(er) => (Err(er), s1),
            }
        },
    }
}

/// The binary-operator reducer; the dice operator is intercepted before it
/// and never reaches this path.
fn eval_op(op: InfixOp, lhs: Option<Value>, rhs: Option<Value>) -> (r: ParseResult<Value>)
    requires
        op != InfixOp::Dice,
    ensures
        res_model(r) == spec_eval_op(op, opt_model(lhs), opt_model(rhs)),
{
    match op {
        InfixOp::Dice => Err(RollerErr::EvalError(EvalErr::Unimplemented)),
        InfixOp::Plus => match (lhs, rhs) {
            (_, None) => Err(
                RollerErr::EvalError(EvalErr::MissingOpArg { op: op, side: Side::Right }),
            ),
            (Some(l), Some(r)) => l.add(r),
            (None, Some(r)) => Ok(r),
        },
        InfixOp::Minus => match (lhs, rhs) {
            (_, None) => Err(
                RollerErr::EvalError(EvalErr::MissingOpArg { op: op, side: Side::Right }),
            ),
            (Some(l), Some(r)) => l.sub(r),
            (None, Some(r)) => r.neg(),
        },
        InfixOp::Mul => match (lhs, rhs) {
            (Some(l), Some(r)) => l.mul(r),
            (None, Some(_)) => Err(
                RollerErr::EvalError(EvalErr::MissingOpArg { op: op, side: Side::Left }),
            ),
            (Some(_), None) => Err(
                RollerErr::EvalError(EvalErr::MissingOpArg { op: op, side: Side::Right }),
            ),
            (None, None) => Err(RollerErr::EvalError(EvalErr::NoOpArgs(op))),
        },
        InfixOp::Div => match (lhs, rhs) {
            (Some(l), Some(r)) => l.div(r),
            (None, Some(_)) => Err(
                RollerErr::EvalError(EvalErr::MissingOpArg { op: op, side: Side::Left }),
            ),
            (Some(_), None) => Err(
                RollerErr::EvalError(EvalErr::MissingOpArg { op: op, side: Side::Right }),
            ),
            (None, None) => Err(RollerErr::EvalError(EvalErr::NoOpArgs(op))),
        },
        InfixOp::Pow => match (lhs, rhs) {
            (Some(l), Some(r)) => l.pow(r),
            (None, Some(_)) => Err(
                RollerErr::EvalError(EvalErr::MissingOpArg { op: op, side: Side::Left }),
            ),
            (Some(_), None) => Err(
                RollerErr::EvalError(EvalErr::MissingOpArg { op: op, side: Side::Right }),
            ),
            (None, None) => Err(RollerErr::EvalError(EvalErr::NoOpArgs(op))),
        },
    }
}

} // verus!
