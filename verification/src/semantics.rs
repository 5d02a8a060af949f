//! The mathematical semantics of the language.
//!
//! [`spec_eval_expr`] is the definitional interpreter the executable
//! evaluator is proved against: given an expression, the environment's
//! variable and function maps, the dice stream's state and a call-depth
//! fuel, it yields the value or error the language assigns to the
//! expression, together with the state the dice stream is left in.
//! Evaluation is strictly left-to-right and the first failure wins; the
//! dice operator defaults an absent operand to one; nested function calls
//! consume one unit of fuel each, and exhausted fuel is a recursion-limit
//! error.

use vstd::prelude::*;
use crate::env::spec_roll;
use crate::error::{EvalErr, RollerErr, Side};
use crate::syntax_tree::{Expr, Ident, InfixOp, RollerFun};
use crate::values::{
    ValModel, model_type, spec_add, spec_div, spec_mul, spec_neg, spec_sub, spec_pow,
};
use crate::values::RollerType;
use crate::values::NumType;

verus! {

/// The variable bindings an evaluation runs against.
pub type VarsModel = Map<Seq<char>, ValModel>;

/// The function definitions an evaluation runs against.
pub type FunsModel = Map<Seq<char>, RollerFun>;

/// A missing-operand error.
pub open spec fn spec_missing(op: InfixOp, side: Side) -> RollerErr {
    RollerErr::EvalError(EvalErr::MissingOpArg { op: op, side: side })
}

/// The reduction of a strictly binary operator: both operands must be
/// present, and the three absence shapes are told apart.
pub open spec fn spec_strict_binary(
    op: InfixOp,
    lhs: Option<ValModel>,
    rhs: Option<ValModel>,
    f: spec_fn(ValModel, ValModel) -> Result<ValModel, RollerErr>,
) -> Result<ValModel, RollerErr> {
    match (lhs, rhs) {
        (Some(l), Some(r)) => f(l, r),
        (None, Some(_)) => Err(spec_missing(op, Side::Left)),
        (Some(_), None) => Err(spec_missing(op, Side::Right)),
        (None, None) => Err(RollerErr::EvalError(EvalErr::NoOpArgs(op))),
    }
}

/// The binary-operator reducer, for every operator but the dice operator:
/// plus and minus fall back to identity and negation when the left operand
/// is absent; multiplication, division and power are strictly binary.  The
/// dice operator never reaches this reducer.
pub open spec fn spec_eval_op(op: InfixOp, lhs: Option<ValModel>, rhs: Option<ValModel>) -> Result<
    ValModel,
    RollerErr,
> {
    match op {
        InfixOp::Dice => arbitrary(),
        InfixOp::Plus => match (lhs, rhs) {
            (_, None) => Err(spec_missing(op, Side::Right)),
            (Some(l), Some(r)) => spec_add(l, r),
            (None, Some(r)) => Ok(r),
        },
        InfixOp::Minus => match (lhs, rhs) {
            (_, None) => Err(spec_missing(op, Side::Right)),
            (Some(l), Some(r)) => spec_sub(l, r),
            (None, Some(r)) => spec_neg(r),
        },
        InfixOp::Mul => spec_strict_binary(op, lhs, rhs, |l: ValModel, r: ValModel| spec_mul(l, r)),
        InfixOp::Div => spec_strict_binary(op, lhs, rhs, |l: ValModel, r: ValModel| spec_div(l, r)),
        InfixOp::Pow => spec_strict_binary(op, lhs, rhs, |l: ValModel, r: ValModel| spec_pow(l, r)),
    }
}

/// Binds parameters to argument values left to right, a later duplicate
/// parameter shadowing an earlier one.
pub open spec fn bind_params(vars: VarsModel, params: Seq<Ident>, args: Seq<ValModel>) -> VarsModel
    decreases params.len(),
{
    if params.len() == 0 {
        vars
    } else {
        bind_params(vars.insert(params[0]@, args[0]), params.drop_first(), args.drop_first())
    }
}

/// Evaluates an expression.  Returns the produced value or the first error,
/// and the dice stream's final state.
pub open spec fn spec_eval_expr(
    e: Expr,
    vars: VarsModel,
    funs: FunsModel,
    state: u64,
    fuel: nat,
) -> (Result<ValModel, RollerErr>, u64)
    decreases fuel, e, 0int,
{
    match e {
        Expr::Val(v) => (Ok(v.model()), state),
        Expr::List(es) => {
            let r = spec_eval_exprs(es@, 0, vars, funs, state, fuel);
            (
                match r.0 {
                    Ok(vs) => Ok(ValModel::List(vs)),
                    Err(er) => Err(er),
                },
                r.1,
            )
        },
        Expr::Var(id) => (
            if vars.contains_key(id@) {
                Ok(vars[id@])
            } else {
                Err(RollerErr::EvalError(EvalErr::UndefinedVariable(id)))
            },
            state,
        ),
        Expr::FunCall(id, args) => {
            let r = spec_eval_exprs(args@, 0, vars, funs, state, fuel);
            match r.0 {
                Err(er) => (Err(er), r.1),
                Ok(vals) => if !funs.contains_key(id@) {
                    (Err(RollerErr::EvalError(EvalErr::UndefinedFunction(id))), r.1)
                } else {
                    let f = funs[id@];
                    if f.params@.len() != vals.len() {
                        (
                            Err(
                                RollerErr::EvalError(
                                    EvalErr::ArityMismatch {
                                        expected: f.params@.len() as usize,
                                        found: vals.len() as usize,
                                    },
                                ),
                            ),
                            r.1,
                        )
                    } else if fuel == 0 {
                        (Err(RollerErr::EvalError(EvalErr::RecursionLimit)), r.1)
                    } else {
                        spec_eval_expr(
                            f.body,
                            bind_params(vars, f.params@, vals),
                            funs,
                            r.1,
                            (fuel - 1) as nat,
                        )
                    }
                },
            }
        },
        Expr::Op { op, left, right } => {
            if op == InfixOp::Dice {
                let lr = spec_dice_operand(left, vars, funs, state, fuel);
                match lr.0 {
                    Err(er) => (Err(er), lr.1),
                    Ok(n) => {
                        let rr = spec_dice_operand(right, vars, funs, lr.1, fuel);
                        match rr.0 {
                            Err(er) => (Err(er), rr.1),
                            Ok(sides) => if n < 0 {
                                (
                                    Err(
                                        RollerErr::EvalError(
                                            EvalErr::ExpectedPosNum(NumType::Int(n)),
                                        ),
                                    ),
                                    rr.1,
                                )
                            } else if sides < 0 {
                                (
                                    Err(
                                        RollerErr::EvalError(
                                            EvalErr::ExpectedPosNum(NumType::Int(sides)),
                                        ),
                                    ),
                                    rr.1,
                                )
                            } else {
                                let rolled = spec_roll(n as int, sides, rr.1);
                                (Ok(ValModel::List(rolled.0)), rolled.1)
                            },
                        }
                    },
                }
            } else {
                let lr = spec_opt_operand(left, vars, funs, state, fuel);
                match lr.0 {
                    Err(er) => (Err(er), lr.1),
                    Ok(lv) => {
                        let rr = spec_opt_operand(right, vars, funs, lr.1, fuel);
                        match rr.0 {
                            Err(er) => (Err(er), rr.1),
                            Ok(rv) => (spec_eval_op(op, lv, rv), rr.1),
                        }
                    },
                }
            }
        },
        _ => (Err(RollerErr::EvalError(EvalErr::Unimplemented)), state),
    }
}

/// Evaluates the expressions of a sequence from position `i` on, strictly
/// left to right, stopping at the first failure.
pub open spec fn spec_eval_exprs(
    es: Seq<Expr>,
    i: int,
    vars: VarsModel,
    funs: FunsModel,
    state: u64,
    fuel: nat,
) -> (Result<Seq<ValModel>, RollerErr>, u64)
    decreases fuel, es, es.len() - i,
{
    if i < 0 || i >= es.len() {
        (Ok(Seq::empty()), state)
    } else {
        let r0 = spec_eval_expr(es[i], vars, funs, state, fuel);
        match r0.0 {
            Err(er) => (Err(er), r0.1),
            Ok(v) => {
                let rest = spec_eval_exprs(es, i + 1, vars, funs, r0.1, fuel);
                (
                    match rest.0 {
                        Ok(vs) => Ok(seq![v] + vs),
                        Err(er) => Err(er),
                    },
                    rest.1,
                )
            },
        }
    }
}

/// Resolves a dice operand: an absent operand defaults to one; a present
/// one must evaluate to an integer number, else the evaluation fails with
/// a type-mismatch error naming the type found.
pub open spec fn spec_dice_operand(
    opt: Option<Box<Expr>>,
    vars: VarsModel,
    funs: FunsModel,
    state: u64,
    fuel: nat,
) -> (Result<i64, RollerErr>, u64)
    decreases fuel, opt, 0int,
{
    match opt {
        None => (Ok(1), state),
        Some(b) => {
            let r = spec_eval_expr(*b, vars, funs, state, fuel);
            match r.0 {
                Ok(ValModel::Int(x)) => (Ok(x), r.1),
                Ok(v) => (
                    Err(
                        RollerErr::EvalError(
                            EvalErr::ExpectedType {
                                expected: RollerType::NumInt,
                                found: model_type(v),
                            },
                        ),
                    ),
                    r.1,
                ),
                Err(er) => (Err(er), r.1),
            }
        },
    }
}

/// Evaluates an optional operand of a non-dice operator: absence yields no
/// value without any evaluation.
pub open spec fn spec_opt_operand(
    opt: Option<Box<Expr>>,
    vars: VarsModel,
    funs: FunsModel,
    state: u64,
    fuel: nat,
) -> (Result<Option<ValModel>, RollerErr>, u64)
    decreases fuel, opt, 0int,
{
    match opt {
        None => (Ok(None), state),
        Some(b) => {
            let r = spec_eval_expr(*b, vars, funs, state, fuel);
            match r.0 {
                Ok(v) => (Ok(Some(v)), r.1),
                Err(er) => (Err(er), r.1),
            }
        },
    }
}

} // verus!
