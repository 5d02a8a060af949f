//! The laws of the evaluator: properties that hold of every input, proved
//! once and for all against the definitional semantics of
//! [`crate::semantics`].

use vstd::prelude::*;
use vstd::arithmetic::div_mod::lemma_mod_bound;
use crate::env::{draw_val, spec_roll};
use crate::error::{EvalErr, RollerErr, Side};
use crate::semantics::{
    FunsModel, VarsModel, spec_dice_operand, spec_eval_expr, spec_eval_exprs, spec_eval_op,
    spec_missing,
};
use crate::syntax_tree::{Expr, Ident, InfixOp};
use crate::values::{NumType, ValModel, Value, spec_neg};

verus! {

/// A literal evaluates to its own value, in any environment, drawing
/// nothing from the dice stream.
pub proof fn lemma_eval_literal(
    v: Value,
    vars: VarsModel,
    funs: FunsModel,
    state: u64,
    fuel: nat,
)
    ensures
        spec_eval_expr(Expr::Val(v), vars, funs, state, fuel) == (
            Ok::<ValModel, RollerErr>(v.model()),
            state,
        ),
{
}

/// A value is a legal die face for a given number of sides: an integer
/// between one and the number of sides.
pub open spec fn is_face(v: ValModel, sides: i64) -> bool {
    match v {
        ValModel::Int(x) => 1 <= x <= sides,
        ValModel::List(_) => false,
    }
}

/// Every face of a roll of `n` dice with `s` sides, `s` positive, lies
/// between one and `s`, and there are exactly `n` of them.
pub proof fn lemma_roll_faces(n: int, sides: i64, state: u64)
    requires
        n >= 0,
        sides >= 1,
    ensures
        spec_roll(n, sides, state).0.len() == n,
        forall|i: int| 0 <= i < n ==> is_face(#[trigger] spec_roll(n, sides, state).0[i], sides),
    decreases n,
{
    if n > 0 {
        let s1 = crate::env::next_state(state);
        lemma_roll_faces(n - 1, sides, s1);
        lemma_mod_bound(s1 as int, sides as int);
        assert(spec_roll(n, sides, state).0 == seq![ValModel::Int(draw_val(s1, sides))]
            + spec_roll(n - 1, sides, s1).0);
    }
}

/// Rolling dice with both operands given as non-negative integer literals
/// yields a list of exactly `n` integer faces, each between one and `s`.
#[verifier::rlimit(60)]
pub proof fn lemma_dice_literals(
    le: Box<Expr>,
    re: Box<Expr>,
    n: i64,
    s: i64,
    vars: VarsModel,
    funs: FunsModel,
    state: u64,
    fuel: nat,
)
    requires
        *le == Expr::Val(Value::Num(NumType::Int(n))),
        *re == Expr::Val(Value::Num(NumType::Int(s))),
        n >= 0,
        s >= 1,
    ensures
        ({
            let r = spec_eval_expr(
                Expr::Op { op: InfixOp::Dice, left: Some(le), right: Some(re) },
                vars,
                funs,
                state,
                fuel,
            );
            &&& r.0 is Ok
            &&& r.0->Ok_0 is List
            &&& r.0->Ok_0->List_0.len() == n
            &&& forall|i: int| 0 <= i < n ==> is_face(#[trigger] r.0->Ok_0->List_0[i], s)
        }),
{
    assert(spec_dice_operand(Some(le), vars, funs, state, fuel) == (
        Ok::<i64, RollerErr>(n),
        state,
    ));
    assert(spec_dice_operand(Some(re), vars, funs, state, fuel) == (
        Ok::<i64, RollerErr>(s),
        state,
    ));
    lemma_roll_faces(n as int, s, state);
}

/// Rolling dice with a negative count, given as an integer literal, fails
/// with a non-positive-argument error naming the count; with a non-negative
/// count and a negative number of sides, it fails naming the sides.
pub proof fn lemma_dice_negative(
    le: Box<Expr>,
    re: Box<Expr>,
    n: i64,
    s: i64,
    vars: VarsModel,
    funs: FunsModel,
    state: u64,
    fuel: nat,
)
    requires
        *le == Expr::Val(Value::Num(NumType::Int(n))),
        *re == Expr::Val(Value::Num(NumType::Int(s))),
        n < 0 || s < 0,
    ensures
        spec_eval_expr(
            Expr::Op { op: InfixOp::Dice, left: Some(le), right: Some(re) },
            vars,
            funs,
            state,
            fuel,
        ) == (
            Err::<ValModel, RollerErr>(
                RollerErr::EvalError(
                    EvalErr::ExpectedPosNum(
                        NumType::Int(
                            if n < 0 {
                                n
                            } else {
                                s
                            },
                        ),
                    ),
                ),
            ),
            state,
        ),
{
    assert(spec_dice_operand(Some(le), vars, funs, state, fuel) == (
        Ok::<i64, RollerErr>(n),
        state,
    ));
    assert(spec_dice_operand(Some(re), vars, funs, state, fuel) == (
        Ok::<i64, RollerErr>(s),
        state,
    ));
}

/// The dice operator treats an absent left operand as the literal one.
pub proof fn lemma_dice_default_left(
    le: Box<Expr>,
    right: Option<Box<Expr>>,
    vars: VarsModel,
    funs: FunsModel,
    state: u64,
    fuel: nat,
)
    requires
        *le == Expr::Val(Value::Num(NumType::Int(1))),
    ensures
        spec_eval_expr(
            Expr::Op { op: InfixOp::Dice, left: Some(le), right: right },
            vars,
            funs,
            state,
            fuel,
        ) == spec_eval_expr(
            Expr::Op { op: InfixOp::Dice, left: None, right: right },
            vars,
            funs,
            state,
            fuel,
        ),
{
    assert(spec_dice_operand(Some(le), vars, funs, state, fuel) == spec_dice_operand(
        None,
        vars,
        funs,
        state,
        fuel,
    ));
}

/// The dice operator treats an absent right operand as the literal one.
pub proof fn lemma_dice_default_right(
    left: Option<Box<Expr>>,
    re: Box<Expr>,
    vars: VarsModel,
    funs: FunsModel,
    state: u64,
    fuel: nat,
)
    requires
        *re == Expr::Val(Value::Num(NumType::Int(1))),
    ensures
        spec_eval_expr(
            Expr::Op { op: InfixOp::Dice, left: left, right: Some(re) },
            vars,
            funs,
            state,
            fuel,
        ) == spec_eval_expr(
            Expr::Op { op: InfixOp::Dice, left: left, right: None },
            vars,
            funs,
            state,
            fuel,
        ),
{
    let lr = spec_dice_operand(left, vars, funs, state, fuel);
    assert(spec_dice_operand(Some(re), vars, funs, lr.1, fuel) == spec_dice_operand(
        None,
        vars,
        funs,
        lr.1,
        fuel,
    ));
}

/// Unary plus is the identity: a plus with no left operand returns its
/// right operand unchanged.
pub proof fn lemma_unary_plus(x: ValModel)
    ensures
        spec_eval_op(InfixOp::Plus, None, Some(x)) == Ok::<ValModel, RollerErr>(x),
{
}

/// Unary minus negates: a minus with no left operand returns the negation
/// of its right operand, an overflow of the one unrepresentable negation
/// included.
pub proof fn lemma_unary_minus(x: ValModel)
    ensures
        spec_eval_op(InfixOp::Minus, None, Some(x)) == spec_neg(x),
{
}

/// The strictly binary operators fail on a missing operand, and the three
/// absence shapes carry distinct errors: left missing, right missing, and
/// both missing.
pub proof fn lemma_strict_binary_missing(op: InfixOp, x: ValModel)
    requires
        op == InfixOp::Mul || op == InfixOp::Div || op == InfixOp::Pow,
    ensures
        spec_eval_op(op, None, Some(x)) == Err::<ValModel, RollerErr>(
            spec_missing(op, Side::Left),
        ),
        spec_eval_op(op, Some(x), None) == Err::<ValModel, RollerErr>(
            spec_missing(op, Side::Right),
        ),
        spec_eval_op(op, None, None) == Err::<ValModel, RollerErr>(
            RollerErr::EvalError(EvalErr::NoOpArgs(op)),
        ),
{
}

/// Sequence evaluation stops at the first failing element: if the element
/// at the front fails, the whole sequence fails with that error, and
/// nothing after it is evaluated.
pub proof fn lemma_exprs_first_failure(
    es: Seq<Expr>,
    i: int,
    vars: VarsModel,
    funs: FunsModel,
    state: u64,
    fuel: nat,
)
    requires
        0 <= i < es.len(),
        spec_eval_expr(es[i], vars, funs, state, fuel).0 is Err,
    ensures
        spec_eval_exprs(es, i, vars, funs, state, fuel) == (
            Result::<Seq<ValModel>, RollerErr>::Err(
                spec_eval_expr(es[i], vars, funs, state, fuel).0->Err_0,
            ),
            spec_eval_expr(es[i], vars, funs, state, fuel).1,
        ),
{
}

/// Sequence evaluation proceeds left to right: a successful element is
/// prepended to the evaluation of the rest, which continues from the dice
/// stream state the element left behind.
pub proof fn lemma_exprs_step(
    es: Seq<Expr>,
    i: int,
    vars: VarsModel,
    funs: FunsModel,
    state: u64,
    fuel: nat,
)
    requires
        0 <= i < es.len(),
        spec_eval_expr(es[i], vars, funs, state, fuel).0 is Ok,
    ensures
        ({
            let head = spec_eval_expr(es[i], vars, funs, state, fuel);
            let rest = spec_eval_exprs(es, i + 1, vars, funs, head.1, fuel);
            spec_eval_exprs(es, i, vars, funs, state, fuel) == (
                match rest.0 {
                    Ok(vs) => Result::<Seq<ValModel>, RollerErr>::Ok(seq![head.0->Ok_0] + vs),
                    Err(er) => Result::<Seq<ValModel>, RollerErr>::Err(er),
                },
                rest.1,
            )
        }),
{
}

/// A variable reads back the value just bound to it: looking an identifier
/// up right after binding it yields that value.  Together with the contract
/// of [`crate::eval_functions::eval_stmt`], whose assignment leaves the
/// variable map with exactly this insertion, an assignment followed by a
/// lookup of the same name returns the assigned value.
pub proof fn lemma_assign_then_var(
    x: Ident,
    v: ValModel,
    vars: VarsModel,
    funs: FunsModel,
    state: u64,
    fuel: nat,
)
    ensures
        spec_eval_expr(Expr::Var(x), vars.insert(x@, v), funs, state, fuel) == (
            Ok::<ValModel, RollerErr>(v),
            state,
        ),
{
}

/// After a clear, every lookup fails with an undefined-variable error
/// naming the identifier: the cleared variable map is empty.
pub proof fn lemma_clear_then_var(x: Ident, funs: FunsModel, state: u64, fuel: nat)
    ensures
        spec_eval_expr(Expr::Var(x), Map::empty(), funs, state, fuel) == (
            Err::<ValModel, RollerErr>(RollerErr::EvalError(EvalErr::UndefinedVariable(x))),
            state,
        ),
{
}

} // verus!
