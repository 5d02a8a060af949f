use roller_core::env::RollerEnv;
use roller_core::error::{EvalErr, RollerErr, Side};
use roller_core::eval_functions::{eval_cmd, eval_expr, eval_stmt};
use roller_core::syntax_tree::{Cmd, Expr, InfixOp, RollerFun, Stmt};
use roller_core::values::{NumType, Value};

fn int_val(x: i64) -> Value {
    Value::Num(NumType::Int(x))
}

fn int_expr(x: i64) -> Expr {
    Expr::Val(int_val(x))
}

fn op(o: InfixOp, left: Option<Expr>, right: Option<Expr>) -> Expr {
    Expr::Op { op: o, left: left.map(Box::new), right: right.map(Box::new) }
}

fn eval_err(e: EvalErr) -> RollerErr {
    RollerErr::EvalError(e)
}

#[test]
fn literal_evaluates_to_itself() {
    let env = RollerEnv::new();
    assert_eq!(eval_expr(&int_expr(42), &env), Ok(int_val(42)));
}

#[test]
fn literal_list_value_is_kept() {
    let env = RollerEnv::new();
    let v = Value::List(vec![int_val(1), int_val(2)]);
    assert_eq!(eval_expr(&Expr::Val(v), &env), Ok(Value::List(vec![int_val(1), int_val(2)])));
}

#[test]
fn list_evaluates_elementwise() {
    let env = RollerEnv::new();
    let e = Expr::List(vec![int_expr(1), int_expr(2), int_expr(3)]);
    assert_eq!(
        eval_expr(&e, &env),
        Ok(Value::List(vec![int_val(1), int_val(2), int_val(3)]))
    );
}

#[test]
fn empty_list_evaluates_to_empty() {
    let env = RollerEnv::new();
    assert_eq!(eval_expr(&Expr::List(vec![]), &env), Ok(Value::List(vec![])));
}

#[test]
fn list_stops_at_first_failure() {
    let env = RollerEnv::new();
    // the second element fails; the third would fail differently, but is
    // never reached
    let e = Expr::List(vec![
        int_expr(1),
        Expr::Var(String::from("nope")),
        op(InfixOp::Div, Some(int_expr(1)), Some(int_expr(0))),
    ]);
    assert_eq!(
        eval_expr(&e, &env),
        Err(eval_err(EvalErr::UndefinedVariable(String::from("nope"))))
    );
}

#[test]
fn dice_roll_has_count_and_range() {
    let env = RollerEnv::new();
    let e = op(InfixOp::Dice, Some(int_expr(2)), Some(int_expr(6)));
    match eval_expr(&e, &env) {
        Ok(Value::List(faces)) => {
            assert_eq!(faces.len(), 2);
            for f in faces {
                match f {
                    Value::Num(NumType::Int(x)) => assert!((1..=6).contains(&x)),
                    other => panic!("non-integer face: {:?}", other),
                }
            }
        }
        other => panic!("dice roll did not produce a list: {:?}", other),
    }
}

#[test]
fn dice_zero_count_rolls_nothing() {
    let env = RollerEnv::new();
    let e = op(InfixOp::Dice, Some(int_expr(0)), Some(int_expr(6)));
    assert_eq!(eval_expr(&e, &env), Ok(Value::List(vec![])));
}

#[test]
fn dice_negative_count_fails() {
    let env = RollerEnv::new();
    let e = op(InfixOp::Dice, Some(int_expr(-1)), Some(int_expr(6)));
    assert_eq!(
        eval_expr(&e, &env),
        Err(eval_err(EvalErr::ExpectedPosNum(NumType::Int(-1))))
    );
}

#[test]
fn dice_negative_sides_fails() {
    let env = RollerEnv::new();
    let e = op(InfixOp::Dice, Some(int_expr(2)), Some(int_expr(-3)));
    assert_eq!(
        eval_expr(&e, &env),
        Err(eval_err(EvalErr::ExpectedPosNum(NumType::Int(-3))))
    );
}

#[test]
fn dice_default_left_is_one() {
    let env = RollerEnv::new();
    let defaulted = op(InfixOp::Dice, None, Some(int_expr(6)));
    let explicit = op(InfixOp::Dice, Some(int_expr(1)), Some(int_expr(6)));
    assert_eq!(eval_expr(&defaulted, &env), eval_expr(&explicit, &env));
}

#[test]
fn dice_default_right_is_one() {
    let env = RollerEnv::new();
    let defaulted = op(InfixOp::Dice, Some(int_expr(3)), None);
    let explicit = op(InfixOp::Dice, Some(int_expr(3)), Some(int_expr(1)));
    assert_eq!(eval_expr(&defaulted, &env), eval_expr(&explicit, &env));
    // one-sided dice only ever roll ones
    assert_eq!(
        eval_expr(&defaulted, &env),
        Ok(Value::List(vec![int_val(1), int_val(1), int_val(1)]))
    );
}

#[test]
fn dice_non_integer_operand_fails() {
    let env = RollerEnv::new();
    let e = op(InfixOp::Dice, Some(Expr::List(vec![])), Some(int_expr(6)));
    match eval_expr(&e, &env) {
        Err(RollerErr::EvalError(EvalErr::ExpectedType { .. })) => {}
        other => panic!("expected a type mismatch, got {:?}", other),
    }
}

#[test]
fn unary_plus_is_identity() {
    let env = RollerEnv::new();
    let e = op(InfixOp::Plus, None, Some(int_expr(5)));
    assert_eq!(eval_expr(&e, &env), Ok(int_val(5)));
}

#[test]
fn unary_minus_negates() {
    let env = RollerEnv::new();
    let e = op(InfixOp::Minus, None, Some(int_expr(5)));
    assert_eq!(eval_expr(&e, &env), Ok(int_val(-5)));
}

#[test]
fn addition_has_exact_value() {
    let env = RollerEnv::new();
    let e = op(InfixOp::Plus, Some(int_expr(2)), Some(int_expr(3)));
    assert_eq!(eval_expr(&e, &env), Ok(int_val(5)));
}

#[test]
fn subtraction_has_exact_value() {
    let env = RollerEnv::new();
    let e = op(InfixOp::Minus, Some(int_expr(2)), Some(int_expr(3)));
    assert_eq!(eval_expr(&e, &env), Ok(int_val(-1)));
}

#[test]
fn multiplication_has_exact_value() {
    let env = RollerEnv::new();
    let e = op(InfixOp::Mul, Some(int_expr(4)), Some(int_expr(5)));
    assert_eq!(eval_expr(&e, &env), Ok(int_val(20)));
}

#[test]
fn division_truncates_toward_zero() {
    let env = RollerEnv::new();
    let e = op(InfixOp::Div, Some(int_expr(7)), Some(int_expr(2)));
    assert_eq!(eval_expr(&e, &env), Ok(int_val(3)));
    let e2 = op(InfixOp::Div, Some(int_expr(-7)), Some(int_expr(2)));
    assert_eq!(eval_expr(&e2, &env), Ok(int_val(-3)));
}

#[test]
fn power_has_exact_value() {
    let env = RollerEnv::new();
    let e = op(InfixOp::Pow, Some(int_expr(2)), Some(int_expr(10)));
    assert_eq!(eval_expr(&e, &env), Ok(int_val(1024)));
    let zero = op(InfixOp::Pow, Some(int_expr(0)), Some(int_expr(0)));
    assert_eq!(eval_expr(&zero, &env), Ok(int_val(1)));
    let neg = op(InfixOp::Pow, Some(int_expr(-3)), Some(int_expr(3)));
    assert_eq!(eval_expr(&neg, &env), Ok(int_val(-27)));
}

#[test]
fn division_by_zero_fails() {
    let env = RollerEnv::new();
    let e = op(InfixOp::Div, Some(int_expr(1)), Some(int_expr(0)));
    assert_eq!(eval_expr(&e, &env), Err(eval_err(EvalErr::DivisionByZero)));
}

#[test]
fn addition_overflow_fails() {
    let env = RollerEnv::new();
    let e = op(InfixOp::Plus, Some(int_expr(i64::MAX)), Some(int_expr(1)));
    assert_eq!(eval_expr(&e, &env), Err(eval_err(EvalErr::Overflow)));
}

#[test]
fn power_overflow_fails() {
    let env = RollerEnv::new();
    let e = op(InfixOp::Pow, Some(int_expr(2)), Some(int_expr(64)));
    assert_eq!(eval_expr(&e, &env), Err(eval_err(EvalErr::Overflow)));
}

#[test]
fn power_negative_exponent_fails() {
    let env = RollerEnv::new();
    let e = op(InfixOp::Pow, Some(int_expr(2)), Some(int_expr(-1)));
    assert_eq!(
        eval_expr(&e, &env),
        Err(eval_err(EvalErr::ExpectedPosNum(NumType::Int(-1))))
    );
}

#[test]
fn arithmetic_on_list_is_type_error() {
    let env = RollerEnv::new();
    let e = op(InfixOp::Plus, Some(Expr::List(vec![])), Some(int_expr(1)));
    match eval_expr(&e, &env) {
        Err(RollerErr::EvalError(EvalErr::ExpectedType { .. })) => {}
        other => panic!("expected a type mismatch, got {:?}", other),
    }
}

#[test]
fn strict_operators_fail_without_operands() {
    let env = RollerEnv::new();
    for o in [InfixOp::Mul, InfixOp::Div, InfixOp::Pow] {
        let left_missing = op(o, None, Some(int_expr(1)));
        assert_eq!(
            eval_expr(&left_missing, &env),
            Err(eval_err(EvalErr::MissingOpArg { op: o, side: Side::Left }))
        );
        let right_missing = op(o, Some(int_expr(1)), None);
        assert_eq!(
            eval_expr(&right_missing, &env),
            Err(eval_err(EvalErr::MissingOpArg { op: o, side: Side::Right }))
        );
        let both_missing = op(o, None, None);
        assert_eq!(eval_expr(&both_missing, &env), Err(eval_err(EvalErr::NoOpArgs(o))));
    }
}

#[test]
fn plus_and_minus_need_right_operand() {
    let env = RollerEnv::new();
    for o in [InfixOp::Plus, InfixOp::Minus] {
        let e = op(o, Some(int_expr(1)), None);
        assert_eq!(
            eval_expr(&e, &env),
            Err(eval_err(EvalErr::MissingOpArg { op: o, side: Side::Right }))
        );
        let both = op(o, None, None);
        assert_eq!(
            eval_expr(&both, &env),
            Err(eval_err(EvalErr::MissingOpArg { op: o, side: Side::Right }))
        );
    }
}

#[test]
fn unbound_variable_fails() {
    let env = RollerEnv::new();
    assert_eq!(
        eval_expr(&Expr::Var(String::from("x")), &env),
        Err(eval_err(EvalErr::UndefinedVariable(String::from("x"))))
    );
}

#[test]
fn assign_then_lookup_returns_value() {
    let mut env = RollerEnv::new();
    assert_eq!(eval_stmt(Stmt::Assign(String::from("x"), int_expr(7)), &mut env), Ok(()));
    assert_eq!(eval_expr(&Expr::Var(String::from("x")), &env), Ok(int_val(7)));
}

#[test]
fn assign_overwrites_previous_binding() {
    let mut env = RollerEnv::new();
    eval_stmt(Stmt::Assign(String::from("x"), int_expr(1)), &mut env).unwrap();
    eval_stmt(Stmt::Assign(String::from("x"), int_expr(2)), &mut env).unwrap();
    assert_eq!(eval_expr(&Expr::Var(String::from("x")), &env), Ok(int_val(2)));
}

#[test]
fn failed_assign_changes_nothing() {
    let mut env = RollerEnv::new();
    eval_stmt(Stmt::Assign(String::from("x"), int_expr(1)), &mut env).unwrap();
    let bad = Stmt::Assign(String::from("x"), Expr::Var(String::from("nope")));
    assert_eq!(
        eval_stmt(bad, &mut env),
        Err(eval_err(EvalErr::UndefinedVariable(String::from("nope"))))
    );
    assert_eq!(eval_expr(&Expr::Var(String::from("x")), &env), Ok(int_val(1)));
}

#[test]
fn clear_unbinds_everything() {
    let mut env = RollerEnv::new();
    eval_stmt(Stmt::Assign(String::from("x"), int_expr(7)), &mut env).unwrap();
    assert_eq!(eval_stmt(Stmt::Clear, &mut env), Ok(()));
    assert_eq!(
        eval_expr(&Expr::Var(String::from("x")), &env),
        Err(eval_err(EvalErr::UndefinedVariable(String::from("x"))))
    );
}

#[test]
fn delete_of_unbound_identifier_succeeds() {
    let mut env = RollerEnv::new();
    assert_eq!(eval_stmt(Stmt::Delete(String::from("x")), &mut env), Ok(()));
}

#[test]
fn delete_removes_binding() {
    let mut env = RollerEnv::new();
    eval_stmt(Stmt::Assign(String::from("x"), int_expr(7)), &mut env).unwrap();
    eval_stmt(Stmt::Delete(String::from("x")), &mut env).unwrap();
    assert_eq!(
        eval_expr(&Expr::Var(String::from("x")), &env),
        Err(eval_err(EvalErr::UndefinedVariable(String::from("x"))))
    );
}

#[test]
fn run_and_save_are_unimplemented() {
    let mut env = RollerEnv::new();
    assert_eq!(
        eval_stmt(Stmt::Run(String::from("some/file")), &mut env),
        Err(eval_err(EvalErr::Unimplemented))
    );
    assert_eq!(
        eval_stmt(Stmt::Save(String::from("")), &mut env),
        Err(eval_err(EvalErr::Unimplemented))
    );
}

#[test]
fn range_and_filter_are_unimplemented() {
    let env = RollerEnv::new();
    let range = Expr::Range {
        start: Box::new(int_expr(1)),
        step: None,
        end: Box::new(int_expr(5)),
    };
    assert_eq!(eval_expr(&range, &env), Err(eval_err(EvalErr::Unimplemented)));
    let filter = Expr::Filter {
        list: Box::new(Expr::List(vec![])),
        pred: roller_core::syntax_tree::Pred::Index(Box::new(int_expr(0))),
    };
    assert_eq!(eval_expr(&filter, &env), Err(eval_err(EvalErr::Unimplemented)));
}

#[test]
fn function_definition_and_call() {
    let mut env = RollerEnv::new();
    let body = op(
        InfixOp::Plus,
        Some(Expr::Var(String::from("a"))),
        Some(Expr::Var(String::from("a"))),
    );
    let fun = RollerFun::new(vec![String::from("a")], body);
    assert_eq!(eval_stmt(Stmt::FnDef(String::from("double"), fun), &mut env), Ok(()));
    let call = Expr::FunCall(String::from("double"), vec![int_expr(21)]);
    assert_eq!(eval_expr(&call, &env), Ok(int_val(42)));
}

#[test]
fn function_call_with_wrong_arity_fails() {
    let mut env = RollerEnv::new();
    let fun = RollerFun::new(vec![String::from("a")], Expr::Var(String::from("a")));
    eval_stmt(Stmt::FnDef(String::from("id_fun"), fun), &mut env).unwrap();
    let call = Expr::FunCall(String::from("id_fun"), vec![]);
    assert_eq!(
        eval_expr(&call, &env),
        Err(eval_err(EvalErr::ArityMismatch { expected: 1, found: 0 }))
    );
}

#[test]
fn undefined_function_fails() {
    let env = RollerEnv::new();
    let call = Expr::FunCall(String::from("ghostly"), vec![]);
    assert_eq!(
        eval_expr(&call, &env),
        Err(eval_err(EvalErr::UndefinedFunction(String::from("ghostly"))))
    );
}

#[test]
fn unbounded_recursion_hits_the_depth_limit() {
    let mut env = RollerEnv::new();
    let fun = RollerFun::new(vec![], Expr::FunCall(String::from("again"), vec![]));
    eval_stmt(Stmt::FnDef(String::from("again"), fun), &mut env).unwrap();
    let call = Expr::FunCall(String::from("again"), vec![]);
    assert_eq!(eval_expr(&call, &env), Err(eval_err(EvalErr::RecursionLimit)));
}

#[test]
fn assignment_shadows_function_of_same_name() {
    let mut env = RollerEnv::new();
    let fun = RollerFun::new(vec![], int_expr(1));
    eval_stmt(Stmt::FnDef(String::from("f"), fun), &mut env).unwrap();
    eval_stmt(Stmt::Assign(String::from("f"), int_expr(2)), &mut env).unwrap();
    assert_eq!(
        eval_expr(&Expr::FunCall(String::from("f"), vec![]), &env),
        Err(eval_err(EvalErr::UndefinedFunction(String::from("f"))))
    );
    assert_eq!(eval_expr(&Expr::Var(String::from("f")), &env), Ok(int_val(2)));
}

#[test]
fn cmd_statement_success_yields_no_value() {
    let mut env = RollerEnv::new();
    let cmd = Cmd::Statement(Stmt::Assign(String::from("x"), int_expr(1)));
    assert_eq!(eval_cmd(cmd, &mut env), None);
}

#[test]
fn cmd_expression_success_yields_a_value() {
    let mut env = RollerEnv::new();
    let cmd = Cmd::Expression(int_expr(9));
    assert_eq!(eval_cmd(cmd, &mut env), Some(Ok(int_val(9))));
}

#[test]
fn cmd_failures_yield_errors() {
    let mut env = RollerEnv::new();
    let bad_stmt = Cmd::Statement(Stmt::Run(String::from("p")));
    assert_eq!(eval_cmd(bad_stmt, &mut env), Some(Err(eval_err(EvalErr::Unimplemented))));
    let bad_expr = Cmd::Expression(Expr::Var(String::from("y")));
    assert_eq!(
        eval_cmd(bad_expr, &mut env),
        Some(Err(eval_err(EvalErr::UndefinedVariable(String::from("y")))))
    );
}

#[test]
fn expression_evaluation_leaves_the_environment_alone() {
    let env = RollerEnv::new();
    let e = op(InfixOp::Dice, Some(int_expr(3)), Some(int_expr(100)));
    // the immutable view draws from a fixed position of the dice stream
    assert_eq!(eval_expr(&e, &env), eval_expr(&e, &env));
}

#[test]
fn cmd_advances_the_dice_stream() {
    let mut env = RollerEnv::new();
    let before = env.rng;
    let cmd = Cmd::Expression(op(InfixOp::Dice, Some(int_expr(1)), Some(int_expr(6))));
    assert!(matches!(eval_cmd(cmd, &mut env), Some(Ok(_))));
    assert_ne!(env.rng, before);
}

#[test]
fn seeded_environments_roll_alike() {
    let env1 = RollerEnv::with_seed(12345);
    let env2 = RollerEnv::with_seed(12345);
    let e = op(InfixOp::Dice, Some(int_expr(5)), Some(int_expr(20)));
    assert_eq!(eval_expr(&e, &env1), eval_expr(&e, &env2));
}

#[test]
fn roller_fun_new_keeps_its_parts() {
    let f = RollerFun::new(vec![String::from("a")], int_expr(1));
    assert_eq!(f.params, vec![String::from("a")]);
    assert_eq!(f.body, int_expr(1));
}
