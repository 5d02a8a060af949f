use roller_core::error::{EvalErr, RollerErr, SynErr};
use roller_core::syntax_tree::InfixOp;

#[test]
fn syntax_errors_have_stable_descriptions() {
    assert_eq!(SynErr::UnexpectedToken(String::from("%")).description(), "unexpected token");
    assert_eq!(SynErr::InvalidFunctionCall.description(), "invalid function call");
    assert_eq!(SynErr::UnexpectedEnd.description(), "unexpected end of input");
    assert_eq!(SynErr::MalformedAST.description(), "tried to create a malformed command");
    assert_eq!(SynErr::EmptyCommand.description(), "tried to create an empty command");
    assert_eq!(SynErr::TooManyParameters.description(), "too many parameters");
    assert_eq!(SynErr::Unimplemented.description(), "unimplemented feature");
}

#[test]
fn syntax_error_render_carries_the_token() {
    assert_eq!(SynErr::UnexpectedToken(String::from("%")).render(), "unexpected token: %");
    assert_eq!(SynErr::EmptyCommand.render(), "tried to create an empty command");
}

#[test]
fn eval_errors_have_stable_descriptions() {
    assert_eq!(EvalErr::DivisionByZero.description(), "division by zero");
    assert_eq!(EvalErr::Overflow.description(), "arithmetic overflow");
    assert_eq!(EvalErr::RecursionLimit.description(), "call depth limit exceeded");
    assert_eq!(EvalErr::NoOpArgs(InfixOp::Mul).description(), "no operands given");
    assert_eq!(
        EvalErr::UndefinedVariable(String::from("x")).description(),
        "undefined variable"
    );
}

#[test]
fn eval_error_render_carries_the_identifier() {
    assert_eq!(
        EvalErr::UndefinedVariable(String::from("luck")).render(),
        "undefined variable: luck"
    );
    assert_eq!(
        EvalErr::UndefinedFunction(String::from("roll_all")).render(),
        "undefined function: roll_all"
    );
}

#[test]
fn top_level_error_delegates_its_description() {
    assert_eq!(
        RollerErr::SynError(SynErr::UnexpectedEnd).description(),
        "unexpected end of input"
    );
    assert_eq!(
        RollerErr::EvalError(EvalErr::DivisionByZero).description(),
        "division by zero"
    );
}

#[test]
fn operators_render_to_their_symbols() {
    assert_eq!(InfixOp::Dice.symbol(), "d");
    assert_eq!(InfixOp::Plus.symbol(), "+");
    assert_eq!(InfixOp::Minus.symbol(), "-");
    assert_eq!(InfixOp::Mul.symbol(), "*");
    assert_eq!(InfixOp::Div.symbol(), "/");
    assert_eq!(InfixOp::Pow.symbol(), "^");
}
