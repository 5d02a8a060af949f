//! The two-tier error taxonomy of the interpreter.
//!
//! Syntax-tier errors ([`SynErr`]) describe structural problems found while
//! building a command, before evaluation ever runs.  Evaluation-tier errors
//! ([`EvalErr`]) describe semantic problems discovered while reducing a
//! well-formed tree.  The two tiers are never conflated: [`RollerErr`]
//! combines them while preserving the ability to tell "never reached
//! evaluation" from "failed during evaluation".  Every variant renders to a
//! stable one-line description; no evaluation path panics.

use vstd::prelude::*;
use vstd::string::StringExecFns;
use crate::syntax_tree::InfixOp;
use crate::values::{NumType, RollerType};

verus! {

/// The side of an infix operator an operand belongs to.
#[derive(Debug, PartialEq, Eq, Clone, Copy, Structural)]
pub enum Side {
    Left,
    Right,
}

/// A syntax-tier error: a structural problem found while a command is built.
/// The evaluator itself never produces these; they are part of the result
/// type the interpreter exposes to its caller.
#[derive(Debug, PartialEq, Eq, Clone)]
pub enum SynErr {
    /// An unexpected lexical token, carried in its textual form.
    UnexpectedToken(String),
    InvalidFunctionCall,
    UnexpectedEnd,
    MalformedAST,
    EmptyCommand,
    TooManyParameters,
    Unimplemented,
}

/// The stable description of a syntax-tier error.
pub open spec fn spec_syn_description(e: SynErr) -> Seq<char> {
    match e {
        SynErr::UnexpectedToken(_) => "unexpected token"@,
        SynErr::InvalidFunctionCall => "invalid function call"@,
        SynErr::UnexpectedEnd => "unexpected end of input"@,
        SynErr::MalformedAST => "tried to create a malformed command"@,
        SynErr::EmptyCommand => "tried to create an empty command"@,
        SynErr::TooManyParameters => "too many parameters"@,
        SynErr::Unimplemented => "unimplemented feature"@,
    }
}

impl SynErr {
    /// A short, stable description of the error.
    pub fn description(&self) -> (s: &'static str)
        ensures
            s@ == spec_syn_description(*self),
    {
        match self {
            SynErr::UnexpectedToken(_) => "unexpected token",
            SynErr::InvalidFunctionCall => "invalid function call",
            SynErr::UnexpectedEnd => "unexpected end of input",
            SynErr::MalformedAST => "tried to create a malformed command",
            SynErr::EmptyCommand => "tried to create an empty command",
            SynErr::TooManyParameters => "too many parameters",
            SynErr::Unimplemented => "unimplemented feature",
        }
    }

    /// A one-line, user-facing message.  For an unexpected token the
    /// message carries the token's textual form after the description.
    pub fn render(&self) -> (s: String)
        ensures
            (match *self {
                SynErr::UnexpectedToken(tk) => s@ == "unexpected token: "@ + tk@,
                _ => s@ == spec_syn_description(*self),
            }),
    {
        match self {
            SynErr::UnexpectedToken(tk) => {
                let mut out = String::new();
                out.append("unexpected token: ");
                out.append(tk.as_str());
                out
            },
            _ => {
                let mut out = String::new();
                out.append(self.description());
                out
            },
        }
    }
}

/// An evaluation-tier error: a semantic problem discovered while reducing a
/// well-formed tree.  Identifier-lookup, call and numeric failures belong to
/// the environment and value collaborators and are surfaced here.
#[derive(Debug, PartialEq, Eq, Clone)]
pub enum EvalErr {
    /// An operator was applied without a required operand on the given side.
    MissingOpArg { op: InfixOp, side: Side },
    /// A strictly binary operator was applied with both operand slots empty.
    NoOpArgs(InfixOp),
    /// A value of one runtime type stood where another was required.
    ExpectedType { expected: RollerType, found: RollerType },
    /// A numeric argument was negative where a non-negative one is required.
    ExpectedPosNum(NumType),
    /// A variable lookup found no binding under the identifier.
    UndefinedVariable(String),
    /// A function call found no definition under the identifier.
    UndefinedFunction(String),
    /// A function was called with the wrong number of arguments.
    ArityMismatch { expected: usize, found: usize },
    /// A division had zero as its divisor.
    DivisionByZero,
    /// An arithmetic result fell outside the representable integer range.
    Overflow,
    /// Nested function calls exceeded the evaluator's fixed depth bound.
    RecursionLimit,
    /// A structurally defined form with no evaluation semantics was reached.
    Unimplemented,
}

/// The stable description of an evaluation-tier error.
pub open spec fn spec_eval_description(e: EvalErr) -> Seq<char> {
    match e {
        EvalErr::MissingOpArg { op: _, side: Side::Left } => "missing left operand"@,
        EvalErr::MissingOpArg { op: _, side: Side::Right } => "missing right operand"@,
        EvalErr::NoOpArgs(_) => "no operands given"@,
        EvalErr::ExpectedType { expected: _, found: _ } => "unexpected value type"@,
        EvalErr::ExpectedPosNum(_) => "expected a non-negative number"@,
        EvalErr::UndefinedVariable(_) => "undefined variable"@,
        EvalErr::UndefinedFunction(_) => "undefined function"@,
        EvalErr::ArityMismatch { expected: _, found: _ } => "wrong number of arguments"@,
        EvalErr::DivisionByZero => "division by zero"@,
        EvalErr::Overflow => "arithmetic overflow"@,
        EvalErr::RecursionLimit => "call depth limit exceeded"@,
        EvalErr::Unimplemented => "unimplemented feature"@,
    }
}

impl EvalErr {
    /// A short, stable description of the error.
    pub fn description(&self) -> (s: &'static str)
        ensures
            s@ == spec_eval_description(*self),
    {
        match self {
            EvalErr::MissingOpArg { op: _, side: Side::Left } => "missing left operand",
            EvalErr::MissingOpArg { op: _, side: Side::Right } => "missing right operand",
            EvalErr::NoOpArgs(_) => "no operands given",
            EvalErr::ExpectedType { expected: _, found: _ } => "unexpected value type",
            EvalErr::ExpectedPosNum(_) => "expected a non-negative number",
            EvalErr::UndefinedVariable(_) => "undefined variable",
            EvalErr::UndefinedFunction(_) => "undefined function",
            EvalErr::ArityMismatch { expected: _, found: _ } => "wrong number of arguments",
            EvalErr::DivisionByZero => "division by zero",
            EvalErr::Overflow => "arithmetic overflow",
            EvalErr::RecursionLimit => "call depth limit exceeded",
            EvalErr::Unimplemented => "unimplemented feature",
        }
    }

    /// A one-line, user-facing message.  Errors that carry an identifier
    /// append it after the description.
    pub fn render(&self) -> (s: String)
        ensures
            (match *self {
                EvalErr::UndefinedVariable(id) => s@ == "undefined variable: "@ + id@,
                EvalErr::UndefinedFunction(id) => s@ == "undefined function: "@ + id@,
                _ => s@ == spec_eval_description(*self),
            }),
    {
        match self {
            EvalErr::UndefinedVariable(id) => {
                let mut out = String::new();
                out.append("undefined variable: ");
                out.append(id.as_str());
                out
            },
            EvalErr::UndefinedFunction(id) => {
                let mut out = String::new();
                out.append("undefined function: ");
                out.append(id.as_str());
                out
            },
            _ => {
                let mut out = String::new();
                out.append(self.description());
                out
            },
        }
    }
}

/// The top-level error type: a syntax-tier or an evaluation-tier failure.
#[derive(Debug, PartialEq, Eq, Clone)]
pub enum RollerErr {
    SynError(SynErr),
    EvalError(EvalErr),
}

impl RollerErr {
    /// A short, stable description of the wrapped error.
    pub fn description(&self) -> (s: &'static str)
        ensures
            (match *self {
                RollerErr::SynError(e) => s@ == spec_syn_description(e),
                RollerErr::EvalError(e) => s@ == spec_eval_description(e),
            }),
    {
        match self {
            RollerErr::SynError(e) => e.description(),
            RollerErr::EvalError(e) => e.description(),
        }
    }
}

/// The result shape every interpreter stage returns.
pub type ParseResult<T> = Result<T, RollerErr>;

} // verus!
