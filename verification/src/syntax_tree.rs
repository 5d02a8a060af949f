//! The abstract syntax tree of the dice language.
//!
//! A [`Cmd`] is the top-level unit fed to the command dispatcher: either a
//! [`Stmt`], which mutates the environment and yields no value, or an
//! [`Expr`], which produces a value and performs no mutation.  The parser is
//! the sole producer of these trees and the evaluator their sole consumer;
//! nothing mutates a tree after construction.

use vstd::prelude::*;
use crate::values::Value;

verus! {

/// An identifier of the language: a variable, function or parameter name.
pub type Ident = String;

/// A command given to the interpreter.
#[derive(Debug, PartialEq)]
pub enum Cmd {
    Statement(Stmt),
    Expression(Expr),
}

/// A statement: a command that changes the environment and returns no value.
///
/// `Run` and `Save` are structurally defined but have no evaluation
/// semantics yet; reaching them is an unimplemented-feature error.
#[derive(Debug, PartialEq)]
pub enum Stmt {
    Assign(Ident, Expr),
    FnDef(Ident, RollerFun),
    Delete(Ident),
    Clear,
    Run(String),
    Save(String),
}

/// An expression: a command that returns a value and changes nothing.
#[derive(Debug, PartialEq)]
pub enum Expr {
    /// A scalar value.
    Val(Value),
    /// A list of expressions.
    List(Vec<Expr>),
    /// A numerical range; structurally defined, not yet evaluated.
    Range { start: Box<Expr>, step: Option<Box<Expr>>, end: Box<Expr> },
    /// A variable.
    Var(Ident),
    /// A function call.
    FunCall(Ident, Vec<Expr>),
    /// An operator application.  The operand slots are independently
    /// optional: unary-prefix forms leave the left slot empty, and the dice
    /// operator gives an absent slot a default of one.
    Op { op: InfixOp, left: Option<Box<Expr>>, right: Option<Box<Expr>> },
    /// A list filtering; structurally defined, not yet evaluated.
    Filter { list: Box<Expr>, pred: Pred },
}

/// A predicate pattern for the filtering expression.
#[derive(Debug, PartialEq)]
pub enum Pred {
    /// Indexing predicate, like in C-like languages.
    Index(Box<Expr>),
    /// A comparison predicate.
    Cmp { op: CmpOp, right: Box<Expr> },
    /// A logical connective with two arguments.
    LogConn { op: LogConnOp, left: Option<Box<Pred>>, right: Box<Pred> },
    /// A list pattern predicate; matches lists.
    List(Option<Box<Pred>>),
}

/// The closed set of infix operators.
#[derive(Debug, PartialEq, Eq, Clone, Copy, Hash, Structural)]
pub enum InfixOp {
    Dice,
    Plus,
    Minus,
    Mul,
    Div,
    Pow,
}

impl InfixOp {
    /// The canonical one-character rendering of the operator.
    pub open spec fn spec_symbol(self) -> Seq<char> {
        match self {
            InfixOp::Dice => "d"@,
            InfixOp::Plus => "+"@,
            InfixOp::Minus => "-"@,
            InfixOp::Mul => "*"@,
            InfixOp::Div => "/"@,
            InfixOp::Pow => "^"@,
        }
    }

    /// Returns the canonical textual form of the operator.
    pub fn symbol(&self) -> (s: &'static str)
        ensures
            s@ == self.spec_symbol(),
    {
        match self {
            InfixOp::Dice => "d",
            InfixOp::Plus => "+",
            InfixOp::Minus => "-",
            InfixOp::Mul => "*",
            InfixOp::Div => "/",
            InfixOp::Pow => "^",
        }
    }
}

/// An operator usable in a predicate position: either a comparison or a
/// logical connective.
#[derive(Debug, PartialEq, Eq, Clone, Copy, Structural)]
pub enum PredOp {
    Cmp(CmpOp),
    LogConn(LogConnOp),
}

/// A comparison operator.
#[derive(Debug, PartialEq, Eq, Clone, Copy, Structural)]
pub enum CmpOp {
    Eq,
    Ineq,
    Gt,
    Lt,
    Gteq,
    Lteq,
}

/// A logical connective operator.
#[derive(Debug, PartialEq, Eq, Clone, Copy, Structural)]
pub enum LogConnOp {
    And,
    Or,
    Xor,
    Not,
}

/// A named function value: an ordered sequence of parameter identifiers and
/// a single expression body.  Immutable after construction; owned by the
/// environment's function registry once declared.
#[derive(Debug, PartialEq)]
pub struct RollerFun {
    pub params: Vec<Ident>,
    pub body: Expr,
}

impl RollerFun {
    /// The only exposed constructor for function values.  Parameter-name
    /// uniqueness is not validated here; the environment is responsible for
    /// any such validation at call time.
    pub fn new(params: Vec<Ident>, body: Expr) -> (f: RollerFun)
        ensures
            f.params == params,
            f.body == body,
    {
        RollerFun { params: params, body: body }
    }
}

} // verus!
