//! The runtime value system of the language.
//!
//! A [`Value`] is either an integer-typed number or a list of values.  Its
//! mathematical shape is the spec-level [`ValModel`], which replaces every
//! vector by a sequence; every contract of the evaluator speaks of models.
//! The arithmetic the evaluator delegates here is checked: a result outside
//! the `i64` range is an overflow error, never a wrap or a panic.

use vstd::prelude::*;
use vstd::arithmetic::power::pow;
use vstd::math::abs;
use crate::error::{EvalErr, ParseResult, RollerErr};

verus! {

/// A numeric value, tagged with its numeric kind.  The core language keeps
/// a single integer kind.
#[derive(Debug, PartialEq, Eq, Clone, Copy, Structural)]
pub enum NumType {
    Int(i64),
}

/// A runtime value: a number or a list of values.
#[derive(Debug, PartialEq, Eq)]
pub enum Value {
    Num(NumType),
    List(Vec<Value>),
}

/// The spec-level shape of a [`Value`]: the same tree with sequences in
/// place of vectors.
pub enum ValModel {
    Int(i64),
    List(Seq<ValModel>),
}

/// The closed set of runtime types a value classifies to.
#[derive(Debug, PartialEq, Eq, Clone, Copy, Structural)]
pub enum RollerType {
    NumInt,
    List,
}

/// The runtime type of a value model.
pub open spec fn model_type(v: ValModel) -> RollerType {
    match v {
        ValModel::Int(_) => RollerType::NumInt,
        ValModel::List(_) => RollerType::List,
    }
}

impl Value {
    /// The mathematical shape of this value.
    pub open spec fn model(self) -> ValModel
        decreases self, 0int,
    {
        match self {
            Value::Num(NumType::Int(x)) => ValModel::Int(x),
            Value::List(items) => ValModel::List(models_from(items@, 0)),
        }
    }
}

/// The models of the elements of `s` from position `i` on.
pub open spec fn models_from(s: Seq<Value>, i: int) -> Seq<ValModel>
    decreases s, s.len() - i,
{
    if 0 <= i < s.len() {
        seq![s[i].model()] + models_from(s, i + 1)
    } else {
        Seq::empty()
    }
}

/// The models of a sequence of values, element by element.
pub open spec fn models_of(s: Seq<Value>) -> Seq<ValModel> {
    Seq::new(s.len(), |i: int| s[i].model())
}

/// The element-wise characterization of [`models_from`].
proof fn lemma_models_from(s: Seq<Value>, i: int)
    requires
        0 <= i <= s.len(),
    ensures
        models_from(s, i).len() == s.len() - i,
        forall|k: int| 0 <= k < s.len() - i ==> models_from(s, i)[k] == s[i + k].model(),
    decreases s.len() - i,
{
    if i < s.len() {
        lemma_models_from(s, i + 1);
    }
}

/// The model of a list value is the element-wise model of its items.
pub proof fn lemma_models_of(s: Seq<Value>)
    ensures
        models_from(s, 0) == models_of(s),
{
    lemma_models_from(s, 0);
    assert(models_from(s, 0) =~= models_of(s));
}

impl RollerType {
    /// Classifies a value against the closed set of runtime types.
    pub fn of(v: &Value) -> (t: RollerType)
        ensures
            t == model_type(v.model()),
    {
        match v {
            Value::Num(_) => RollerType::NumInt,
            Value::List(_) => RollerType::List,
        }
    }
}

impl Clone for Value {
    /// Cloning preserves the mathematical shape of the value.
    #[verifier::loop_isolation(false)]
    fn clone(&self) -> (r: Value)
        ensures
            r.model() == self.model(),
        decreases *self,
    {
        match self {
            Value::Num(n) => Value::Num(*n),
            Value::List(items) => {
                let mut out: Vec<Value> = Vec::new();
                let mut i: usize = 0;
                while i < items.len()
                    invariant
                        i <= items.len(),
                        out@.len() == i as int,
                        forall|j: int| 0 <= j < i ==> out@[j].model() == items@[j].model(),
                    decreases items.len() - i,
                {
                    proof {
                        assert(decreases_to!(*self => (*self)->List_0));
                        assert(decreases_to!(*items => items[i as int]));
                        assert(decreases_to!(*self => items@[i as int]));
                    }
                    out.push(items[i].clone());
                    i = i + 1;
                }
                proof {
                    lemma_models_of(out@);
                    lemma_models_of(items@);
                    assert(models_of(out@) =~= models_of(items@));
                }
                Value::List(out)
            },
        }
    }
}

/// The evaluation-tier error for a value of the wrong runtime type where an
/// integer number was required.
pub open spec fn spec_type_err(found: ValModel) -> RollerErr {
    RollerErr::EvalError(
        EvalErr::ExpectedType { expected: RollerType::NumInt, found: model_type(found) },
    )
}

/// The evaluation-tier error for an arithmetic result outside `i64`.
pub open spec fn spec_overflow_err() -> RollerErr {
    RollerErr::EvalError(EvalErr::Overflow)
}

/// Addition on value models: defined on two integers, checked against the
/// `i64` range; a list operand is a type error, the left one reported first.
pub open spec fn spec_add(l: ValModel, r: ValModel) -> Result<ValModel, RollerErr> {
    match (l, r) {
        (ValModel::Int(a), ValModel::Int(b)) => if i64::MIN <= a + b <= i64::MAX {
            Ok(ValModel::Int((a + b) as i64))
        } else {
            Err(spec_overflow_err())
        },
        (ValModel::List(_), _) => Err(spec_type_err(l)),
        (_, ValModel::List(_)) => Err(spec_type_err(r)),
    }
}

/// Subtraction on value models; conventions as for [`spec_add`].
pub open spec fn spec_sub(l: ValModel, r: ValModel) -> Result<ValModel, RollerErr> {
    match (l, r) {
        (ValModel::Int(a), ValModel::Int(b)) => if i64::MIN <= a - b <= i64::MAX {
            Ok(ValModel::Int((a - b) as i64))
        } else {
            Err(spec_overflow_err())
        },
        (ValModel::List(_), _) => Err(spec_type_err(l)),
        (_, ValModel::List(_)) => Err(spec_type_err(r)),
    }
}

/// Negation on a value model.
pub open spec fn spec_neg(v: ValModel) -> Result<ValModel, RollerErr> {
    match v {
        ValModel::Int(a) => if a == i64::MIN {
            Err(spec_overflow_err())
        } else {
            Ok(ValModel::Int((-a) as i64))
        },
        ValModel::List(_) => Err(spec_type_err(v)),
    }
}

/// Multiplication on value models; conventions as for [`spec_add`].
pub open spec fn spec_mul(l: ValModel, r: ValModel) -> Result<ValModel, RollerErr> {
    match (l, r) {
        (ValModel::Int(a), ValModel::Int(b)) => if i64::MIN <= a * b <= i64::MAX {
            Ok(ValModel::Int((a * b) as i64))
        } else {
            Err(spec_overflow_err())
        },
        (ValModel::List(_), _) => Err(spec_type_err(l)),
        (_, ValModel::List(_)) => Err(spec_type_err(r)),
    }
}

/// Truncating division, as the machine division of `i64` behaves: the
/// quotient of the magnitudes, with the sign of the exact quotient.
pub open spec fn spec_div_int(x: int, d: int) -> int {
    if x == 0 {
        0
    } else if x > 0 && d > 0 {
        x / d
    } else if x < 0 && d < 0 {
        ((x * -1) / (d * -1))
    } else if x < 0 {
        ((x * -1) / d) * -1
    } else {
        (x / (d * -1)) * -1
    }
}

/// Division on value models: zero divisors are an error of their own, and
/// the one out-of-range quotient is an overflow error.
pub open spec fn spec_div(l: ValModel, r: ValModel) -> Result<ValModel, RollerErr> {
    match (l, r) {
        (ValModel::Int(a), ValModel::Int(b)) => if b == 0 {
            Err(RollerErr::EvalError(EvalErr::DivisionByZero))
        } else if i64::MIN <= spec_div_int(a as int, b as int) <= i64::MAX {
            Ok(ValModel::Int(spec_div_int(a as int, b as int) as i64))
        } else {
            Err(spec_overflow_err())
        },
        (ValModel::List(_), _) => Err(spec_type_err(l)),
        (_, ValModel::List(_)) => Err(spec_type_err(r)),
    }
}

/// Exponentiation on value models: the exponent must be a non-negative
/// integer, and the mathematical power must fit in `i64`.
pub open spec fn spec_pow(l: ValModel, r: ValModel) -> Result<ValModel, RollerErr> {
    match (l, r) {
        (ValModel::Int(a), ValModel::Int(b)) => if b < 0 {
            Err(RollerErr::EvalError(EvalErr::ExpectedPosNum(NumType::Int(b))))
        } else if i64::MIN <= pow(a as int, b as nat) <= i64::MAX {
            Ok(ValModel::Int(pow(a as int, b as nat) as i64))
        } else {
            Err(spec_overflow_err())
        },
        (ValModel::List(_), _) => Err(spec_type_err(l)),
        (_, ValModel::List(_)) => Err(spec_type_err(r)),
    }
}

/// The model of an evaluation result: values are abstracted, errors kept.
pub open spec fn res_model(r: Result<Value, RollerErr>) -> Result<ValModel, RollerErr> {
    match r {
        Ok(v) => Ok(v.model()),
        Err(e) => Err(e),
    }
}

impl Value {
    /// Checked addition, delegated to by the binary-operator reducer.
    pub fn add(self, other: Value) -> (r: ParseResult<Value>)
        ensures
            res_model(r) == spec_add(self.model(), other.model()),
    {
        match (self, other) {
            (Value::Num(NumType::Int(a)), Value::Num(NumType::Int(b))) => match a.checked_add(
                b,
            ) {
                Some(c) => Ok(Value::Num(NumType::Int(c))),
                None => Err(spec_overflow_err_exec()),
            },
            (Value::List(_), _) => Err(type_err_exec()),
            (_, Value::List(_)) => Err(type_err_exec()),
        }
    }

    /// Checked subtraction.
    pub fn sub(self, other: Value) -> (r: ParseResult<Value>)
        ensures
            res_model(r) == spec_sub(self.model(), other.model()),
    {
        match (self, other) {
            (Value::Num(NumType::Int(a)), Value::Num(NumType::Int(b))) => match a.checked_sub(
                b,
            ) {
                Some(c) => Ok(Value::Num(NumType::Int(c))),
                None => Err(spec_overflow_err_exec()),
            },
            (Value::List(_), _) => Err(type_err_exec()),
            (_, Value::List(_)) => Err(type_err_exec()),
        }
    }

    /// Checked negation.
    pub fn neg(self) -> (r: ParseResult<Value>)
        ensures
            res_model(r) == spec_neg(self.model()),
    {
        match self {
            Value::Num(NumType::Int(a)) => if a == i64::MIN {
                Err(spec_overflow_err_exec())
            } else {
                Ok(Value::Num(NumType::Int(-a)))
            },
            Value::List(_) => Err(type_err_exec()),
        }
    }

    /// Checked multiplication.
    pub fn mul(self, other: Value) -> (r: ParseResult<Value>)
        ensures
            res_model(r) == spec_mul(self.model(), other.model()),
    {
        match (self, other) {
            (Value::Num(NumType::Int(a)), Value::Num(NumType::Int(b))) => match a.checked_mul(
                b,
            ) {
                Some(c) => Ok(Value::Num(NumType::Int(c))),
                None => Err(spec_overflow_err_exec()),
            },
            (Value::List(_), _) => Err(type_err_exec()),
            (_, Value::List(_)) => Err(type_err_exec()),
        }
    }

    /// Checked division.
    pub fn div(self, other: Value) -> (r: ParseResult<Value>)
        ensures
            res_model(r) == spec_div(self.model(), other.model()),
    {
        match (self, other) {
            (Value::Num(NumType::Int(a)), Value::Num(NumType::Int(b))) => if b == 0 {
                Err(RollerErr::EvalError(EvalErr::DivisionByZero))
            } else {
                match a.checked_div(b) {
                    Some(c) => Ok(Value::Num(NumType::Int(c))),
                    None => Err(spec_overflow_err_exec()),
                }
            },
            (Value::List(_), _) => Err(type_err_exec()),
            (_, Value::List(_)) => Err(type_err_exec()),
        }
    }

    /// Checked exponentiation with a non-negative integer exponent.
    pub fn pow(self, other: Value) -> (r: ParseResult<Value>)
        ensures
            res_model(r) == spec_pow(self.model(), other.model()),
    {
        match (self, other) {
            (Value::Num(NumType::Int(a)), Value::Num(NumType::Int(b))) => if b < 0 {
                Err(RollerErr::EvalError(EvalErr::ExpectedPosNum(NumType::Int(b))))
            } else {
                match pow_checked(a, b) {
                    Some(c) => Ok(Value::Num(NumType::Int(c))),
                    None => Err(spec_overflow_err_exec()),
                }
            },
            (Value::List(_), _) => Err(type_err_exec()),
            (_, Value::List(_)) => Err(type_err_exec()),
        }
    }
}

/// The exec form of the type-mismatch error reported by arithmetic: the
/// only non-integer runtime type is the list type.
fn type_err_exec() -> (e: RollerErr)
    ensures
        e == RollerErr::EvalError(
            EvalErr::ExpectedType { expected: RollerType::NumInt, found: RollerType::List },
        ),
{
    RollerErr::EvalError(
        EvalErr::ExpectedType { expected: RollerType::NumInt, found: RollerType::List },
    )
}

/// The exec form of the overflow error.
fn spec_overflow_err_exec() -> (e: RollerErr)
    ensures
        e == spec_overflow_err(),
{
    RollerErr::EvalError(EvalErr::Overflow)
}

/// `pow` of a non-negative exponent never shrinks in magnitude while the
/// base has magnitude at least one.
proof fn lemma_pow_mag_mono(b: int, i: nat, j: nat)
    requires
        b >= 1 || b <= -1,
        i <= j,
    ensures
        abs(pow(b, i)) <= abs(pow(b, j)),
    decreases j - i,
{
    reveal(pow);
    if i < j {
        lemma_pow_mag_mono(b, i, (j - 1) as nat);
        assert(pow(b, j) == b * pow(b, (j - 1) as nat));
        assert(abs(pow(b, (j - 1) as nat)) <= abs(b * pow(b, (j - 1) as nat)))
            by (nonlinear_arith)
            requires
                b >= 1 || b <= -1,
        ;
    }
}

/// With a base of magnitude at least two, one more multiplication at least
/// doubles the magnitude of the power.
proof fn lemma_pow_mag_doubles(b: int, i: nat, j: nat)
    requires
        b >= 2 || b <= -2,
        i < j,
    ensures
        2 * abs(pow(b, i)) <= abs(pow(b, j)),
{
    reveal(pow);
    lemma_pow_mag_mono(b, i, (j - 1) as nat);
    assert(pow(b, j) == b * pow(b, (j - 1) as nat));
    assert(2 * abs(pow(b, (j - 1) as nat)) <= abs(b * pow(b, (j - 1) as nat)))
        by (nonlinear_arith)
        requires
            b >= 2 || b <= -2,
    ;
}

/// `pow` of minus one alternates between one and minus one with the parity
/// of the exponent.
proof fn lemma_pow_neg_one(e: nat)
    ensures
        pow(-1, e) == if e % 2 == 0 {
            1int
        } else {
            -1int
        },
    decreases e,
{
    reveal(pow);
    if e > 0 {
        lemma_pow_neg_one((e - 1) as nat);
    }
}

/// `pow` of zero is one at exponent zero and zero afterwards.
proof fn lemma_pow_zero(e: nat)
    ensures
        pow(0, e) == if e == 0 {
            1int
        } else {
            0int
        },
    decreases e,
{
    reveal(pow);
    if e > 0 {
        lemma_pow_zero((e - 1) as nat);
    }
}

/// `pow` of one is always one.
proof fn lemma_pow_one(e: nat)
    ensures
        pow(1, e) == 1,
    decreases e,
{
    reveal(pow);
    if e > 0 {
        lemma_pow_one((e - 1) as nat);
    }
}

/// Computes `base` to the power `exp`, or `None` where the mathematical
/// power falls outside the `i64` range.
fn pow_checked(base: i64, exp: i64) -> (r: Option<i64>)
    requires
        exp >= 0,
    ensures
        (match r {
            Some(c) => c == pow(base as int, exp as nat),
            None => !(i64::MIN <= pow(base as int, exp as nat) <= i64::MAX),
        }),
{
    if base == 0 {
        proof {
            lemma_pow_zero(exp as nat);
        }
        if exp == 0 {
            Some(1)
        } else {
            Some(0)
        }
    } else if base == 1 {
        proof {
            lemma_pow_one(exp as nat);
        }
        Some(1)
    } else if base == -1 {
        proof {
            lemma_pow_neg_one(exp as nat);
        }
        if exp % 2 == 0 {
            Some(1)
        } else {
            Some(-1)
        }
    } else {
        let mut acc: i64 = 1;
        let mut k: i64 = 0;
        proof {
            reveal(pow);
        }
        while k < exp
            invariant
                0 <= k <= exp,
                base >= 2 || base <= -2,
                acc == pow(base as int, k as nat),
            decreases exp - k,
        {
            match acc.checked_mul(base) {
                Some(a) => {
                    proof {
                        reveal(pow);
                        assert(pow(base as int, (k + 1) as nat) == base * pow(
                            base as int,
                            k as nat,
                        ));
                        assert(base as int * acc as int == acc as int * base as int)
                            by (nonlinear_arith);
                    }
                    acc = a;
                },
                None => {
                    proof {
                        reveal(pow);
                        let overflowed = acc as int * base as int;
                        assert(pow(base as int, (k + 1) as nat) == base * pow(
                            base as int,
                            k as nat,
                        ));
                        assert(base as int * acc as int == acc as int * base as int)
                            by (nonlinear_arith);
                        assert(abs(overflowed) >= i64::MAX + 1);
                        if k + 1 < exp {
                            lemma_pow_mag_doubles(base as int, (k + 1) as nat, exp as nat);
                        } else {
                            lemma_pow_mag_mono(base as int, (k + 1) as nat, exp as nat);
                        }
                    }
                    return None;
                },
            }
            k = k + 1;
        }
        Some(acc)
    }
}

} // verus!
