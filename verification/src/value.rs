//! The values that evaluation produces.

use vstd::prelude::*;
use crate::err::{lift, may_return, primitive, EvalError, IntErr};
use crate::interrupt::Interrupt;
use crate::num::{Base, FormattingStyle, Number};

verus! {

/// A builtin function, not yet applied to an argument.
#[derive(Clone, Copy, Debug, PartialEq, Eq, Structural)]
pub enum Function {
    Sqrt,
    Cbrt,
    Abs,
    Sin,
    Cos,
    Tan,
    Asin,
    Acos,
    Atan,
    Sinh,
    Cosh,
    Tanh,
    Asinh,
    Acosh,
    Atanh,
    Ln,
    Log2,
    Log10,
    Exp,
    Approximately,
    Base,
}

/// The result of evaluating an expression.
#[derive(Clone, Debug, PartialEq)]
pub enum Value<N> {
    /// A number.
    Num(N),
    /// A builtin function.
    Func(Function),
    /// A request for a rendering style.
    Format(FormattingStyle),
    /// The precision marker: a request for a fixed number of digits.
    Dp,
    /// A request for a rendering base.
    Base(Base),
}

/// What [`Value::expect_num`] returns.
pub open spec fn expect_num_spec<N>(v: Value<N>) -> Result<N, EvalError> {
    match v {
        Value::Num(n) => Ok(n),
        _ => Err(EvalError::ExpectedNumber),
    }
}

/// The value of the function `f` at the number `x`, when nothing interrupts.
/// Marking a number as approximate cannot fail; every other function is the
/// number's own primitive.
pub open spec fn call_function_spec<N: Number>(f: Function, x: N) -> Result<Value<N>, EvalError> {
    if f == Function::Approximately {
        Ok(Value::Num(x.make_approximate_spec()))
    } else {
        primitive(x.call_spec(f))
    }
}

/// What [`Value::apply`] returns when nothing interrupts.
///
/// A function on the left is called on the number on the right, unless
/// multiplication is forced. A number on the left is multiplied by the
/// number on the right, unless multiplication is not allowed.
pub open spec fn apply_spec<N: Number>(
    left: Value<N>,
    right: Value<N>,
    allow_multiplication: bool,
    force_multiplication: bool,
) -> Result<Value<N>, EvalError> {
    match left {
        Value::Func(f) => if force_multiplication {
            Err(EvalError::ExpectedNumber)
        } else {
            match right {
                Value::Num(x) => call_function_spec(f, x),
                _ => Err(EvalError::ExpectedNumber),
            }
        },
        Value::Num(n) => if !allow_multiplication && !force_multiplication {
            Err(EvalError::NotAFunction)
        } else {
            match right {
                Value::Num(m) => match n.mul_spec(m) {
                    Ok(p) => Ok(Value::Num(p)),
                    Err(msg) => Err(EvalError::Primitive(msg)),
                },
                _ => Err(EvalError::ExpectedNumber),
            }
        },
        _ => if allow_multiplication || force_multiplication {
            Err(EvalError::ExpectedNumber)
        } else {
            Err(EvalError::NotAFunction)
        },
    }
}

/// Calls the function `f` on the number `x`. The number's primitive may
/// notice a request for cancellation; nothing else here polls for one.
pub fn call_function<N: Number, I: Interrupt>(f: Function, x: N, cancel: &I) -> (r: Result<
    Value<N>,
    IntErr<EvalError>,
>)
    ensures
        may_return(cancel.requested(), call_function_spec(f, x), r),
{
    match f {
        Function::Approximately => Ok(Value::Num(x.make_approximate())),
        _ => match x.call(f, cancel) {
            Ok(v) => Ok(v),
            Err(e) => Err(e.into_eval()),
        },
    }
}

impl<N: Number> Value<N> {
    /// Whether this value is a number.
    pub open spec fn is_num(self) -> bool {
        self is Num
    }

    /// Whether this value is a function.
    pub open spec fn is_func(self) -> bool {
        self is Func
    }

    /// A copy of the value.
    pub fn duplicate(&self) -> (r: Self)
        ensures
            r == *self,
    {
        match self {
            Value::Num(n) => Value::Num(n.duplicate()),
            Value::Func(f) => Value::Func(*f),
            Value::Format(style) => Value::Format(*style),
            Value::Dp => Value::Dp,
            Value::Base(base) => Value::Base(*base),
        }
    }

    /// The number that this value is, or a type mismatch where it is none.
    pub fn expect_num(self) -> (r: Result<N, IntErr<EvalError>>)
        ensures
            r == lift(expect_num_spec(self)),
    {
        match self {
            Value::Num(n) => Ok(n),
            _ => Err(IntErr::Error(EvalError::ExpectedNumber)),
        }
    }

    /// Applies this value to `other`: a call, or a multiplication, as the two
    /// flags and the kind of this value decide.
    pub fn apply<I: Interrupt>(
        self,
        other: Self,
        allow_multiplication: bool,
        force_multiplication: bool,
        cancel: &I,
    ) -> (r: Result<Self, IntErr<EvalError>>)
        ensures
            may_return(
                cancel.requested(),
                apply_spec(self, other, allow_multiplication, force_multiplication),
                r,
            ),
    {
        match self {
            Value::Func(f) => {
                if force_multiplication {
                    return Err(IntErr::Error(EvalError::ExpectedNumber));
                }
                let x = other.expect_num()?;
                call_function(f, x, cancel)
            },
            Value::Num(n) => {
                if !allow_multiplication && !force_multiplication {
                    return Err(IntErr::Error(EvalError::NotAFunction));
                }
                let m = other.expect_num()?;
                match n.mul(m, cancel) {
                    Ok(p) => Ok(Value::Num(p)),
                    Err(e) => Err(e.into_eval()),
                }
            },
            _ => {
                if allow_multiplication || force_multiplication {
                    Err(IntErr::Error(EvalError::ExpectedNumber))
                } else {
                    Err(IntErr::Error(EvalError::NotAFunction))
                }
            },
        }
    }
}

} // verus!
