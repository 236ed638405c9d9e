//! The outcome protocol that every evaluation step follows: a value, a
//! domain error, or an interrupt.

use vstd::prelude::*;
use vstd::string::*;

verus! {

/// An error that cannot occur: no value of this type can be made.
#[derive(Clone, Copy, Debug, PartialEq, Eq)]
pub struct Never(core::convert::Infallible);

/// The failure half of an interruptible step: either the computation was
/// cancelled, or it failed with a domain error of type `E`.
#[derive(Clone, Debug, PartialEq, Eq)]
pub enum IntErr<E> {
    Interrupt,
    Error(E),
}

/// Why an evaluation failed, other than by being interrupted.
#[derive(Clone, Debug, PartialEq, Eq)]
pub enum EvalError {
    /// A value that is not a number stood where a number is required.
    ExpectedNumber,
    /// A value that is not a function stood where a call is required.
    NotAFunction,
    /// A conversion named a function as its target.
    ConvertToFunction,
    /// The name is neither a builtin nor bound in the scope.
    UnknownIdentifier(String),
    /// A number primitive failed; the payload is its own message.
    Primitive(&'static str),
}

/// The outcome of a step that cannot be interrupted, as seen by a caller that
/// can be: the domain error is carried over unchanged.
pub open spec fn lift<T, E>(pure: Result<T, E>) -> Result<T, IntErr<E>> {
    match pure {
        Ok(v) => Ok(v),
        Err(e) => Err(IntErr::Error(e)),
    }
}

/// A number primitive's failure as an evaluation failure.
pub open spec fn primitive<T>(pure: Result<T, &'static str>) -> Result<T, EvalError> {
    match pure {
        Ok(v) => Ok(v),
        Err(msg) => Err(EvalError::Primitive(msg)),
    }
}

/// What an interruptible primitive may return when its uninterrupted result
/// is `pure`: that result, or an interrupt if one was requested.
pub open spec fn may_return<T, E>(requested: bool, pure: Result<T, E>, r: Result<T, IntErr<E>>) -> bool {
    r == lift(pure) || (requested && r == Err::<T, IntErr<E>>(IntErr::Interrupt))
}

/// What a step returns that polls before it works: an interrupt if one was
/// requested, else the uninterrupted result.
pub open spec fn polled<T, E>(requested: bool, pure: Result<T, E>) -> Result<T, IntErr<E>> {
    if requested {
        Err(IntErr::Interrupt)
    } else {
        lift(pure)
    }
}

impl EvalError {
    /// Whether the error is that a value is of the wrong kind for its place.
    pub open spec fn is_type_mismatch(self) -> bool {
        self is ExpectedNumber || self is NotAFunction || self is ConvertToFunction
    }

    /// The error in words.
    pub open spec fn message_spec(self) -> Seq<char> {
        match self {
            EvalError::ExpectedNumber => "expected a number"@,
            EvalError::NotAFunction => "value is not a function"@,
            EvalError::ConvertToFunction => "unable to convert value to a function"@,
            EvalError::UnknownIdentifier(name) => "unknown identifier '"@ + name@ + "'"@,
            EvalError::Primitive(msg) => msg@,
        }
    }

    /// The error in words.
    pub fn message(&self) -> (r: String)
        ensures
            r@ == self.message_spec(),
    {
        match self {
            EvalError::ExpectedNumber => String::from_str("expected a number"),
            EvalError::NotAFunction => String::from_str("value is not a function"),
            EvalError::ConvertToFunction => String::from_str(
                "unable to convert value to a function",
            ),
            EvalError::UnknownIdentifier(name) => {
                let mut s = String::from_str("unknown identifier '");
                s.append(name.as_str());
                s.append("'");
                s
            },
            EvalError::Primitive(msg) => String::from_str(msg),
        }
    }

    /// Whether the error is that a value is of the wrong kind for its place.
    pub fn type_mismatch(&self) -> (r: bool)
        ensures
            r == self.is_type_mismatch(),
    {
        match self {
            EvalError::ExpectedNumber => true,
            EvalError::NotAFunction => true,
            EvalError::ConvertToFunction => true,
            _ => false,
        }
    }
}

impl IntErr<&'static str> {
    /// Turns a primitive's failure into an evaluation failure; an interrupt
    /// passes through unchanged.
    pub fn into_eval(self) -> (r: IntErr<EvalError>)
        ensures
            r == match self {
                IntErr::Interrupt => IntErr::<EvalError>::Interrupt,
                IntErr::Error(msg) => IntErr::Error(EvalError::Primitive(msg)),
            },
    {
        match self {
            IntErr::Interrupt => IntErr::Interrupt,
            IntErr::Error(msg) => IntErr::Error(EvalError::Primitive(msg)),
        }
    }
}

} // verus!
