//! What the evaluator asks of a number: the primitives it invokes, and the
//! formatting styles and bases it passes to them.

use vstd::prelude::*;
use crate::err::{may_return, IntErr};
use crate::interrupt::Interrupt;
use crate::value::{Function, Value};

verus! {

/// How a number asks to be rendered.
#[derive(Clone, Copy, Debug, PartialEq, Eq, Structural)]
pub enum FormattingStyle {
    /// Let the number choose.
    Auto,
    /// An exact decimal where one exists, else a fraction.
    ExactFloatWithFractionFallback,
    /// An exact fraction.
    ExactFraction,
    /// An exact decimal.
    ExactFloat,
    /// An approximation with this many significant digits.
    ApproxFloat(usize),
}

/// The number of significant digits that the precision marker asks for.
pub const DP_DIGITS: usize = 10;

/// The smallest radix a base can have.
pub const MIN_RADIX: u8 = 2;

/// The largest radix a base can have.
pub const MAX_RADIX: u8 = 36;

/// A numeric base for rendering. Its radix lies between [`MIN_RADIX`] and
/// [`MAX_RADIX`].
#[derive(Clone, Copy, Debug, PartialEq, Eq, Structural)]
pub struct Base {
    radix: u8,
}

/// The failure to make a base: the radix asked for is out of range.
#[derive(Clone, Copy, Debug, PartialEq, Eq, Structural)]
pub struct InvalidBase {
    pub radix: u8,
}

impl Base {
    /// The radix of this base.
    pub closed spec fn radix_spec(self) -> u8 {
        self.radix
    }

    /// Every base that a constructor made has a radix in range.
    pub open spec fn wf(self) -> bool {
        MIN_RADIX <= self.radix_spec() <= MAX_RADIX
    }

    /// The base of radix `radix`, as a specification value.
    pub closed spec fn of(radix: u8) -> Base {
        Base { radix }
    }

    /// A base is its radix: `of` and `radix_spec` are inverse to each other.
    pub broadcast proof fn lemma_of_radix(radix: u8)
        ensures
            (#[trigger] Base::of(radix)).radix_spec() == radix,
    {
    }

    /// Two bases of one radix are the same base.
    pub proof fn lemma_radix_determines(self)
        ensures
            self == Base::of(self.radix_spec()),
    {
    }

    /// What [`Base::from_plain_base`] returns for `radix`.
    pub open spec fn from_plain_base_spec(radix: u8) -> Result<Base, InvalidBase> {
        if MIN_RADIX <= radix <= MAX_RADIX {
            Ok(Base::of(radix))
        } else {
            Err(InvalidBase { radix })
        }
    }

    /// Makes the base of the given radix, or fails where the radix is below
    /// [`MIN_RADIX`] or above [`MAX_RADIX`].
    pub fn from_plain_base(radix: u8) -> (r: Result<Base, InvalidBase>)
        ensures
            r == Base::from_plain_base_spec(radix),
            r is Ok ==> r->Ok_0.wf(),
    {
        if radix < MIN_RADIX || radix > MAX_RADIX {
            Err(InvalidBase { radix })
        } else {
            Ok(Base { radix })
        }
    }

    /// The base of radix ten.
    pub fn decimal() -> (r: Base)
        ensures
            r == Base::of(10),
            r.wf(),
    {
        Base { radix: 10 }
    }

    /// The radix of this base.
    pub fn radix(&self) -> (r: u8)
        ensures
            r == self.radix_spec(),
    {
        self.radix
    }
}

/// An arbitrary-precision, unit-aware number, as the evaluator sees it: a
/// value it never looks into, with the primitives below.
///
/// Each primitive has a specification function that gives its result when
/// nothing interrupts it. A primitive that takes the cancellation signal may
/// return an interrupt instead, but only if cancellation was requested.
/// What is proved of an evaluation holds for an implementation whose
/// primitives return what its specification functions say; [`Exact`] is one
/// that is verified to.
///
/// [`Exact`]: crate::exact::Exact
pub trait Number: Sized {
    /// The number `n`.
    spec fn from_u64_spec(n: u64) -> Self;

    /// The imaginary unit.
    spec fn i_spec() -> Self;

    /// The number that the numeral `text` denotes.
    spec fn from_literal_spec(text: &str) -> Self;

    /// The number marked as approximate.
    spec fn make_approximate_spec(self) -> Self;

    /// The negated number.
    spec fn neg_spec(self) -> Self;

    /// The sum, or why there is none.
    spec fn add_spec(self, rhs: Self) -> Result<Self, &'static str>;

    /// The difference, or why there is none.
    spec fn sub_spec(self, rhs: Self) -> Result<Self, &'static str>;

    /// The product, or why there is none.
    spec fn mul_spec(self, rhs: Self) -> Result<Self, &'static str>;

    /// The quotient, or why there is none (a zero divisor, for one).
    spec fn div_spec(self, rhs: Self) -> Result<Self, &'static str>;

    /// The power, or why there is none.
    spec fn pow_spec(self, rhs: Self) -> Result<Self, &'static str>;

    /// The factorial, or why there is none.
    spec fn factorial_spec(self) -> Result<Self, &'static str>;

    /// The number expressed in the unit of `target`, or why it cannot be.
    spec fn convert_to_spec(self, target: Self) -> Result<Self, &'static str>;

    /// The number with the rendering style `style`.
    spec fn with_format_spec(self, style: FormattingStyle) -> Self;

    /// The number with the rendering base `base`.
    spec fn with_base_spec(self, base: Base) -> Self;

    /// The value of the builtin function `f` at this number, or why there is
    /// none.
    spec fn call_spec(self, f: Function) -> Result<Value<Self>, &'static str>;

    /// The number as text, as it is shown inside an expression.
    spec fn debug_spec(self) -> Seq<char>;

    /// Makes the number `n`.
    fn from_u64(n: u64) -> (r: Self)
        ensures
            r == Self::from_u64_spec(n),
    ;

    /// Writes the number as it is shown inside an expression.
    fn debug_text(&self) -> (r: String)
        ensures
            r@ == self.debug_spec(),
    ;

    /// Makes the imaginary unit.
    fn i() -> (r: Self)
        ensures
            r == Self::i_spec(),
    ;

    /// Makes the number that a numeral denotes.
    fn from_literal(text: &str) -> (r: Self)
        ensures
            r == Self::from_literal_spec(text),
    ;

    /// A copy of the number.
    fn duplicate(&self) -> (r: Self)
        ensures
            r == *self,
    ;

    /// Marks the number as approximate.
    fn make_approximate(self) -> (r: Self)
        ensures
            r == self.make_approximate_spec(),
    ;

    /// Negates the number.
    fn neg(self) -> (r: Self)
        ensures
            r == self.neg_spec(),
    ;

    /// Adds `rhs` to the number.
    fn add<I: Interrupt>(self, rhs: Self, cancel: &I) -> (r: Result<Self, IntErr<&'static str>>)
        ensures
            may_return(cancel.requested(), self.add_spec(rhs), r),
    ;

    /// Subtracts `rhs` from the number.
    fn sub<I: Interrupt>(self, rhs: Self, cancel: &I) -> (r: Result<Self, IntErr<&'static str>>)
        ensures
            may_return(cancel.requested(), self.sub_spec(rhs), r),
    ;

    /// Multiplies the number by `rhs`.
    fn mul<I: Interrupt>(self, rhs: Self, cancel: &I) -> (r: Result<Self, IntErr<&'static str>>)
        ensures
            may_return(cancel.requested(), self.mul_spec(rhs), r),
    ;

    /// Divides the number by `rhs`.
    fn div<I: Interrupt>(self, rhs: Self, cancel: &I) -> (r: Result<Self, IntErr<&'static str>>)
        ensures
            may_return(cancel.requested(), self.div_spec(rhs), r),
    ;

    /// Raises the number to the power `rhs`.
    fn pow<I: Interrupt>(self, rhs: Self, cancel: &I) -> (r: Result<Self, IntErr<&'static str>>)
        ensures
            may_return(cancel.requested(), self.pow_spec(rhs), r),
    ;

    /// Computes the factorial of the number.
    fn factorial<I: Interrupt>(self, cancel: &I) -> (r: Result<Self, IntErr<&'static str>>)
        ensures
            may_return(cancel.requested(), self.factorial_spec(), r),
    ;

    /// Expresses the number in the unit of `target`.
    fn convert_to<I: Interrupt>(self, target: Self, cancel: &I) -> (r: Result<Self, IntErr<&'static str>>)
        ensures
            may_return(cancel.requested(), self.convert_to_spec(target), r),
    ;

    /// Sets the rendering style of the number.
    fn with_format(self, style: FormattingStyle) -> (r: Self)
        ensures
            r == self.with_format_spec(style),
    ;

    /// Sets the rendering base of the number.
    fn with_base(self, base: Base) -> (r: Self)
        ensures
            r == self.with_base_spec(base),
    ;

    /// Calls the builtin function `f` on the number.
    fn call<I: Interrupt>(self, f: Function, cancel: &I) -> (r: Result<Value<Self>, IntErr<&'static str>>)
        ensures
            may_return(cancel.requested(), self.call_spec(f), r),
    ;
}

} // verus!
