//! A number for the evaluator: an exact fraction of bounded size, real or
//! purely imaginary, with the marks that evaluation sets on a number.

use vstd::prelude::*;
use vstd::string::*;
use crate::err::{lift, IntErr};
use crate::interrupt::Interrupt;
use crate::num::{Base, FormattingStyle, Number};
use crate::value::{Function, Value};

verus! {

/// The largest numerator and the largest denominator that an operation
/// accepts and returns.
pub const LIMIT: u64 = 4611686018427387904;

/// The largest exponent and the largest argument of a factorial that are
/// attempted.
pub const MAX_STEPS: u64 = 512;

/// A fraction `num / den`, negated where `negative` is set, and multiplied
/// by the imaginary unit where `imaginary` is set. Fractions are not
/// reduced. An operation fails on an operand or with a result whose
/// numerator exceeds [`LIMIT`] or whose denominator is zero or exceeds it.
/// No operation pays attention to the cancellation signal: each is short.
#[derive(Clone, Copy, Debug, PartialEq, Eq, Structural)]
pub struct Exact {
    pub negative: bool,
    pub num: u64,
    pub den: u64,
    pub imaginary: bool,
    /// Set by marking the number, or by computing with a marked number.
    pub approx: bool,
    pub style: FormattingStyle,
    pub base: Base,
}

/// The message of an operation whose operand or result is too large.
pub open spec fn out_of_range() -> &'static str {
    "number out of range"
}

/// The state of reading a numeral: the digits read so far as a fraction,
/// whether the point has been read, and whether reading has ended.
pub struct Scan {
    pub num: u64,
    pub den: u64,
    pub point: bool,
    pub done: bool,
}

/// The digit that `c` is.
pub open spec fn digit_spec(c: char) -> Option<u64> {
    if c == '0' {
        Some(0u64)
    } else if c == '1' {
        Some(1u64)
    } else if c == '2' {
        Some(2u64)
    } else if c == '3' {
        Some(3u64)
    } else if c == '4' {
        Some(4u64)
    } else if c == '5' {
        Some(5u64)
    } else if c == '6' {
        Some(6u64)
    } else if c == '7' {
        Some(7u64)
    } else if c == '8' {
        Some(8u64)
    } else if c == '9' {
        Some(9u64)
    } else {
        None
    }
}

/// Reading one more character. The first point is taken; a digit is taken
/// as long as numerator and denominator stay within [`LIMIT`]; anything else
/// ends the numeral, and what follows is not read.
pub open spec fn scan_step(s: Scan, c: char) -> Scan {
    if s.done {
        s
    } else if c == '.' && !s.point {
        Scan { point: true, ..s }
    } else if digit_spec(c) is Some && s.num <= (LIMIT - 9) / 10 && (!s.point || s.den <= LIMIT
        / 10) {
        Scan {
            num: (s.num * 10 + digit_spec(c)->Some_0) as u64,
            den: if s.point {
                (s.den * 10) as u64
            } else {
                s.den
            },
            ..s
        }
    } else {
        Scan { done: true, ..s }
    }
}

/// Reading a whole text, from the left.
pub open spec fn scan(text: Seq<char>) -> Scan
    decreases text.len(),
{
    if text.len() == 0 {
        Scan { num: 0, den: 1, point: false, done: false }
    } else {
        scan_step(scan(text.drop_last()), text.last())
    }
}

/// The numeral of one digit.
pub open spec fn digit_text(d: u64) -> Seq<char> {
    if d == 0 {
        "0"@
    } else if d == 1 {
        "1"@
    } else if d == 2 {
        "2"@
    } else if d == 3 {
        "3"@
    } else if d == 4 {
        "4"@
    } else if d == 5 {
        "5"@
    } else if d == 6 {
        "6"@
    } else if d == 7 {
        "7"@
    } else if d == 8 {
        "8"@
    } else {
        "9"@
    }
}

/// The decimal numeral of `n`, without leading zeros.
pub open spec fn decimal(n: u64) -> Seq<char>
    decreases n,
{
    if n < 10 {
        digit_text(n)
    } else {
        decimal(n / 10) + digit_text(n % 10)
    }
}

/// The numeral of one digit.
fn digit_str(d: u64) -> (r: &'static str)
    ensures
        r@ == digit_text(d),
{
    if d == 0 {
        "0"
    } else if d == 1 {
        "1"
    } else if d == 2 {
        "2"
    } else if d == 3 {
        "3"
    } else if d == 4 {
        "4"
    } else if d == 5 {
        "5"
    } else if d == 6 {
        "6"
    } else if d == 7 {
        "7"
    } else if d == 8 {
        "8"
    } else {
        "9"
    }
}

/// Writes the decimal numeral of `n`.
pub fn write_decimal(n: u64) -> (r: String)
    ensures
        r@ == decimal(n),
    decreases n,
{
    if n < 10 {
        String::from_str(digit_str(n))
    } else {
        let mut s = write_decimal(n / 10);
        s.append(digit_str(n % 10));
        s
    }
}

impl Exact {
    /// Whether operations accept this number.
    pub open spec fn in_range(self) -> bool {
        self.num <= LIMIT && 0 < self.den <= LIMIT
    }

    /// The numerator with its sign.
    pub open spec fn signed(self) -> int {
        if self.negative {
            -(self.num as int)
        } else {
            self.num as int
        }
    }

    /// The plain real fraction `num / den`.
    pub open spec fn plain(num: u64, den: u64) -> Exact {
        Exact {
            negative: false,
            num,
            den,
            imaginary: false,
            approx: false,
            style: FormattingStyle::Auto,
            base: Base::of(10),
        }
    }

    /// The fraction `n / d` as the result of an operation on `left`, whose
    /// style and base it keeps; it is approximate if an operand was.
    pub open spec fn make(n: int, d: int, imaginary: bool, left: Exact, approx: bool) -> Result<
        Exact,
        &'static str,
    > {
        if -(LIMIT as int) <= n <= LIMIT as int && 0 < d <= LIMIT as int {
            Ok(
                Exact {
                    negative: n < 0,
                    num: (if n < 0 {
                        -n
                    } else {
                        n
                    }) as u64,
                    den: d as u64,
                    imaginary,
                    approx,
                    style: left.style,
                    base: left.base,
                },
            )
        } else {
            Err(out_of_range())
        }
    }

    /// Whether this is a whole real number that is not negative.
    pub open spec fn is_count(self) -> bool {
        self.in_range() && !self.imaginary && self.den == 1 && (!self.negative || self.num == 0)
    }

    /// Whether the number has a square root that is an exact fraction with
    /// the roots of its numerator and its denominator: it is real, not
    /// negative, and both are squares.
    pub open spec fn has_root(self) -> bool {
        self.in_range() && !self.imaginary && (!self.negative || self.num == 0) && is_square(
            self.num,
        ) && is_square(self.den)
    }

    /// The product of the numbers `a` and `b`, both in range.
    pub open spec fn product(a: Exact, b: Exact) -> Result<Exact, &'static str> {
        Exact::make(
            if a.imaginary && b.imaginary {
                -(a.signed() * b.signed())
            } else {
                a.signed() * b.signed()
            },
            a.den * b.den,
            a.imaginary != b.imaginary,
            a,
            a.approx || b.approx,
        )
    }

    /// The number `a` raised to the power `k`, by `k` multiplications.
    pub open spec fn power(a: Exact, k: nat) -> Result<Exact, &'static str>
        decreases k,
    {
        if k == 0 {
            Ok(Exact { style: a.style, base: a.base, approx: a.approx, ..Exact::plain(1, 1) })
        } else {
            match Exact::power(a, (k - 1) as nat) {
                Ok(p) => a.mul_spec(p),
                Err(e) => Err(e),
            }
        }
    }

    /// The product of the whole numbers from one to `k`, with the marks of
    /// `a`.
    pub open spec fn factorial_of(a: Exact, k: nat) -> Result<Exact, &'static str>
        decreases k,
    {
        if k == 0 {
            Ok(Exact { style: a.style, base: a.base, approx: a.approx, ..Exact::plain(1, 1) })
        } else {
            match Exact::factorial_of(a, (k - 1) as nat) {
                Ok(p) => p.mul_spec(Exact::plain(k as u64, 1)),
                Err(e) => Err(e),
            }
        }
    }

    /// Whether the two numbers have the same value, whatever their marks.
    /// A number out of range has the same value as none.
    pub open spec fn same_value_spec(self, other: Exact) -> bool {
        self.in_range() && other.in_range() && self.signed() * other.den == other.signed()
            * self.den && (self.imaginary == other.imaginary || (self.num == 0 && other.num == 0))
    }

    /// The fraction `num / den`, positive and real, without marks.
    pub fn new(num: u64, den: u64) -> (r: Exact)
        ensures
            r == Exact::plain(num, den),
    {
        Exact {
            negative: false,
            num,
            den,
            imaginary: false,
            approx: false,
            style: FormattingStyle::Auto,
            base: Base::decimal(),
        }
    }

    /// Whether operations accept this number.
    pub fn is_in_range(&self) -> (r: bool)
        ensures
            r == self.in_range(),
    {
        self.num <= LIMIT && 0 < self.den && self.den <= LIMIT
    }

    /// Whether the two numbers have the same value, whatever their marks.
    pub fn same_value(&self, other: &Exact) -> (r: bool)
        ensures
            r == self.same_value_spec(*other),
    {
        if !self.is_in_range() || !other.is_in_range() {
            return false;
        }
        let left = times(self.signed_num(), other.den as i128);
        let right = times(other.signed_num(), self.den as i128);
        left == right && (self.imaginary == other.imaginary || (self.num == 0 && other.num == 0))
    }

    fn signed_num(&self) -> (r: i128)
        ensures
            r == self.signed(),
    {
        if self.negative {
            -(self.num as i128)
        } else {
            self.num as i128
        }
    }

    fn build(n: i128, d: i128, imaginary: bool, left: &Exact, approx: bool) -> (r: Result<
        Exact,
        &'static str,
    >)
        ensures
            r == Exact::make(n as int, d as int, imaginary, *left, approx),
    {
        let limit: i128 = LIMIT as i128;
        if -limit <= n && n <= limit && 0 < d && d <= limit {
            let magnitude: i128 = if n < 0 {
                -n
            } else {
                n
            };
            Ok(
                Exact {
                    negative: n < 0,
                    num: magnitude as u64,
                    den: d as u64,
                    imaginary,
                    approx,
                    style: left.style,
                    base: left.base,
                },
            )
        } else {
            Err("number out of range")
        }
    }

    fn times_exact(self, rhs: Exact) -> (r: Result<Exact, &'static str>)
        ensures
            r == self.mul_spec(rhs),
    {
        if !self.is_in_range() || !rhs.is_in_range() {
            return Err("number out of range");
        }
        let p = times(self.signed_num(), rhs.signed_num());
        let n: i128 = if self.imaginary && rhs.imaginary {
            -p
        } else {
            p
        };
        let d = times(self.den as i128, rhs.den as i128);
        Exact::build(n, d, self.imaginary != rhs.imaginary, &self, self.approx || rhs.approx)
    }

    fn power_exact(self, k: u64) -> (r: Result<Exact, &'static str>)
        ensures
            r == Exact::power(self, k as nat),
        decreases k,
    {
        if k == 0 {
            Ok(Exact { style: self.style, base: self.base, approx: self.approx, ..Exact::new(1, 1) })
        } else {
            match self.power_exact(k - 1) {
                Ok(p) => self.times_exact(p),
                Err(e) => Err(e),
            }
        }
    }

    fn factorial_exact(self, k: u64) -> (r: Result<Exact, &'static str>)
        ensures
            r == Exact::factorial_of(self, k as nat),
        decreases k,
    {
        if k == 0 {
            Ok(Exact { style: self.style, base: self.base, approx: self.approx, ..Exact::new(1, 1) })
        } else {
            match self.factorial_exact(k - 1) {
                Ok(p) => p.times_exact(Exact::new(k, 1)),
                Err(e) => Err(e),
            }
        }
    }
}

/// The square of `r`.
pub open spec fn square(r: u64) -> int {
    r * r
}

/// Whether `n` is the square of a whole number.
pub open spec fn is_square(n: u64) -> bool {
    exists|r: u64| #[trigger] square(r) == n
}

/// The whole number whose square `n` is, where `n` is a square.
pub open spec fn root(n: u64) -> u64 {
    choose|r: u64| #[trigger] square(r) == n
}

/// Of two whole numbers the smaller has the smaller square.
proof fn lemma_square_grows(a: u64, b: u64)
    ensures
        a <= b ==> square(a) <= square(b),
        a < b ==> square(a) < square(b),
{
    assert(a <= b ==> a * a <= b * b) by (nonlinear_arith);
    assert(a < b ==> a * a < b * b) by (nonlinear_arith);
}

/// A square has one root.
pub proof fn lemma_root_is_unique(r: u64, n: u64)
    requires
        square(r) == n,
    ensures
        is_square(n),
        root(n) == r,
{
    lemma_square_grows(r, root(n));
    lemma_square_grows(root(n), r);
}

/// Searches for the whole number whose square `n` is.
pub fn find_root(n: u64) -> (r: Option<u64>)
    requires
        n <= LIMIT,
    ensures
        r == if is_square(n) {
            Some(root(n))
        } else {
            None::<u64>
        },
{
    let mut lo: u64 = 0;
    let mut hi: u64 = 2147483649;
    while hi - lo > 1
        invariant
            lo < hi <= 2147483649,
            square(lo) <= n < square(hi),
        decreases hi - lo,
    {
        let mid: u64 = lo + (hi - lo) / 2;
        proof {
            lemma_square_grows(mid, 2147483649);
        }
        if mid * mid <= n {
            lo = mid;
        } else {
            hi = mid;
        }
    }
    proof {
        lemma_square_grows(lo, 2147483649);
    }
    if lo * lo == n {
        proof {
            lemma_root_is_unique(lo, n);
        }
        Some(lo)
    } else {
        proof {
            assert forall|r: u64| #[trigger] square(r) != n by {
                lemma_square_grows(r, lo);
                lemma_square_grows(hi, r);
            }
        }
        None
    }
}

/// The product of two numbers of at most [`LIMIT`] in size, which fits.
fn times(x: i128, y: i128) -> (p: i128)
    requires
        -(LIMIT as int) <= x <= LIMIT as int,
        -(LIMIT as int) <= y <= LIMIT as int,
    ensures
        p == x * y,
        -21267647932558653966460912964485513216 <= p <= 21267647932558653966460912964485513216,
{
    assert(-(LIMIT as int) * (LIMIT as int) <= x * y <= (LIMIT as int) * (LIMIT as int))
        by (nonlinear_arith)
        requires
            -(LIMIT as int) <= x <= LIMIT as int,
            -(LIMIT as int) <= y <= LIMIT as int,
    ;
    x * y
}

/// The digit that `c` is.
pub fn digit(c: char) -> (r: Option<u64>)
    ensures
        r == digit_spec(c),
{
    if c == '0' {
        Some(0)
    } else if c == '1' {
        Some(1)
    } else if c == '2' {
        Some(2)
    } else if c == '3' {
        Some(3)
    } else if c == '4' {
        Some(4)
    } else if c == '5' {
        Some(5)
    } else if c == '6' {
        Some(6)
    } else if c == '7' {
        Some(7)
    } else if c == '8' {
        Some(8)
    } else if c == '9' {
        Some(9)
    } else {
        None
    }
}

impl Number for Exact {
    open spec fn from_u64_spec(n: u64) -> Self {
        Exact::plain(n, 1)
    }

    /// The sign, the numerator, the denominator where it is not one, and
    /// the imaginary unit where the number has it.
    open spec fn debug_spec(self) -> Seq<char> {
        (if self.negative {
            "-"@
        } else {
            ""@
        }) + decimal(self.num) + (if self.den != 1 {
            "/"@ + decimal(self.den)
        } else {
            ""@
        }) + (if self.imaginary {
            "i"@
        } else {
            ""@
        })
    }

    open spec fn i_spec() -> Self {
        Exact { imaginary: true, ..Exact::plain(1, 1) }
    }

    open spec fn from_literal_spec(text: &str) -> Self {
        Exact::plain(scan(text@).num, scan(text@).den)
    }

    open spec fn make_approximate_spec(self) -> Self {
        Exact { approx: true, ..self }
    }

    open spec fn neg_spec(self) -> Self {
        Exact { negative: !self.negative, ..self }
    }

    open spec fn add_spec(self, rhs: Self) -> Result<Self, &'static str> {
        if !self.in_range() || !rhs.in_range() {
            Err(out_of_range())
        } else if self.imaginary != rhs.imaginary {
            Err("complex numbers are not supported")
        } else {
            Exact::make(
                self.signed() * rhs.den + rhs.signed() * self.den,
                self.den * rhs.den,
                self.imaginary,
                self,
                self.approx || rhs.approx,
            )
        }
    }

    open spec fn sub_spec(self, rhs: Self) -> Result<Self, &'static str> {
        self.add_spec(rhs.neg_spec())
    }

    open spec fn mul_spec(self, rhs: Self) -> Result<Self, &'static str> {
        if !self.in_range() || !rhs.in_range() {
            Err(out_of_range())
        } else {
            Exact::product(self, rhs)
        }
    }

    open spec fn div_spec(self, rhs: Self) -> Result<Self, &'static str> {
        if !self.in_range() || !rhs.in_range() {
            Err(out_of_range())
        } else if rhs.num == 0 {
            Err("division by zero")
        } else {
            Exact::make(
                if rhs.negative != (!self.imaginary && rhs.imaginary) {
                    -(self.signed() * rhs.den)
                } else {
                    self.signed() * rhs.den
                },
                self.den * rhs.num,
                self.imaginary != rhs.imaginary,
                self,
                self.approx || rhs.approx,
            )
        }
    }

    open spec fn pow_spec(self, rhs: Self) -> Result<Self, &'static str> {
        if !self.in_range() || !rhs.in_range() {
            Err(out_of_range())
        } else if !rhs.is_count() {
            Err("exponent is not a whole number")
        } else if rhs.num > MAX_STEPS {
            Err("exponent too large")
        } else {
            Exact::power(self, rhs.num as nat)
        }
    }

    open spec fn factorial_spec(self) -> Result<Self, &'static str> {
        if !self.is_count() {
            Err("factorial is only defined for whole numbers that are not negative")
        } else if self.num > MAX_STEPS {
            Err(out_of_range())
        } else {
            Exact::factorial_of(self, self.num as nat)
        }
    }

    open spec fn convert_to_spec(self, target: Self) -> Result<Self, &'static str> {
        if target.in_range() && !target.imaginary && !target.negative && target.num
            == target.den {
            Ok(self)
        } else {
            Err("the target of a conversion must be a unit")
        }
    }

    open spec fn with_format_spec(self, style: FormattingStyle) -> Self {
        Exact { style, ..self }
    }

    open spec fn with_base_spec(self, base: Base) -> Self {
        Exact { base, ..self }
    }

    open spec fn call_spec(self, f: Function) -> Result<Value<Self>, &'static str> {
        match f {
            Function::Abs => Ok(Value::Num(Exact { negative: false, ..self })),
            Function::Sqrt => if self.has_root() {
                Ok(Value::Num(Exact { num: root(self.num), den: root(self.den), ..self }))
            } else {
                Err("no exact result")
            },
            Function::Base => if self.is_count() && self.num <= u8::MAX {
                match Base::from_plain_base_spec(self.num as u8) {
                    Ok(base) => Ok(Value::Base(base)),
                    Err(_) => Err("no such base"),
                }
            } else {
                Err("no such base")
            },
            _ => Err("no exact result"),
        }
    }

    fn from_u64(n: u64) -> (r: Self) {
        Exact::new(n, 1)
    }

    fn debug_text(&self) -> (r: String) {
        let mut s = String::from_str(if self.negative {
            "-"
        } else {
            ""
        });
        s.append(write_decimal(self.num).as_str());
        if self.den != 1 {
            let mut d = String::from_str("/");
            d.append(write_decimal(self.den).as_str());
            s.append(d.as_str());
        } else {
            s.append("");
        }
        s.append(if self.imaginary {
            "i"
        } else {
            ""
        });
        s
    }

    fn i() -> (r: Self) {
        Exact { imaginary: true, ..Exact::new(1, 1) }
    }

    fn from_literal(text: &str) -> (r: Self) {
        let len = text.unicode_len();
        let mut s = Scan { num: 0, den: 1, point: false, done: false };
        let mut i: usize = 0;
        proof {
            assert(text@.take(0) =~= Seq::<char>::empty());
        }
        while i < len
            invariant
                i <= len,
                len == text@.len(),
                s == scan(text@.take(i as int)),
                s.num <= LIMIT,
                s.den <= LIMIT,
            decreases len - i,
        {
            let c = text.get_char(i);
            proof {
                let prefix = text@.take(i + 1);
                assert(prefix.last() == c);
                assert(prefix.drop_last() =~= text@.take(i as int));
            }
            if s.done {
            } else if c == '.' && !s.point {
                s = Scan { point: true, ..s };
            } else {
                let d = digit(c);
                if d.is_some() && s.num <= (LIMIT - 9) / 10 && (!s.point || s.den <= LIMIT / 10) {
                    let den: u64 = if s.point {
                        s.den * 10
                    } else {
                        s.den
                    };
                    s = Scan { num: s.num * 10 + d.unwrap(), den, ..s };
                } else {
                    s = Scan { done: true, ..s };
                }
            }
            i = i + 1;
        }
        proof {
            assert(text@.take(len as int) =~= text@);
        }
        Exact::new(s.num, s.den)
    }

    fn duplicate(&self) -> (r: Self) {
        *self
    }

    fn make_approximate(self) -> (r: Self) {
        Exact { approx: true, ..self }
    }

    fn neg(self) -> (r: Self) {
        Exact { negative: !self.negative, ..self }
    }

    fn add<I: Interrupt>(self, rhs: Self, cancel: &I) -> (r: Result<Self, IntErr<&'static str>>)
        ensures
            r == lift(self.add_spec(rhs)),
    {
        if !self.is_in_range() || !rhs.is_in_range() {
            return Err(IntErr::Error("number out of range"));
        }
        if self.imaginary != rhs.imaginary {
            return Err(IntErr::Error("complex numbers are not supported"));
        }
        let a = times(self.signed_num(), rhs.den as i128);
        let b = times(rhs.signed_num(), self.den as i128);
        let d = times(self.den as i128, rhs.den as i128);
        match Exact::build(a + b, d, self.imaginary, &self, self.approx || rhs.approx) {
            Ok(v) => Ok(v),
            Err(e) => Err(IntErr::Error(e)),
        }
    }

    fn sub<I: Interrupt>(self, rhs: Self, cancel: &I) -> (r: Result<Self, IntErr<&'static str>>)
        ensures
            r == lift(self.sub_spec(rhs)),
    {
        self.add(rhs.neg(), cancel)
    }

    fn mul<I: Interrupt>(self, rhs: Self, cancel: &I) -> (r: Result<Self, IntErr<&'static str>>)
        ensures
            r == lift(self.mul_spec(rhs)),
    {
        match self.times_exact(rhs) {
            Ok(v) => Ok(v),
            Err(e) => Err(IntErr::Error(e)),
        }
    }

    fn div<I: Interrupt>(self, rhs: Self, cancel: &I) -> (r: Result<Self, IntErr<&'static str>>)
        ensures
            r == lift(self.div_spec(rhs)),
    {
        if !self.is_in_range() || !rhs.is_in_range() {
            return Err(IntErr::Error("number out of range"));
        }
        if rhs.num == 0 {
            return Err(IntErr::Error("division by zero"));
        }
        let p = times(self.signed_num(), rhs.den as i128);
        let n: i128 = if rhs.negative != (!self.imaginary && rhs.imaginary) {
            -p
        } else {
            p
        };
        let d = times(self.den as i128, rhs.num as i128);
        match Exact::build(n, d, self.imaginary != rhs.imaginary, &self, self.approx || rhs.approx) {
            Ok(v) => Ok(v),
            Err(e) => Err(IntErr::Error(e)),
        }
    }

    fn pow<I: Interrupt>(self, rhs: Self, cancel: &I) -> (r: Result<Self, IntErr<&'static str>>)
        ensures
            r == lift(self.pow_spec(rhs)),
    {
        if !self.is_in_range() || !rhs.is_in_range() {
            return Err(IntErr::Error("number out of range"));
        }
        if rhs.imaginary || rhs.den != 1 || (rhs.negative && rhs.num != 0) {
            return Err(IntErr::Error("exponent is not a whole number"));
        }
        if rhs.num > MAX_STEPS {
            return Err(IntErr::Error("exponent too large"));
        }
        match self.power_exact(rhs.num) {
            Ok(v) => Ok(v),
            Err(e) => Err(IntErr::Error(e)),
        }
    }

    fn factorial<I: Interrupt>(self, cancel: &I) -> (r: Result<Self, IntErr<&'static str>>)
        ensures
            r == lift(self.factorial_spec()),
    {
        if !self.is_in_range() || self.imaginary || self.den != 1 || (self.negative && self.num
            != 0) {
            return Err(
                IntErr::Error("factorial is only defined for whole numbers that are not negative"),
            );
        }
        if self.num > MAX_STEPS {
            return Err(IntErr::Error("number out of range"));
        }
        match self.factorial_exact(self.num) {
            Ok(v) => Ok(v),
            Err(e) => Err(IntErr::Error(e)),
        }
    }

    fn convert_to<I: Interrupt>(self, target: Self, cancel: &I) -> (r: Result<
        Self,
        IntErr<&'static str>,
    >)
        ensures
            r == lift(self.convert_to_spec(target)),
    {
        if target.is_in_range() && !target.imaginary && !target.negative && target.num
            == target.den {
            Ok(self)
        } else {
            Err(IntErr::Error("the target of a conversion must be a unit"))
        }
    }

    fn with_format(self, style: FormattingStyle) -> (r: Self) {
        Exact { style, ..self }
    }

    fn with_base(self, base: Base) -> (r: Self) {
        Exact { base, ..self }
    }

    fn call<I: Interrupt>(self, f: Function, cancel: &I) -> (r: Result<
        Value<Self>,
        IntErr<&'static str>,
    >)
        ensures
            r == lift(self.call_spec(f)),
    {
        match f {
            Function::Abs => Ok(Value::Num(Exact { negative: false, ..self })),
            Function::Sqrt => {
                if !self.is_in_range() || self.imaginary || (self.negative && self.num != 0) {
                    return Err(IntErr::Error("no exact result"));
                }
                match (find_root(self.num), find_root(self.den)) {
                    (Some(num), Some(den)) => Ok(Value::Num(Exact { num, den, ..self })),
                    _ => Err(IntErr::Error("no exact result")),
                }
            },
            Function::Base => {
                if self.is_in_range() && !self.imaginary && self.den == 1 && (!self.negative
                    || self.num == 0) && self.num <= 255 {
                    match Base::from_plain_base(self.num as u8) {
                        Ok(base) => Ok(Value::Base(base)),
                        Err(_) => Err(IntErr::Error("no such base")),
                    }
                } else {
                    Err(IntErr::Error("no such base"))
                }
            },
            _ => Err(IntErr::Error("no exact result")),
        }
    }
}

} // verus!
