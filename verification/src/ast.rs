//! The expression tree and the evaluator that walks it.

use vstd::prelude::*;
use vstd::pervasive::unreached;
use vstd::string::*;
use crate::err::{lift, polled, EvalError, IntErr, Never};
use crate::interrupt::{test_int, Interrupt};
use crate::num::{Base, FormattingStyle, Number, DP_DIGITS};
use crate::scope::Scope;
use crate::value::{apply_spec, expect_num_spec, Function, Value};

verus! {

/// An expression, as a parser hands it over. Every node owns its children.
pub enum Expr<N> {
    /// A numeric literal.
    Num(N),
    /// A bare name.
    Ident(String),
    Parens(Box<Expr<N>>),
    UnaryMinus(Box<Expr<N>>),
    UnaryPlus(Box<Expr<N>>),
    /// The reciprocal: one divided by the operand.
    UnaryDiv(Box<Expr<N>>),
    Factorial(Box<Expr<N>>),
    Add(Box<Expr<N>>, Box<Expr<N>>),
    Sub(Box<Expr<N>>, Box<Expr<N>>),
    Mul(Box<Expr<N>>, Box<Expr<N>>),
    Div(Box<Expr<N>>, Box<Expr<N>>),
    Pow(Box<Expr<N>>, Box<Expr<N>>),
    /// Call a function, or multiply where the left side is no function.
    Apply(Box<Expr<N>>, Box<Expr<N>>),
    /// Call a function; fail where the left side is no function.
    ApplyFunctionCall(Box<Expr<N>>, Box<Expr<N>>),
    /// Multiply, also where the left side is a function.
    ApplyMul(Box<Expr<N>>, Box<Expr<N>>),
    /// Convert the left side as the right side describes.
    As(Box<Expr<N>>, Box<Expr<N>>),
}

/// An operand between two marks.
pub open spec fn enclosed(open: Seq<char>, x: Seq<char>, close: Seq<char>) -> Seq<char> {
    open + x + close
}

/// Two operands with something between them, in parentheses.
pub open spec fn joined(a: Seq<char>, between: Seq<char>, b: Seq<char>, close: Seq<char>) -> Seq<
    char,
> {
    "("@ + a + between + b + close
}

/// Writes an operand between two marks.
fn enclose(open: &str, x: String, close: &str) -> (r: String)
    ensures
        r@ == enclosed(open@, x@, close@),
{
    let mut s = String::from_str(open);
    s.append(x.as_str());
    s.append(close);
    s
}

/// Writes two operands with something between them, in parentheses.
fn join(a: String, between: &str, b: String, close: &str) -> (r: String)
    ensures
        r@ == joined(a@, between@, b@, close@),
{
    let mut s = String::from_str("(");
    s.append(a.as_str());
    s.append(between);
    s.append(b.as_str());
    s.append(close);
    s
}

impl<N: Number> Expr<N> {
    /// The expression as text, with parentheses round every operation, so
    /// that the text shows the shape of the tree.
    pub open spec fn debug_spec(self) -> Seq<char>
        decreases self,
    {
        match self {
            Expr::Num(n) => n.debug_spec(),
            Expr::Ident(ident) => ident@,
            Expr::Parens(x) => enclosed("("@, (*x).debug_spec(), ")"@),
            Expr::UnaryMinus(x) => enclosed("(-"@, (*x).debug_spec(), ")"@),
            Expr::UnaryPlus(x) => enclosed("(+"@, (*x).debug_spec(), ")"@),
            Expr::UnaryDiv(x) => enclosed("(/"@, (*x).debug_spec(), ")"@),
            Expr::Factorial(x) => enclosed(""@, (*x).debug_spec(), "!"@),
            Expr::Add(a, b) => joined((*a).debug_spec(), "+"@, (*b).debug_spec(), ")"@),
            Expr::Sub(a, b) => joined((*a).debug_spec(), "-"@, (*b).debug_spec(), ")"@),
            Expr::Mul(a, b) => joined((*a).debug_spec(), "*"@, (*b).debug_spec(), ")"@),
            Expr::Div(a, b) => joined((*a).debug_spec(), "/"@, (*b).debug_spec(), ")"@),
            Expr::Pow(a, b) => joined((*a).debug_spec(), "^"@, (*b).debug_spec(), ")"@),
            Expr::Apply(a, b) => joined((*a).debug_spec(), " ("@, (*b).debug_spec(), "))"@),
            Expr::ApplyFunctionCall(a, b) => joined(
                (*a).debug_spec(),
                " "@,
                (*b).debug_spec(),
                ")"@,
            ),
            Expr::ApplyMul(a, b) => joined((*a).debug_spec(), " "@, (*b).debug_spec(), ")"@),
            Expr::As(a, b) => joined((*a).debug_spec(), " as "@, (*b).debug_spec(), ")"@),
        }
    }

    /// Writes the expression as text.
    pub fn debug_text(&self) -> (r: String)
        ensures
            r@ == self.debug_spec(),
        decreases self,
    {
        match self {
            Expr::Num(n) => n.debug_text(),
            Expr::Ident(ident) => ident.clone(),
            Expr::Parens(x) => enclose("(", x.debug_text(), ")"),
            Expr::UnaryMinus(x) => enclose("(-", x.debug_text(), ")"),
            Expr::UnaryPlus(x) => enclose("(+", x.debug_text(), ")"),
            Expr::UnaryDiv(x) => enclose("(/", x.debug_text(), ")"),
            Expr::Factorial(x) => enclose("", x.debug_text(), "!"),
            Expr::Add(a, b) => join(a.debug_text(), "+", b.debug_text(), ")"),
            Expr::Sub(a, b) => join(a.debug_text(), "-", b.debug_text(), ")"),
            Expr::Mul(a, b) => join(a.debug_text(), "*", b.debug_text(), ")"),
            Expr::Div(a, b) => join(a.debug_text(), "/", b.debug_text(), ")"),
            Expr::Pow(a, b) => join(a.debug_text(), "^", b.debug_text(), ")"),
            Expr::Apply(a, b) => join(a.debug_text(), " (", b.debug_text(), "))"),
            Expr::ApplyFunctionCall(a, b) => join(a.debug_text(), " ", b.debug_text(), ")"),
            Expr::ApplyMul(a, b) => join(a.debug_text(), " ", b.debug_text(), ")"),
            Expr::As(a, b) => join(a.debug_text(), " as ", b.debug_text(), ")"),
        }
    }

    /// A copy of the expression.
    pub fn duplicate(&self) -> (r: Self)
        ensures
            r == *self,
        decreases self,
    {
        match self {
            Expr::Num(n) => Expr::Num(n.duplicate()),
            Expr::Ident(ident) => Expr::Ident(ident.clone()),
            Expr::Parens(x) => Expr::Parens(Box::new(x.duplicate())),
            Expr::UnaryMinus(x) => Expr::UnaryMinus(Box::new(x.duplicate())),
            Expr::UnaryPlus(x) => Expr::UnaryPlus(Box::new(x.duplicate())),
            Expr::UnaryDiv(x) => Expr::UnaryDiv(Box::new(x.duplicate())),
            Expr::Factorial(x) => Expr::Factorial(Box::new(x.duplicate())),
            Expr::Add(a, b) => Expr::Add(Box::new(a.duplicate()), Box::new(b.duplicate())),
            Expr::Sub(a, b) => Expr::Sub(Box::new(a.duplicate()), Box::new(b.duplicate())),
            Expr::Mul(a, b) => Expr::Mul(Box::new(a.duplicate()), Box::new(b.duplicate())),
            Expr::Div(a, b) => Expr::Div(Box::new(a.duplicate()), Box::new(b.duplicate())),
            Expr::Pow(a, b) => Expr::Pow(Box::new(a.duplicate()), Box::new(b.duplicate())),
            Expr::Apply(a, b) => Expr::Apply(Box::new(a.duplicate()), Box::new(b.duplicate())),
            Expr::ApplyFunctionCall(a, b) => Expr::ApplyFunctionCall(
                Box::new(a.duplicate()),
                Box::new(b.duplicate()),
            ),
            Expr::ApplyMul(a, b) => Expr::ApplyMul(
                Box::new(a.duplicate()),
                Box::new(b.duplicate()),
            ),
            Expr::As(a, b) => Expr::As(Box::new(a.duplicate()), Box::new(b.duplicate())),
        }
    }
}

/// The options of an evaluation.
#[derive(Clone, Copy, Debug, PartialEq, Eq, Structural)]
pub struct ParseOptions {
    /// Selects the reduced table of builtin names.
    pub gnu_compatible: bool,
}

impl Default for ParseOptions {
    fn default() -> (r: Self)
        ensures
            !r.gnu_compatible,
    {
        ParseOptions { gnu_compatible: false }
    }
}

/// The function that the full table of builtins knows under `name`.
pub open spec fn function_named(name: Seq<char>) -> Option<Function> {
    if name == "sqrt"@ {
        Some(Function::Sqrt)
    } else if name == "cbrt"@ {
        Some(Function::Cbrt)
    } else if name == "abs"@ {
        Some(Function::Abs)
    } else if name == "sin"@ {
        Some(Function::Sin)
    } else if name == "cos"@ {
        Some(Function::Cos)
    } else if name == "tan"@ {
        Some(Function::Tan)
    } else if name == "asin"@ {
        Some(Function::Asin)
    } else if name == "acos"@ {
        Some(Function::Acos)
    } else if name == "atan"@ {
        Some(Function::Atan)
    } else if name == "sinh"@ {
        Some(Function::Sinh)
    } else if name == "cosh"@ {
        Some(Function::Cosh)
    } else if name == "tanh"@ {
        Some(Function::Tanh)
    } else if name == "asinh"@ {
        Some(Function::Asinh)
    } else if name == "acosh"@ {
        Some(Function::Acosh)
    } else if name == "atanh"@ {
        Some(Function::Atanh)
    } else if name == "ln"@ {
        Some(Function::Ln)
    } else if name == "log2"@ {
        Some(Function::Log2)
    } else if name == "log10"@ {
        Some(Function::Log10)
    } else if name == "exp"@ {
        Some(Function::Exp)
    } else if name == "approx."@ || name == "approximately"@ {
        Some(Function::Approximately)
    } else if name == "base"@ {
        Some(Function::Base)
    } else {
        None
    }
}

/// The function that the reduced table of builtins knows under `name`.
pub open spec fn gnu_function_named(name: Seq<char>) -> Option<Function> {
    if name == "exp"@ {
        Some(Function::Exp)
    } else if name == "sqrt"@ {
        Some(Function::Sqrt)
    } else if name == "ln"@ {
        Some(Function::Ln)
    } else if name == "log2"@ {
        Some(Function::Log2)
    } else if name == "log10"@ {
        Some(Function::Log10)
    } else if name == "tan"@ {
        Some(Function::Tan)
    } else if name == "asin"@ {
        Some(Function::Asin)
    } else if name == "approx."@ || name == "approximately"@ {
        Some(Function::Approximately)
    } else {
        None
    }
}

/// The rendering style that `name` asks for.
pub open spec fn format_named(name: Seq<char>) -> Option<FormattingStyle> {
    if name == "auto"@ {
        Some(FormattingStyle::Auto)
    } else if name == "exact"@ {
        Some(FormattingStyle::ExactFloatWithFractionFallback)
    } else if name == "fraction"@ {
        Some(FormattingStyle::ExactFraction)
    } else if name == "float"@ {
        Some(FormattingStyle::ExactFloat)
    } else {
        None
    }
}

/// The radix of the base that `name` names.
pub open spec fn radix_named(name: Seq<char>) -> Option<u8> {
    if name == "decimal"@ {
        Some(10u8)
    } else if name == "hex"@ || name == "hexadecimal"@ {
        Some(16u8)
    } else if name == "binary"@ {
        Some(2u8)
    } else if name == "octal"@ {
        Some(8u8)
    } else {
        None
    }
}

/// The value of a builtin constant that is given by a numeral: the numeral's
/// number, marked as approximate.
pub open spec fn constant_spec<N: Number>(numeral: &str) -> Value<N> {
    Value::Num(N::from_literal_spec(numeral).make_approximate_spec())
}

/// The numeral of the builtin constant `name`, where it has one.
pub open spec fn numeral_named(name: Seq<char>) -> Option<&'static str> {
    if name == "pi"@ {
        Some("3.141592653589793238")
    } else if name == "e"@ {
        Some("2.718281828459045235")
    } else {
        None
    }
}

/// What the full table of builtins holds for `name`, if anything.
pub open spec fn default_builtin<N: Number>(name: Seq<char>) -> Option<Result<Value<N>, EvalError>> {
    if numeral_named(name) is Some {
        Some(Ok(constant_spec::<N>(numeral_named(name)->Some_0)))
    } else if name == "i"@ {
        Some(Ok(Value::Num(N::i_spec())))
    } else if function_named(name) is Some {
        Some(Ok(Value::Func(function_named(name)->Some_0)))
    } else if format_named(name) is Some {
        Some(Ok(Value::Format(format_named(name)->Some_0)))
    } else if name == "dp"@ {
        Some(Ok(Value::Dp))
    } else if radix_named(name) is Some {
        Some(Ok(Value::Base(Base::of(radix_named(name)->Some_0))))
    } else {
        None
    }
}

/// What the table of builtins that `options` selects holds for `name`.
pub open spec fn builtin<N: Number>(name: Seq<char>, options: ParseOptions) -> Option<
    Result<Value<N>, EvalError>,
> {
    if options.gnu_compatible {
        match gnu_function_named(name) {
            Some(f) => Some(Ok(Value::Func(f))),
            None => None,
        }
    } else {
        default_builtin(name)
    }
}

/// What the scope gives for a name that no table holds.
pub open spec fn scope_spec<N: Number>(ident: String, scope: Scope<N>) -> Result<Value<N>, EvalError> {
    match scope.lookup(ident@) {
        Some(v) => Ok(v),
        None => Err(EvalError::UnknownIdentifier(ident)),
    }
}

/// What a name resolves to: the builtin of that name in the table that
/// `options` selects, or else what the scope binds it to.
pub open spec fn resolve_spec<N: Number>(
    ident: String,
    scope: Scope<N>,
    options: ParseOptions,
) -> Result<Value<N>, EvalError> {
    match builtin::<N>(ident@, options) {
        Some(r) => r,
        None => scope_spec(ident, scope),
    }
}

/// Whether resolving `name` computes a constant from its numeral, which is
/// the one step of resolution that polls for cancellation.
pub open spec fn bootstraps(name: Seq<char>, options: ParseOptions) -> bool {
    !options.gnu_compatible && numeral_named(name) is Some
}

/// The number in an evaluation's result, or the failure: the evaluation's
/// own, or a type mismatch where the result is no number.
pub open spec fn numeric<N>(r: Result<Value<N>, EvalError>) -> Result<N, EvalError> {
    match r {
        Ok(v) => expect_num_spec(v),
        Err(e) => Err(e),
    }
}

/// A primitive's numeric result as an evaluation's result.
pub open spec fn num_value<N>(r: Result<N, &'static str>) -> Result<Value<N>, EvalError> {
    match r {
        Ok(n) => Ok(Value::Num(n)),
        Err(msg) => Err(EvalError::Primitive(msg)),
    }
}

/// The two operands of a binary operation, the left one first: the first
/// failure among evaluating the left, requiring it to be a number,
/// evaluating the right, and requiring that to be a number wins.
pub open spec fn operands<N>(
    left: Result<Value<N>, EvalError>,
    right: Result<Value<N>, EvalError>,
) -> Result<(N, N), EvalError> {
    match numeric(left) {
        Err(e) => Err(e),
        Ok(x) => match numeric(right) {
            Err(e) => Err(e),
            Ok(y) => Ok((x, y)),
        },
    }
}

/// The number `n` converted as `target` describes. Which conversion is made
/// depends on the kind of `target` alone.
pub open spec fn convert_spec<N: Number>(n: N, target: Value<N>) -> Result<Value<N>, EvalError> {
    match target {
        Value::Num(unit) => num_value(n.convert_to_spec(unit)),
        Value::Format(style) => Ok(Value::Num(n.with_format_spec(style))),
        Value::Dp => Ok(Value::Num(n.with_format_spec(FormattingStyle::ApproxFloat(DP_DIGITS)))),
        Value::Base(base) => Ok(Value::Num(n.with_base_spec(base))),
        Value::Func(_) => Err(EvalError::ConvertToFunction),
    }
}

/// The left side of a conversion as a number. A function there is as much
/// of an error as one on the right.
pub open spec fn convertible<N>(left: Result<Value<N>, EvalError>) -> Result<N, EvalError> {
    match left {
        Ok(Value::Num(n)) => Ok(n),
        Ok(Value::Func(_)) => Err(EvalError::ConvertToFunction),
        Ok(_) => Err(EvalError::ExpectedNumber),
        Err(e) => Err(e),
    }
}

/// The value of `expr` when nothing interrupts the evaluation.
pub open spec fn eval_spec<N: Number>(expr: Expr<N>, scope: Scope<N>, options: ParseOptions) -> Result<
    Value<N>,
    EvalError,
>
    decreases expr,
{
    match expr {
        Expr::Num(n) => Ok(Value::Num(n)),
        Expr::Ident(ident) => resolve_spec(ident, scope, options),
        Expr::Parens(x) => match numeric(eval_spec(*x, scope, options)) {
            Ok(n) => Ok(Value::Num(n)),
            Err(e) => Err(e),
        },
        Expr::UnaryPlus(x) => match numeric(eval_spec(*x, scope, options)) {
            Ok(n) => Ok(Value::Num(n)),
            Err(e) => Err(e),
        },
        Expr::UnaryMinus(x) => match numeric(eval_spec(*x, scope, options)) {
            Ok(n) => Ok(Value::Num(n.neg_spec())),
            Err(e) => Err(e),
        },
        Expr::UnaryDiv(x) => match numeric(eval_spec(*x, scope, options)) {
            Ok(n) => num_value(N::from_u64_spec(1).div_spec(n)),
            Err(e) => Err(e),
        },
        Expr::Factorial(x) => match numeric(eval_spec(*x, scope, options)) {
            Ok(n) => num_value(n.factorial_spec()),
            Err(e) => Err(e),
        },
        Expr::Add(a, b) => match operands(
            eval_spec(*a, scope, options),
            eval_spec(*b, scope, options),
        ) {
            Ok((x, y)) => num_value(x.add_spec(y)),
            Err(e) => Err(e),
        },
        Expr::Sub(a, b) => match operands(
            eval_spec(*a, scope, options),
            eval_spec(*b, scope, options),
        ) {
            Ok((x, y)) => num_value(x.sub_spec(y)),
            Err(e) => Err(e),
        },
        Expr::Mul(a, b) => match operands(
            eval_spec(*a, scope, options),
            eval_spec(*b, scope, options),
        ) {
            Ok((x, y)) => num_value(x.mul_spec(y)),
            Err(e) => Err(e),
        },
        Expr::Div(a, b) => match operands(
            eval_spec(*a, scope, options),
            eval_spec(*b, scope, options),
        ) {
            Ok((x, y)) => num_value(x.div_spec(y)),
            Err(e) => Err(e),
        },
        Expr::Pow(a, b) => match operands(
            eval_spec(*a, scope, options),
            eval_spec(*b, scope, options),
        ) {
            Ok((x, y)) => num_value(x.pow_spec(y)),
            Err(e) => Err(e),
        },
        Expr::Apply(a, b) => match eval_spec(*a, scope, options) {
            Err(e) => Err(e),
            Ok(left) => match eval_spec(*b, scope, options) {
                Err(e) => Err(e),
                Ok(right) => apply_spec(left, right, true, false),
            },
        },
        Expr::ApplyFunctionCall(a, b) => match eval_spec(*a, scope, options) {
            Err(e) => Err(e),
            Ok(left) => if !(left is Func) {
                Err(EvalError::NotAFunction)
            } else {
                match eval_spec(*b, scope, options) {
                    Err(e) => Err(e),
                    Ok(right) => apply_spec(left, right, false, false),
                }
            },
        },
        Expr::ApplyMul(a, b) => match eval_spec(*a, scope, options) {
            Err(e) => Err(e),
            Ok(left) => match eval_spec(*b, scope, options) {
                Err(e) => Err(e),
                Ok(right) => apply_spec(left, right, true, true),
            },
        },
        Expr::As(a, b) => match eval_spec(*b, scope, options) {
            Err(e) => Err(e),
            Ok(target) => if target is Func {
                Err(EvalError::ConvertToFunction)
            } else {
                match convertible(eval_spec(*a, scope, options)) {
                    Err(e) => Err(e),
                    Ok(n) => convert_spec(n, target),
                }
            },
        },
    }
}

/// Compares two strings with `str`'s own `==`, which holds exactly when the
/// two hold the same characters in the same order.
#[verifier::external_body]
fn str_eq(a: &str, b: &str) -> (r: bool)
    ensures
        r == (a@ == b@),
{
    a == b
}

/// Looks `name` up in the full table of builtin functions.
pub fn function_by_name(name: &str) -> (r: Option<Function>)
    ensures
        r == function_named(name@),
{
    if str_eq(name, "sqrt") {
        Some(Function::Sqrt)
    } else if str_eq(name, "cbrt") {
        Some(Function::Cbrt)
    } else if str_eq(name, "abs") {
        Some(Function::Abs)
    } else if str_eq(name, "sin") {
        Some(Function::Sin)
    } else if str_eq(name, "cos") {
        Some(Function::Cos)
    } else if str_eq(name, "tan") {
        Some(Function::Tan)
    } else if str_eq(name, "asin") {
        Some(Function::Asin)
    } else if str_eq(name, "acos") {
        Some(Function::Acos)
    } else if str_eq(name, "atan") {
        Some(Function::Atan)
    } else if str_eq(name, "sinh") {
        Some(Function::Sinh)
    } else if str_eq(name, "cosh") {
        Some(Function::Cosh)
    } else if str_eq(name, "tanh") {
        Some(Function::Tanh)
    } else if str_eq(name, "asinh") {
        Some(Function::Asinh)
    } else if str_eq(name, "acosh") {
        Some(Function::Acosh)
    } else if str_eq(name, "atanh") {
        Some(Function::Atanh)
    } else if str_eq(name, "ln") {
        Some(Function::Ln)
    } else if str_eq(name, "log2") {
        Some(Function::Log2)
    } else if str_eq(name, "log10") {
        Some(Function::Log10)
    } else if str_eq(name, "exp") {
        Some(Function::Exp)
    } else if str_eq(name, "approx.") || str_eq(name, "approximately") {
        Some(Function::Approximately)
    } else if str_eq(name, "base") {
        Some(Function::Base)
    } else {
        None
    }
}

/// Looks `name` up in the reduced table of builtin functions.
pub fn gnu_function_by_name(name: &str) -> (r: Option<Function>)
    ensures
        r == gnu_function_named(name@),
{
    if str_eq(name, "exp") {
        Some(Function::Exp)
    } else if str_eq(name, "sqrt") {
        Some(Function::Sqrt)
    } else if str_eq(name, "ln") {
        Some(Function::Ln)
    } else if str_eq(name, "log2") {
        Some(Function::Log2)
    } else if str_eq(name, "log10") {
        Some(Function::Log10)
    } else if str_eq(name, "tan") {
        Some(Function::Tan)
    } else if str_eq(name, "asin") {
        Some(Function::Asin)
    } else if str_eq(name, "approx.") || str_eq(name, "approximately") {
        Some(Function::Approximately)
    } else {
        None
    }
}

/// Looks `name` up among the names of rendering styles.
pub fn format_by_name(name: &str) -> (r: Option<FormattingStyle>)
    ensures
        r == format_named(name@),
{
    if str_eq(name, "auto") {
        Some(FormattingStyle::Auto)
    } else if str_eq(name, "exact") {
        Some(FormattingStyle::ExactFloatWithFractionFallback)
    } else if str_eq(name, "fraction") {
        Some(FormattingStyle::ExactFraction)
    } else if str_eq(name, "float") {
        Some(FormattingStyle::ExactFloat)
    } else {
        None
    }
}

/// Looks `name` up among the names of bases.
pub fn radix_by_name(name: &str) -> (r: Option<u8>)
    ensures
        r == radix_named(name@),
{
    if str_eq(name, "decimal") {
        Some(10u8)
    } else if str_eq(name, "hex") || str_eq(name, "hexadecimal") {
        Some(16u8)
    } else if str_eq(name, "binary") {
        Some(2u8)
    } else if str_eq(name, "octal") {
        Some(8u8)
    } else {
        None
    }
}

/// Looks `name` up among the constants that are given by a numeral.
pub fn numeral_by_name(name: &str) -> (r: Option<&'static str>)
    ensures
        r == numeral_named(name@),
{
    if str_eq(name, "pi") {
        Some("3.141592653589793238")
    } else if str_eq(name, "e") {
        Some("2.718281828459045235")
    } else {
        None
    }
}

/// Evaluates the numeral of a builtin constant: the number it denotes,
/// marked as approximate. Like every entry into evaluation this polls
/// `cancel` first. No domain error can come of it, and the scope is not
/// touched.
pub fn eval<N: Number, I: Interrupt>(input: &str, scope: &mut Scope<N>, cancel: &I) -> (r: Result<
    Value<N>,
    IntErr<Never>,
>)
    ensures
        *final(scope) == *old(scope),
        r == if cancel.requested() {
            Err::<Value<N>, IntErr<Never>>(IntErr::Interrupt)
        } else {
            Ok::<Value<N>, IntErr<Never>>(constant_spec::<N>(input))
        },
{
    match test_int::<I, Never>(cancel) {
        Err(e) => Err(e),
        Ok(()) => Ok(Value::Num(N::from_literal(input).make_approximate())),
    }
}

/// What [`resolve_identifier`] returns: resolution is a lookup, except that
/// a constant given by a numeral is evaluated, which polls for cancellation.
pub open spec fn resolve_outcome<N: Number>(
    ident: String,
    scope: Scope<N>,
    options: ParseOptions,
    requested: bool,
) -> Result<Value<N>, IntErr<EvalError>> {
    if requested && bootstraps(ident@, options) {
        Err(IntErr::Interrupt)
    } else {
        lift(resolve_spec(ident, scope, options))
    }
}

/// Resolves a name: against the table of builtins that `options` selects,
/// and against the scope where the table does not hold it. A name that
/// neither knows is an error. The scope is only read.
pub fn resolve_identifier<N: Number, I: Interrupt>(
    ident: &String,
    scope: &mut Scope<N>,
    options: ParseOptions,
    cancel: &I,
) -> (r: Result<Value<N>, IntErr<EvalError>>)
    ensures
        *final(scope) == *old(scope),
        r == resolve_outcome(*ident, *old(scope), options, cancel.requested()),
{
    let name = ident.as_str();
    if options.gnu_compatible {
        return match gnu_function_by_name(name) {
            Some(f) => Ok(Value::Func(f)),
            None => from_scope(ident, scope),
        };
    }
    if let Some(numeral) = numeral_by_name(name) {
        return match eval(numeral, scope, cancel) {
            Ok(v) => Ok(v),
            Err(IntErr::Interrupt) => Err(IntErr::Interrupt),
            Err(IntErr::Error(_)) => unreached(),
        };
    }
    if str_eq(name, "i") {
        return Ok(Value::Num(N::i()));
    }
    if let Some(f) = function_by_name(name) {
        return Ok(Value::Func(f));
    }
    if let Some(style) = format_by_name(name) {
        return Ok(Value::Format(style));
    }
    if str_eq(name, "dp") {
        return Ok(Value::Dp);
    }
    if let Some(radix) = radix_by_name(name) {
        return match Base::from_plain_base(radix) {
            Ok(base) => Ok(Value::Base(base)),
            Err(_) => unreached(),
        };
    }
    from_scope(ident, scope)
}

/// Looks a name up in the scope; a miss is the error of an unknown name.
pub fn from_scope<N: Number>(ident: &String, scope: &Scope<N>) -> (r: Result<
    Value<N>,
    IntErr<EvalError>,
>)
    ensures
        r == lift(scope_spec(*ident, *scope)),
{
    match scope.get(ident) {
        Some(v) => Ok(v),
        None => Err(IntErr::Error(EvalError::UnknownIdentifier(ident.clone()))),
    }
}

/// A primitive's numeric outcome as an evaluation's outcome.
fn number<N>(r: Result<N, IntErr<&'static str>>) -> (v: Result<Value<N>, IntErr<EvalError>>)
    ensures
        v == match r {
            Ok(n) => Ok::<Value<N>, IntErr<EvalError>>(Value::Num(n)),
            Err(IntErr::Interrupt) => Err(IntErr::Interrupt),
            Err(IntErr::Error(msg)) => Err(IntErr::Error(EvalError::Primitive(msg))),
        },
{
    match r {
        Ok(n) => Ok(Value::Num(n)),
        Err(e) => Err(e.into_eval()),
    }
}

/// The left side of a conversion as a number.
fn expect_convertible<N: Number>(v: Value<N>) -> (r: Result<N, IntErr<EvalError>>)
    ensures
        r == lift(convertible(Ok::<Value<N>, EvalError>(v))),
{
    match v {
        Value::Num(n) => Ok(n),
        Value::Func(_) => Err(IntErr::Error(EvalError::ConvertToFunction)),
        _ => Err(IntErr::Error(EvalError::ExpectedNumber)),
    }
}

/// Evaluates `expr`.
///
/// The cancellation signal is polled before each node is visited: where
/// cancellation has been requested the result is an interrupt, whatever the
/// expression. Otherwise the result is the expression's value, or the first
/// error that evaluating it from left to right meets (in a conversion the
/// right side, which decides the kind of conversion, comes first). The scope
/// is only read.
pub fn evaluate<N: Number, I: Interrupt>(
    expr: Expr<N>,
    scope: &mut Scope<N>,
    options: ParseOptions,
    cancel: &I,
) -> (r: Result<Value<N>, IntErr<EvalError>>)
    ensures
        *final(scope) == *old(scope),
        r == polled(cancel.requested(), eval_spec(expr, *old(scope), options)),
    decreases expr,
{
    test_int::<I, EvalError>(cancel)?;
    match expr {
        Expr::Num(n) => Ok(Value::Num(n)),
        Expr::Ident(ident) => resolve_identifier(&ident, scope, options, cancel),
        Expr::Parens(x) => Ok(Value::Num(evaluate(*x, scope, options, cancel)?.expect_num()?)),
        Expr::UnaryPlus(x) => Ok(Value::Num(evaluate(*x, scope, options, cancel)?.expect_num()?)),
        Expr::UnaryMinus(x) => {
            let n = evaluate(*x, scope, options, cancel)?.expect_num()?;
            Ok(Value::Num(n.neg()))
        },
        Expr::UnaryDiv(x) => {
            let n = evaluate(*x, scope, options, cancel)?.expect_num()?;
            number(N::from_u64(1).div(n, cancel))
        },
        Expr::Factorial(x) => {
            let n = evaluate(*x, scope, options, cancel)?.expect_num()?;
            number(n.factorial(cancel))
        },
        Expr::Add(a, b) => {
            let x = evaluate(*a, scope, options, cancel)?.expect_num()?;
            let y = evaluate(*b, scope, options, cancel)?.expect_num()?;
            number(x.add(y, cancel))
        },
        Expr::Sub(a, b) => {
            let x = evaluate(*a, scope, options, cancel)?.expect_num()?;
            let y = evaluate(*b, scope, options, cancel)?.expect_num()?;
            number(x.sub(y, cancel))
        },
        Expr::Mul(a, b) => {
            let x = evaluate(*a, scope, options, cancel)?.expect_num()?;
            let y = evaluate(*b, scope, options, cancel)?.expect_num()?;
            number(x.mul(y, cancel))
        },
        Expr::Div(a, b) => {
            let x = evaluate(*a, scope, options, cancel)?.expect_num()?;
            let y = evaluate(*b, scope, options, cancel)?.expect_num()?;
            number(x.div(y, cancel))
        },
        Expr::Pow(a, b) => {
            let x = evaluate(*a, scope, options, cancel)?.expect_num()?;
            let y = evaluate(*b, scope, options, cancel)?.expect_num()?;
            number(x.pow(y, cancel))
        },
        Expr::Apply(a, b) => {
            let left = evaluate(*a, scope, options, cancel)?;
            let right = evaluate(*b, scope, options, cancel)?;
            left.apply(right, true, false, cancel)
        },
        Expr::ApplyFunctionCall(a, b) => {
            let left = evaluate(*a, scope, options, cancel)?;
            match left {
                Value::Func(_) => {
                    let right = evaluate(*b, scope, options, cancel)?;
                    left.apply(right, false, false, cancel)
                },
                _ => Err(IntErr::Error(EvalError::NotAFunction)),
            }
        },
        Expr::ApplyMul(a, b) => {
            let left = evaluate(*a, scope, options, cancel)?;
            let right = evaluate(*b, scope, options, cancel)?;
            left.apply(right, true, true, cancel)
        },
        Expr::As(a, b) => {
            let target = evaluate(*b, scope, options, cancel)?;
            match target {
                Value::Func(_) => Err(IntErr::Error(EvalError::ConvertToFunction)),
                Value::Num(unit) => {
                    let n = expect_convertible(evaluate(*a, scope, options, cancel)?)?;
                    number(n.convert_to(unit, cancel))
                },
                Value::Format(style) => {
                    let n = expect_convertible(evaluate(*a, scope, options, cancel)?)?;
                    Ok(Value::Num(n.with_format(style)))
                },
                Value::Dp => {
                    let n = expect_convertible(evaluate(*a, scope, options, cancel)?)?;
                    Ok(Value::Num(n.with_format(FormattingStyle::ApproxFloat(DP_DIGITS))))
                },
                Value::Base(base) => {
                    let n = expect_convertible(evaluate(*a, scope, options, cancel)?)?;
                    Ok(Value::Num(n.with_base(base)))
                },
            }
        },
    }
}

} // verus!
