use fend_core::ast::{evaluate, resolve_identifier, Expr, ParseOptions};
use fend_core::err::{EvalError, IntErr};
use fend_core::exact::{digit, find_root, write_decimal, Exact, LIMIT, MAX_STEPS};
use fend_core::interrupt::{NeverInterrupt, Signal};
use fend_core::num::{Base, FormattingStyle, Number};
use fend_core::scope::Scope;
use fend_core::value::{Function, Value};

type Outcome = Result<Value<Exact>, IntErr<EvalError>>;

fn whole(n: u64) -> Box<Expr<Exact>> {
    Box::new(Expr::Num(Exact::new(n, 1)))
}

fn name(text: &str) -> Box<Expr<Exact>> {
    Box::new(Expr::Ident(text.to_string()))
}

fn calc(expr: Expr<Exact>) -> Outcome {
    let mut scope = Scope::new();
    evaluate(expr, &mut scope, ParseOptions::default(), &NeverInterrupt)
}

fn fraction(num: u64, den: u64) -> Outcome {
    Ok(Value::Num(Exact::new(num, den)))
}

fn primitive_error(msg: &'static str) -> Outcome {
    Err(IntErr::Error(EvalError::Primitive(msg)))
}

#[test]
fn exact_two_plus_three_is_five() {
    assert_eq!(calc(Expr::Add(whole(2), whole(3))), fraction(5, 1));
}

#[test]
fn exact_one_by_zero_is_an_error() {
    assert_eq!(calc(Expr::Div(whole(1), whole(0))), primitive_error("division by zero"));
    assert_eq!(calc(Expr::UnaryDiv(whole(0))), primitive_error("division by zero"));
}

#[test]
fn exact_pi_has_eighteen_decimals() {
    let mut scope: Scope<Exact> = Scope::new();
    let options = ParseOptions::default();
    let r = resolve_identifier(&"pi".to_string(), &mut scope, options, &NeverInterrupt);
    let pi = Exact { approx: true, ..Exact::new(3141592653589793238, 1000000000000000000) };
    assert_eq!(r, Ok(Value::Num(pi)));
    let r = resolve_identifier(&"e".to_string(), &mut scope, options, &NeverInterrupt);
    let e = Exact { approx: true, ..Exact::new(2718281828459045235, 1000000000000000000) };
    assert_eq!(r, Ok(Value::Num(e)));
    let r = resolve_identifier(&"i".to_string(), &mut scope, options, &NeverInterrupt);
    assert_eq!(r, Ok(Value::Num(Exact { imaginary: true, ..Exact::new(1, 1) })));
}

#[test]
fn exact_call_agrees_with_apply() {
    let minus_nine = || Box::new(Expr::UnaryMinus(whole(9)));
    let explicit = calc(Expr::ApplyFunctionCall(name("abs"), minus_nine()));
    let implicit = calc(Expr::Apply(name("abs"), minus_nine()));
    assert_eq!(explicit, fraction(9, 1));
    assert_eq!(explicit, implicit);
    let explicit = calc(Expr::ApplyFunctionCall(name("sqrt"), whole(9)));
    let implicit = calc(Expr::Apply(name("sqrt"), whole(9)));
    assert_eq!(explicit, fraction(3, 1));
    assert_eq!(explicit, implicit);
    assert_eq!(calc(Expr::ApplyMul(name("abs"), minus_nine())), Err(IntErr::Error(EvalError::ExpectedNumber)));
}

#[test]
fn exact_255_as_hex() {
    let r = calc(Expr::As(whole(255), name("hex")));
    let base = Base::from_plain_base(16).unwrap();
    assert_eq!(r, Ok(Value::Num(Exact { base, ..Exact::new(255, 1) })));
    assert_eq!(base.radix(), 16);
    assert_eq!(Exact::new(255, 1).base.radix(), 10);
}

#[test]
fn exact_conversion_of_a_function() {
    let r = calc(Expr::As(name("ln"), whole(1)));
    assert_eq!(r, Err(IntErr::Error(EvalError::ConvertToFunction)));
}

#[test]
fn exact_conversions() {
    let r = calc(Expr::As(whole(7), name("dp")));
    let style = FormattingStyle::ApproxFloat(10);
    assert_eq!(r, Ok(Value::Num(Exact { style, ..Exact::new(7, 1) })));
    let r = calc(Expr::As(whole(7), name("exact")));
    let style = FormattingStyle::ExactFloatWithFractionFallback;
    assert_eq!(r, Ok(Value::Num(Exact { style, ..Exact::new(7, 1) })));
    assert_eq!(calc(Expr::As(whole(7), whole(1))), fraction(7, 1));
    assert_eq!(
        calc(Expr::As(whole(7), whole(2))),
        primitive_error("the target of a conversion must be a unit")
    );
    let r = calc(Expr::As(whole(7), Box::new(Expr::Apply(name("base"), whole(3)))));
    let base = Base::from_plain_base(3).unwrap();
    assert_eq!(r, Ok(Value::Num(Exact { base, ..Exact::new(7, 1) })));
    assert_eq!(calc(Expr::Apply(name("base"), whole(1))), primitive_error("no such base"));
    assert_eq!(calc(Expr::Apply(name("base"), whole(300))), primitive_error("no such base"));
}

#[test]
fn exact_arithmetic() {
    assert_eq!(calc(Expr::Sub(whole(2), whole(3))), Ok(Value::Num(Exact::new(1, 1).neg())));
    assert_eq!(calc(Expr::Mul(whole(6), whole(7))), fraction(42, 1));
    assert_eq!(calc(Expr::Div(whole(6), whole(4))), fraction(6, 4));
    assert_eq!(calc(Expr::UnaryDiv(whole(4))), fraction(1, 4));
    assert_eq!(calc(Expr::Pow(whole(2), whole(10))), fraction(1024, 1));
    assert_eq!(calc(Expr::Pow(whole(2), whole(0))), fraction(1, 1));
    assert_eq!(calc(Expr::Factorial(whole(5))), fraction(120, 1));
    assert_eq!(calc(Expr::Factorial(whole(0))), fraction(1, 1));
    assert_eq!(calc(Expr::Factorial(whole(20))), fraction(2432902008176640000, 1));
    let halves = Expr::Add(Box::new(Expr::UnaryDiv(whole(2))), Box::new(Expr::UnaryDiv(whole(3))));
    assert_eq!(calc(halves), fraction(5, 6));
    let square = Expr::Mul(Box::new(Expr::UnaryMinus(whole(3))), Box::new(Expr::UnaryMinus(whole(3))));
    assert_eq!(calc(square), fraction(9, 1));
}

#[test]
fn exact_limits() {
    assert_eq!(calc(Expr::Factorial(whole(21))), primitive_error("number out of range"));
    assert_eq!(calc(Expr::Factorial(whole(MAX_STEPS + 1))), primitive_error("number out of range"));
    assert_eq!(calc(Expr::Pow(whole(2), whole(62))), fraction(LIMIT, 1));
    assert_eq!(calc(Expr::Pow(whole(2), whole(63))), primitive_error("number out of range"));
    assert_eq!(calc(Expr::Pow(whole(1), whole(MAX_STEPS))), fraction(1, 1));
    assert_eq!(calc(Expr::Pow(whole(1), whole(MAX_STEPS + 1))), primitive_error("exponent too large"));
    let half = Box::new(Expr::UnaryDiv(whole(2)));
    assert_eq!(calc(Expr::Pow(whole(4), half)), primitive_error("exponent is not a whole number"));
    assert_eq!(calc(Expr::Add(whole(LIMIT), whole(1))), primitive_error("number out of range"));
    assert_eq!(calc(Expr::Add(whole(LIMIT + 1), whole(0))), primitive_error("number out of range"));
    let r = calc(Expr::Factorial(Box::new(Expr::UnaryMinus(whole(1)))));
    assert_eq!(
        r,
        primitive_error("factorial is only defined for whole numbers that are not negative")
    );
    assert_eq!(calc(Expr::Apply(name("sin"), whole(1))), primitive_error("no exact result"));
}

#[test]
fn exact_imaginary_unit() {
    let i = || name("i");
    let minus_one = Exact { negative: true, ..Exact::new(1, 1) };
    assert_eq!(calc(Expr::Mul(i(), i())), Ok(Value::Num(minus_one)));
    assert_eq!(calc(Expr::Div(i(), i())), fraction(1, 1));
    let minus_i = Exact { negative: true, imaginary: true, ..Exact::new(1, 1) };
    assert_eq!(calc(Expr::UnaryDiv(i())), Ok(Value::Num(minus_i)));
    let two_i = Exact { imaginary: true, ..Exact::new(2, 1) };
    assert_eq!(calc(Expr::Add(i(), i())), Ok(Value::Num(two_i)));
    assert_eq!(calc(Expr::Add(i(), whole(1))), primitive_error("complex numbers are not supported"));
}

#[test]
fn exact_approximation_spreads() {
    let sum = calc(Expr::Add(name("pi"), whole(1)));
    let expected =
        Exact { approx: true, ..Exact::new(4141592653589793238, 1000000000000000000) };
    assert_eq!(sum, Ok(Value::Num(expected)));
    let marked = calc(Expr::Apply(name("approx."), whole(2)));
    assert_eq!(marked, Ok(Value::Num(Exact { approx: true, ..Exact::new(2, 1) })));
}

#[test]
fn exact_numerals() {
    assert_eq!(Exact::from_literal("42"), Exact::new(42, 1));
    assert_eq!(Exact::from_literal("0.5"), Exact::new(5, 10));
    assert_eq!(Exact::from_literal("3.25"), Exact::new(325, 100));
    assert_eq!(Exact::from_literal(""), Exact::new(0, 1));
    assert_eq!(Exact::from_literal("."), Exact::new(0, 1));
    assert_eq!(Exact::from_literal("12x34"), Exact::new(12, 1));
    assert_eq!(Exact::from_literal("1.2.3"), Exact::new(12, 10));
    assert_eq!(Exact::from_literal("007"), Exact::new(7, 1));
    assert_eq!(Exact::from_u64(9), Exact::new(9, 1));
    assert_eq!(digit('7'), Some(7));
    assert_eq!(digit('a'), None);
    // a numeral ends where the next digit would not fit
    assert_eq!(
        Exact::from_literal("4611686018427387904"),
        Exact::new(461168601842738790, 1)
    );
}

#[test]
fn exact_same_value() {
    assert!(Exact::new(1, 2).same_value(&Exact::new(2, 4)));
    assert!(!Exact::new(1, 2).same_value(&Exact::new(2, 3)));
    assert!(!Exact::new(1, 2).same_value(&Exact::new(1, 2).neg()));
    assert!(Exact::new(0, 1).same_value(&Exact::new(0, 5).neg()));
    assert!(!Exact::new(1, 0).same_value(&Exact::new(1, 0)));
    assert!(Exact::new(1, 2).make_approximate().same_value(&Exact::new(1, 2)));
    assert!(Exact::new(LIMIT, 1).is_in_range());
    assert!(!Exact::new(LIMIT + 1, 1).is_in_range());
    assert!(!Exact::new(1, 0).is_in_range());
}

#[test]
fn exact_cancellation() {
    let mut scope: Scope<Exact> = Scope::new();
    let raised = Signal { raised: true };
    let r = evaluate(Expr::Add(whole(2), whole(3)), &mut scope, ParseOptions::default(), &raised);
    assert_eq!(r, Err(IntErr::Interrupt));
    let r = evaluate(Expr::Num(Exact::new(1, 1)), &mut scope, ParseOptions::default(), &raised);
    assert_eq!(r, Err(IntErr::Interrupt));
}

#[test]
fn exact_function_values() {
    let r = calc(Expr::Ident("abs".to_string()));
    assert_eq!(r, Ok(Value::Func(Function::Abs)));
    let mut scope = Scope::new();
    scope.insert("x".to_string(), Value::Num(Exact::new(3, 1)));
    let r = evaluate(
        Expr::Pow(name("x"), whole(2)),
        &mut scope,
        ParseOptions { gnu_compatible: true },
        &NeverInterrupt,
    );
    assert_eq!(r, fraction(9, 1));
}

#[test]
fn exact_expressions_as_text() {
    assert_eq!(Expr::Num(Exact::new(255, 1)).debug_text(), "255");
    assert_eq!(Expr::<Exact>::Ident("pi".to_string()).debug_text(), "pi");
    assert_eq!(Expr::Parens(whole(1)).debug_text(), "(1)");
    assert_eq!(Expr::UnaryMinus(whole(1)).debug_text(), "(-1)");
    assert_eq!(Expr::UnaryPlus(whole(1)).debug_text(), "(+1)");
    assert_eq!(Expr::UnaryDiv(whole(1)).debug_text(), "(/1)");
    assert_eq!(Expr::Factorial(whole(5)).debug_text(), "5!");
    assert_eq!(Expr::Add(whole(2), whole(3)).debug_text(), "(2+3)");
    assert_eq!(Expr::Sub(whole(2), whole(3)).debug_text(), "(2-3)");
    assert_eq!(Expr::Mul(whole(2), whole(3)).debug_text(), "(2*3)");
    assert_eq!(Expr::Div(whole(2), whole(3)).debug_text(), "(2/3)");
    assert_eq!(Expr::Pow(whole(2), whole(3)).debug_text(), "(2^3)");
    assert_eq!(Expr::Apply(name("sqrt"), whole(9)).debug_text(), "(sqrt (9))");
    assert_eq!(Expr::ApplyFunctionCall(name("sqrt"), whole(9)).debug_text(), "(sqrt 9)");
    assert_eq!(Expr::ApplyMul(whole(2), name("x")).debug_text(), "(2 x)");
    assert_eq!(Expr::As(whole(255), name("hex")).debug_text(), "(255 as hex)");
    let nested = Expr::Mul(Box::new(Expr::Add(whole(1), whole(2))), Box::new(Expr::Factorial(whole(3))));
    assert_eq!(nested.debug_text(), "((1+2)*3!)");
}

#[test]
fn exact_numbers_as_text() {
    assert_eq!(write_decimal(0), "0");
    assert_eq!(write_decimal(7), "7");
    assert_eq!(write_decimal(10), "10");
    assert_eq!(write_decimal(18446744073709551615), "18446744073709551615");
    assert_eq!(Exact::new(5, 6).debug_text(), "5/6");
    assert_eq!(Exact::new(5, 1).neg().debug_text(), "-5");
    assert_eq!(Exact::i().debug_text(), "1i");
    assert_eq!(Exact::new(3, 4).neg().make_approximate().debug_text(), "-3/4");
}

#[test]
fn exact_square_roots() {
    assert_eq!(find_root(0), Some(0));
    assert_eq!(find_root(1), Some(1));
    assert_eq!(find_root(2), None);
    assert_eq!(find_root(144), Some(12));
    assert_eq!(find_root(145), None);
    assert_eq!(find_root(LIMIT), Some(2147483648));
    assert_eq!(find_root(LIMIT - 1), None);
    let nine_quarters = Box::new(Expr::Div(whole(9), whole(4)));
    assert_eq!(calc(Expr::Apply(name("sqrt"), nine_quarters)), fraction(3, 2));
    assert_eq!(calc(Expr::Apply(name("sqrt"), whole(2))), primitive_error("no exact result"));
    let minus_four = Box::new(Expr::UnaryMinus(whole(4)));
    assert_eq!(calc(Expr::Apply(name("sqrt"), minus_four)), primitive_error("no exact result"));
    assert_eq!(calc(Expr::Apply(name("sqrt"), name("i"))), primitive_error("no exact result"));
}

#[test]
fn exact_error_messages() {
    assert_eq!(EvalError::ExpectedNumber.message(), "expected a number");
    assert_eq!(EvalError::NotAFunction.message(), "value is not a function");
    assert_eq!(EvalError::ConvertToFunction.message(), "unable to convert value to a function");
    assert_eq!(EvalError::UnknownIdentifier("x".to_string()).message(), "unknown identifier 'x'");
    assert_eq!(EvalError::Primitive("division by zero").message(), "division by zero");
    assert!(EvalError::ExpectedNumber.type_mismatch());
    assert!(EvalError::NotAFunction.type_mismatch());
    assert!(EvalError::ConvertToFunction.type_mismatch());
    assert!(!EvalError::UnknownIdentifier("x".to_string()).type_mismatch());
    assert!(!EvalError::Primitive("division by zero").type_mismatch());
}
