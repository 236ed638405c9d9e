//! What holds of every evaluation, proved from the definitions.

use vstd::prelude::*;
use crate::ast::{
    constant_spec, convert_spec, default_builtin, eval_spec, function_named, gnu_function_named,
    num_value, numeral_named, resolve_spec, Expr, ParseOptions,
};
use crate::err::{polled, EvalError, IntErr};
use crate::num::{Base, Number};
use crate::scope::Scope;
use crate::value::{call_function_spec, Function, Value};

verus! {

/// A literal evaluates to its own number.
pub proof fn lemma_literal<N: Number>(n: N, scope: Scope<N>, options: ParseOptions)
    ensures
        eval_spec(Expr::Num(n), scope, options) == Ok::<Value<N>, EvalError>(Value::Num(n)),
{
}

/// Where both operands of an addition evaluate, the sum is the number
/// primitive's sum of the two if both are numbers, and a type mismatch if
/// either is not.
pub proof fn lemma_add<N: Number>(
    a: Expr<N>,
    b: Expr<N>,
    left: Value<N>,
    right: Value<N>,
    scope: Scope<N>,
    options: ParseOptions,
)
    requires
        eval_spec(a, scope, options) == Ok::<Value<N>, EvalError>(left),
        eval_spec(b, scope, options) == Ok::<Value<N>, EvalError>(right),
    ensures
        left is Num && right is Num ==> eval_spec(
            Expr::Add(Box::new(a), Box::new(b)),
            scope,
            options,
        ) == num_value(left->Num_0.add_spec(right->Num_0)),
        !(left is Num && right is Num) ==> eval_spec(
            Expr::Add(Box::new(a), Box::new(b)),
            scope,
            options,
        ) == Err::<Value<N>, EvalError>(EvalError::ExpectedNumber),
        EvalError::ExpectedNumber.is_type_mismatch(),
{
}

/// A function beside a number: the implicit application calls the function
/// on the number, the forced multiplication is a type mismatch.
pub proof fn lemma_apply_or_multiply<N: Number>(
    a: Expr<N>,
    b: Expr<N>,
    f: Function,
    x: N,
    scope: Scope<N>,
    options: ParseOptions,
)
    requires
        eval_spec(a, scope, options) == Ok::<Value<N>, EvalError>(Value::Func(f)),
        eval_spec(b, scope, options) == Ok::<Value<N>, EvalError>(Value::Num(x)),
    ensures
        eval_spec(Expr::Apply(Box::new(a), Box::new(b)), scope, options) == call_function_spec(
            f,
            x,
        ),
        eval_spec(Expr::ApplyFunctionCall(Box::new(a), Box::new(b)), scope, options)
            == call_function_spec(f, x),
        eval_spec(Expr::ApplyMul(Box::new(a), Box::new(b)), scope, options) == Err::<
            Value<N>,
            EvalError,
        >(EvalError::ExpectedNumber),
{
}

/// An explicit call whose left side evaluates to something other than a
/// function is an error, whatever the right side is; with a number on both
/// sides the implicit application of the same two is their product.
pub proof fn lemma_explicit_call_is_strict<N: Number>(
    a: Expr<N>,
    b: Expr<N>,
    left: Value<N>,
    scope: Scope<N>,
    options: ParseOptions,
)
    requires
        eval_spec(a, scope, options) == Ok::<Value<N>, EvalError>(left),
        !(left is Func),
    ensures
        eval_spec(Expr::ApplyFunctionCall(Box::new(a), Box::new(b)), scope, options) == Err::<
            Value<N>,
            EvalError,
        >(EvalError::NotAFunction),
        forall|n: N, m: N|
            left == Value::Num(n) && eval_spec(b, scope, options) == Ok::<Value<N>, EvalError>(
                Value::Num(m),
            ) ==> eval_spec(Expr::Apply(Box::new(a), Box::new(b)), scope, options) == num_value(
                n.mul_spec(m),
            ),
{
}

/// The kind of the right side alone decides which conversion is made of a
/// number on the left: a base there sets the rendering base and never
/// converts units, a number there converts units and never sets a base.
pub proof fn lemma_conversion_dispatch<N: Number>(
    a: Expr<N>,
    b: Expr<N>,
    n: N,
    target: Value<N>,
    scope: Scope<N>,
    options: ParseOptions,
)
    requires
        eval_spec(a, scope, options) == Ok::<Value<N>, EvalError>(Value::Num(n)),
        eval_spec(b, scope, options) == Ok::<Value<N>, EvalError>(target),
    ensures
        eval_spec(Expr::As(Box::new(a), Box::new(b)), scope, options) == convert_spec(n, target),
        forall|base: Base|
            target == Value::<N>::Base(base) ==> convert_spec(n, target) == Ok::<
                Value<N>,
                EvalError,
            >(Value::Num(n.with_base_spec(base))),
        forall|unit: N|
            target == Value::Num(unit) ==> convert_spec(n, target) == num_value(
                n.convert_to_spec(unit),
            ),
{
}

/// Once cancellation has been requested, every expression evaluates to an
/// interrupt.
pub proof fn lemma_cancellation_wins<N: Number>(
    expr: Expr<N>,
    scope: Scope<N>,
    options: ParseOptions,
)
    ensures
        polled(true, eval_spec(expr, scope, options)) == Err::<Value<N>, IntErr<EvalError>>(
            IntErr::Interrupt,
        ),
{
}

/// Every name of the reduced table of builtins is a name of the full table,
/// and stands for the same function there. So such a name resolves alike
/// under both settings of the option, whatever the scope binds.
pub proof fn lemma_reduced_table_agrees<N: Number>(ident: String, scope: Scope<N>)
    requires
        gnu_function_named(ident@) is Some,
    ensures
        function_named(ident@) == gnu_function_named(ident@),
        default_builtin::<N>(ident@) == Some(
            Ok::<Value<N>, EvalError>(Value::Func(gnu_function_named(ident@)->Some_0)),
        ),
        resolve_spec(ident, scope, ParseOptions { gnu_compatible: true }) == resolve_spec(
            ident,
            scope,
            ParseOptions { gnu_compatible: false },
        ),
        ident@ == "approx."@ || ident@ == "approximately"@ ==> gnu_function_named(ident@) == Some(
            Function::Approximately,
        ),
{
    reveal_strlit("pi");
    assert("pi"@.len() == 2 && "pi"@[0] == 'p');
    reveal_strlit("e");
    assert("e"@.len() == 1 && "e"@[0] == 'e');
    reveal_strlit("i");
    assert("i"@.len() == 1 && "i"@[0] == 'i');
    reveal_strlit("sqrt");
    assert("sqrt"@.len() == 4 && "sqrt"@[0] == 's');
    reveal_strlit("cbrt");
    assert("cbrt"@.len() == 4 && "cbrt"@[0] == 'c');
    reveal_strlit("abs");
    assert("abs"@.len() == 3 && "abs"@[0] == 'a');
    reveal_strlit("sin");
    assert("sin"@.len() == 3 && "sin"@[0] == 's');
    reveal_strlit("cos");
    assert("cos"@.len() == 3 && "cos"@[0] == 'c');
    reveal_strlit("tan");
    assert("tan"@.len() == 3 && "tan"@[0] == 't');
    reveal_strlit("asin");
    assert("asin"@.len() == 4 && "asin"@[0] == 'a');
    reveal_strlit("acos");
    assert("acos"@.len() == 4 && "acos"@[0] == 'a');
    reveal_strlit("atan");
    assert("atan"@.len() == 4 && "atan"@[0] == 'a');
    reveal_strlit("sinh");
    assert("sinh"@.len() == 4 && "sinh"@[0] == 's');
    reveal_strlit("cosh");
    assert("cosh"@.len() == 4 && "cosh"@[0] == 'c');
    reveal_strlit("tanh");
    assert("tanh"@.len() == 4 && "tanh"@[0] == 't');
    reveal_strlit("asinh");
    assert("asinh"@.len() == 5 && "asinh"@[0] == 'a');
    reveal_strlit("acosh");
    assert("acosh"@.len() == 5 && "acosh"@[0] == 'a');
    reveal_strlit("atanh");
    assert("atanh"@.len() == 5 && "atanh"@[0] == 'a');
    reveal_strlit("ln");
    assert("ln"@.len() == 2 && "ln"@[0] == 'l');
    reveal_strlit("log2");
    assert("log2"@.len() == 4 && "log2"@[0] == 'l');
    reveal_strlit("log10");
    assert("log10"@.len() == 5 && "log10"@[0] == 'l');
    reveal_strlit("exp");
    assert("exp"@.len() == 3 && "exp"@[0] == 'e');
    reveal_strlit("approx.");
    assert("approx."@.len() == 7 && "approx."@[0] == 'a');
    reveal_strlit("approximately");
    assert("approximately"@.len() == 13 && "approximately"@[0] == 'a');
}

/// A builtin constant that is given by a numeral has the value that the
/// expression has which marks the numeral's number as approximate: under
/// the full table, applying `approx.` to the literal evaluates to the
/// constant.
pub proof fn lemma_constant_is_approximation<N: Number>(
    marker: String,
    numeral: &str,
    scope: Scope<N>,
)
    requires
        marker@ == "approx."@,
    ensures
        eval_spec(
            Expr::Apply(
                Box::new(Expr::Ident(marker)),
                Box::new(Expr::Num(N::from_literal_spec(numeral))),
            ),
            scope,
            ParseOptions { gnu_compatible: false },
        ) == Ok::<Value<N>, EvalError>(constant_spec::<N>(numeral)),
        forall|name: Seq<char>|
            numeral_named(name) is Some ==> default_builtin::<N>(name) == Some(
                Ok::<Value<N>, EvalError>(constant_spec::<N>(numeral_named(name)->Some_0)),
            ),
{
    lemma_reduced_table_agrees(marker, scope);
    let options = ParseOptions { gnu_compatible: false };
    assert(eval_spec(Expr::<N>::Ident(marker), scope, options) == Ok::<Value<N>, EvalError>(
        Value::Func(Function::Approximately),
    ));
    assert(eval_spec(Expr::Num(N::from_literal_spec(numeral)), scope, options) == Ok::<
        Value<N>,
        EvalError,
    >(Value::Num(N::from_literal_spec(numeral))));
}

/// Operands are evaluated from the left: where the left operand of an
/// operation fails, the operation fails in the same way, whatever the right
/// operand is.
pub proof fn lemma_left_fails_first<N: Number>(
    a: Expr<N>,
    b: Expr<N>,
    e: EvalError,
    scope: Scope<N>,
    options: ParseOptions,
)
    requires
        eval_spec(a, scope, options) == Err::<Value<N>, EvalError>(e),
    ensures
        eval_spec(Expr::Add(Box::new(a), Box::new(b)), scope, options) == Err::<
            Value<N>,
            EvalError,
        >(e),
        eval_spec(Expr::Sub(Box::new(a), Box::new(b)), scope, options) == Err::<
            Value<N>,
            EvalError,
        >(e),
        eval_spec(Expr::Mul(Box::new(a), Box::new(b)), scope, options) == Err::<
            Value<N>,
            EvalError,
        >(e),
        eval_spec(Expr::Div(Box::new(a), Box::new(b)), scope, options) == Err::<
            Value<N>,
            EvalError,
        >(e),
        eval_spec(Expr::Pow(Box::new(a), Box::new(b)), scope, options) == Err::<
            Value<N>,
            EvalError,
        >(e),
        eval_spec(Expr::Apply(Box::new(a), Box::new(b)), scope, options) == Err::<
            Value<N>,
            EvalError,
        >(e),
        eval_spec(Expr::ApplyFunctionCall(Box::new(a), Box::new(b)), scope, options) == Err::<
            Value<N>,
            EvalError,
        >(e),
        eval_spec(Expr::ApplyMul(Box::new(a), Box::new(b)), scope, options) == Err::<
            Value<N>,
            EvalError,
        >(e),
{
}

/// In a conversion the target is evaluated first: where it fails, the
/// conversion fails in the same way, and where it is a function, the
/// conversion is an error, whatever the left side is.
pub proof fn lemma_target_comes_first<N: Number>(
    a: Expr<N>,
    b: Expr<N>,
    scope: Scope<N>,
    options: ParseOptions,
)
    ensures
        forall|e: EvalError|
            eval_spec(b, scope, options) == Err::<Value<N>, EvalError>(e) ==> eval_spec(
                Expr::As(Box::new(a), Box::new(b)),
                scope,
                options,
            ) == Err::<Value<N>, EvalError>(e),
        forall|f: Function|
            eval_spec(b, scope, options) == Ok::<Value<N>, EvalError>(Value::Func(f))
                ==> eval_spec(Expr::As(Box::new(a), Box::new(b)), scope, options) == Err::<
                Value<N>,
                EvalError,
            >(EvalError::ConvertToFunction),
{
}

} // verus!
