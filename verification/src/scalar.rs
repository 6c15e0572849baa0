//! The scalar layer: real parameters that are either a number or a symbolic
//! expression, as provided by `qoqo_calculator`.
//!
//! Verified code never looks inside a [`CalculatorFloat`]. What it holds is
//! described by [`value_of`], and every operation on it is a call into
//! `qoqo_calculator` (or `num_complex`) behind a small trusted function of
//! this module. The contracts of those functions are the assumptions on which
//! the proofs of this crate rest.
//!
//! Sums, differences, products, quotients and square roots of numbers are
//! fixed by IEEE 754, up to the sign and the payload of a NaN; that is why
//! every NaN counts as one value here, and why the results of these
//! operations have names. Cosines, sines, norms and arguments are not fixed to
//! the last digit: two calls on one number may differ. Of them a relation
//! says no more than that a value is one that the call gave for its input.
use num_complex::Complex64;
use qoqo_calculator::{Calculator, CalculatorComplex, CalculatorError, CalculatorFloat};
use vstd::prelude::*;

verus! {

/// `qoqo_calculator::CalculatorFloat`, opaque to the verifier.
#[verifier::external_type_specification]
#[verifier::external_body]
pub struct ExCalculatorFloat(qoqo_calculator::CalculatorFloat);

/// `qoqo_calculator::CalculatorError`, opaque to the verifier.
#[verifier::external_type_specification]
#[verifier::external_body]
pub struct ExCalculatorError(qoqo_calculator::CalculatorError);

/// `qoqo_calculator::Calculator`, opaque to the verifier.
#[verifier::external_type_specification]
#[verifier::external_body]
pub struct ExCalculator(qoqo_calculator::Calculator);

/// What a real scalar holds.
pub enum Scalar {
    /// A number, given by its IEEE 754 binary64 bit pattern. The sign and the
    /// payload of a NaN carry no meaning: every NaN is given by [`NAN_BITS`].
    Number(u64),
    /// A symbolic expression, given by its text.
    Symbol(Seq<char>),
}

/// Bit pattern of the sign bit of a binary64 number.
pub const SIGN_BIT: u64 = 0x8000_0000_0000_0000;

/// Bit pattern of positive infinity; every larger magnitude is a NaN.
pub const INFINITY_BITS: u64 = 0x7FF0_0000_0000_0000;

/// Bit pattern that stands for every NaN.
pub const NAN_BITS: u64 = 0x7FF8_0000_0000_0000;

/// Bit pattern of `1.0`.
pub const ONE_BITS: u64 = 0x3FF0_0000_0000_0000;

/// Bit pattern of the binary64 number nearest to π.
pub const PI_BITS: u64 = 0x4009_21FB_5444_2D18;

/// Bit pattern of the binary64 number nearest to π/2.
pub const FRAC_PI_2_BITS: u64 = 0x3FF9_21FB_5444_2D18;

/// Bit pattern of the binary64 number nearest to π/4.
pub const FRAC_PI_4_BITS: u64 = 0x3FE9_21FB_5444_2D18;

/// The contents of a `CalculatorFloat`: `Float(x)` is `Number` of the bits of
/// `x` (of [`NAN_BITS`] where `x` is a NaN), `Str(s)` is `Symbol` of the
/// characters of `s`.
pub uninterp spec fn value_of(x: CalculatorFloat) -> Scalar;

/// The scalar that an integer converts to.
pub uninterp spec fn integer(n: int) -> Scalar;

/// Result of `+` on two scalars.
pub uninterp spec fn sum(a: Scalar, b: Scalar) -> Scalar;

/// Result of `-` on two scalars.
pub uninterp spec fn difference(a: Scalar, b: Scalar) -> Scalar;

/// Result of `*` on two scalars.
pub uninterp spec fn product(a: Scalar, b: Scalar) -> Scalar;

/// Result of `/` on two scalars, where the divisor is not a zero number.
pub uninterp spec fn quotient(a: Scalar, b: Scalar) -> Scalar;

/// Result of the square root on a scalar.
pub uninterp spec fn square_root(x: Scalar) -> Scalar;

/// Norm of the complex scalar with the given real and imaginary parts.
pub uninterp spec fn complex_norm(re: Scalar, im: Scalar) -> Scalar;

/// The error that reports that a symbolic scalar is not a number.
pub uninterp spec fn not_a_number(x: Scalar) -> CalculatorError;

/// Whether a character is a letter, as `char::is_alphabetic` tells.
pub uninterp spec fn alphabetic(c: char) -> bool;

/// Whether `outcome` is what the calculator gave for the scalar `x`: a number
/// or an error.
pub uninterp spec fn evaluation_of(
    calculator: Calculator,
    x: CalculatorFloat,
    outcome: Result<CalculatorFloat, CalculatorError>,
) -> bool;

/// Whether `c` is a value that the cosine gave for `x`.
pub uninterp spec fn cosine_of(x: Scalar, c: Scalar) -> bool;

/// Whether `s` is a value that the sine gave for `x`.
pub uninterp spec fn sine_of(x: Scalar, s: Scalar) -> bool;

/// Whether `n` is a value that the norm of complex numbers gave for the
/// number `re + i·im`.
pub uninterp spec fn norm_of(re: Scalar, im: Scalar, n: Scalar) -> bool;

/// Whether `a` is a value that the argument of complex numbers gave for the
/// number `re + i·im`.
pub uninterp spec fn argument_of(re: Scalar, im: Scalar, a: Scalar) -> bool;

/// Whether `a` is a value that the argument of complex scalars gave for the
/// scalar `re + i·im`, of which a part may be symbolic.
pub uninterp spec fn scalar_argument_of(re: Scalar, im: Scalar, a: Scalar) -> bool;

/// The number `0.0`.
pub open spec fn zero() -> Scalar {
    Scalar::Number(0)
}

/// The number `1.0`.
pub open spec fn one() -> Scalar {
    Scalar::Number(ONE_BITS)
}

/// The number π.
pub open spec fn pi() -> Scalar {
    Scalar::Number(PI_BITS)
}

/// The number π/2.
pub open spec fn frac_pi_2() -> Scalar {
    Scalar::Number(FRAC_PI_2_BITS)
}

/// The number π/4.
pub open spec fn frac_pi_4() -> Scalar {
    Scalar::Number(FRAC_PI_4_BITS)
}

/// The number 1/√2 as the calculator computes it: one divided by the square
/// root of two.
pub open spec fn inverse_sqrt_2() -> Scalar {
    quotient(one(), square_root(integer(2)))
}

/// Whether a scalar is a number (as opposed to a symbolic expression).
pub open spec fn is_number(x: Scalar) -> bool {
    x is Number
}

/// Whether a scalar is the number zero, of either sign.
pub open spec fn is_zero(x: Scalar) -> bool {
    x == Scalar::Number(0) || x == Scalar::Number(SIGN_BIT)
}

/// Whether a scalar is a NaN.
pub open spec fn is_nan(x: Scalar) -> bool {
    match x {
        Scalar::Number(bits) => bits % SIGN_BIT > INFINITY_BITS,
        Scalar::Symbol(_) => false,
    }
}

/// Whether a scalar is a finite number.
pub open spec fn is_finite(x: Scalar) -> bool {
    match x {
        Scalar::Number(bits) => bits % SIGN_BIT < INFINITY_BITS,
        Scalar::Symbol(_) => false,
    }
}

/// Whether two scalars compare equal: two numbers where neither is a NaN and
/// they have the same bits or are both zero, two symbolic expressions where
/// they have the same text.
pub open spec fn equal(a: Scalar, b: Scalar) -> bool {
    match (a, b) {
        (Scalar::Number(_), Scalar::Number(_)) => !is_nan(a) && !is_nan(b) && (a == b || (is_zero(
            a,
        ) && is_zero(b))),
        (Scalar::Symbol(x), Scalar::Symbol(y)) => x == y,
        _ => false,
    }
}

/// Unary minus: flips the sign bit of a number (a NaN stays a NaN), wraps an
/// expression in `(-…)`.
pub open spec fn negation(x: Scalar) -> Scalar {
    match x {
        Scalar::Number(bits) => if bits == NAN_BITS {
            x
        } else if bits < SIGN_BIT {
            Scalar::Number((bits + SIGN_BIT) as u64)
        } else {
            Scalar::Number((bits - SIGN_BIT) as u64)
        },
        Scalar::Symbol(text) => Scalar::Symbol(seq!['(', '-'] + text + seq![')']),
    }
}

/// The argument of a complex scalar whose real and imaginary part are both
/// symbolic: the text `atan2(im, re)`.
pub open spec fn symbolic_argument(re: Scalar, im: Scalar) -> Scalar {
    Scalar::Symbol(
        seq!['a', 't', 'a', 'n', '2', '('] + im->Symbol_0 + seq![',', ' '] + re->Symbol_0
            + seq![')'],
    )
}

/// How often the calculator may descend on a symbolic expression. Its parser
/// descends once for each opening bracket, its lookahead once for each name
/// that a blank or a comment follows, and its stack is finite.
pub const MAX_DESCENTS: usize = 256;

/// Whether a character may be the last one of a name: a letter, a digit or an
/// underscore of ASCII, or any character outside ASCII.
pub open spec fn ends_name(c: char) -> bool {
    ||| 'a' <= c <= 'z'
    ||| 'A' <= c <= 'Z'
    ||| '0' <= c <= '9'
    ||| c == '_'
    ||| c > '\u{7f}'
}

/// Whether the calculator may descend at the last character of a text: at an
/// opening bracket, and at a blank or the start of a comment right after a
/// name.
pub open spec fn descends_at_end(text: Seq<char>) -> bool {
    ||| text.last() == '('
    ||| text.len() >= 2 && (text.last() == ' ' || text.last() == '#') && ends_name(
        text[text.len() - 2],
    )
}

/// The number of places in a text at which the calculator may descend.
pub open spec fn descents(text: Seq<char>) -> nat
    decreases text.len(),
{
    if text.len() == 0 {
        0
    } else if descends_at_end(text) {
        descents(text.drop_last()) + 1
    } else {
        descents(text.drop_last())
    }
}

/// Whether every character of a text that is outside ASCII is a letter.
pub open spec fn spelled(text: Seq<char>) -> bool {
    forall|i: int| 0 <= i < text.len() && #[trigger] text[i] > '\u{7f}' ==> alphabetic(text[i])
}

/// Whether the calculator can read a text: it is not empty, every character
/// outside ASCII is a letter, and the calculator descends at most
/// [`MAX_DESCENTS`] times. On such a text the calculator returns, with a
/// number or with an error.
pub open spec fn readable(text: Seq<char>) -> bool {
    &&& text.len() > 0
    &&& spelled(text)
    &&& descents(text) <= MAX_DESCENTS
}

/// Whether the calculator can evaluate a scalar: it is a number, or a
/// symbolic expression with a readable text.
pub open spec fn evaluable(x: Scalar) -> bool {
    match x {
        Scalar::Number(_) => true,
        Scalar::Symbol(text) => readable(text),
    }
}

/// The constant `CalculatorFloat::ZERO`, which is `Float(0.0)`.
#[verifier::external_body]
pub(crate) fn scalar_zero() -> (r: CalculatorFloat)
    ensures
        value_of(r) == zero(),
{
    CalculatorFloat::ZERO
}

/// The constant `CalculatorFloat::ONE`, which is `Float(1.0)`.
#[verifier::external_body]
pub(crate) fn scalar_one() -> (r: CalculatorFloat)
    ensures
        value_of(r) == one(),
{
    CalculatorFloat::ONE
}

/// The constant `CalculatorFloat::PI`, which is `Float(std::f64::consts::PI)`.
#[verifier::external_body]
pub(crate) fn scalar_pi() -> (r: CalculatorFloat)
    ensures
        value_of(r) == pi(),
{
    CalculatorFloat::PI
}

/// The constant `CalculatorFloat::FRAC_PI_2`.
#[verifier::external_body]
pub(crate) fn scalar_frac_pi_2() -> (r: CalculatorFloat)
    ensures
        value_of(r) == frac_pi_2(),
{
    CalculatorFloat::FRAC_PI_2
}

/// The constant `CalculatorFloat::FRAC_PI_4`.
#[verifier::external_body]
pub(crate) fn scalar_frac_pi_4() -> (r: CalculatorFloat)
    ensures
        value_of(r) == frac_pi_4(),
{
    CalculatorFloat::FRAC_PI_4
}

/// `CalculatorFloat::from(i32)`: the number that the integer converts to. It
/// is a zero only for the integer zero.
#[verifier::external_body]
pub(crate) fn scalar_from_integer(n: i32) -> (r: CalculatorFloat)
    ensures
        value_of(r) == integer(n as int),
        n != 0 ==> !is_zero(value_of(r)),
        is_finite(value_of(r)),
{
    CalculatorFloat::from(n)
}

/// `Clone::clone` of a `CalculatorFloat`: the same scalar.
pub assume_specification[ <CalculatorFloat as Clone>::clone ](x: &CalculatorFloat) -> (r:
    CalculatorFloat)
    ensures
        r == *x,
;

/// `PartialEq::eq` of two `CalculatorFloat`s, which is derived: two `Float`s
/// are equal where their numbers are, two `Str`s where their texts are, and a
/// `Float` never equals a `Str`.
#[verifier::external_body]
pub(crate) fn scalar_eq(a: &CalculatorFloat, b: &CalculatorFloat) -> (r: bool)
    ensures
        r == equal(value_of(*a), value_of(*b)),
{
    a == b
}

/// `CalculatorFloat::is_float`: whether the scalar is a number.
#[verifier::external_body]
pub(crate) fn scalar_is_number(x: &CalculatorFloat) -> (r: bool)
    ensures
        r == is_number(value_of(*x)),
{
    x.is_float()
}

/// The text of a `CalculatorFloat`, character by character: that of the
/// variant `Str`, and none for the variant `Float`.
#[verifier::external_body]
pub(crate) fn scalar_text(x: &CalculatorFloat) -> (r: Option<Vec<char>>)
    ensures
        is_number(value_of(*x)) ==> r is None,
        !is_number(value_of(*x)) ==> r is Some && value_of(*x) == Scalar::Symbol(r->Some_0@),
{
    match x {
        CalculatorFloat::Float(_) => None,
        CalculatorFloat::Str(text) => Some(text.chars().collect()),
    }
}

/// `char::is_alphabetic`: whether a character is a letter.
#[verifier::external_body]
pub(crate) fn char_is_alphabetic(c: char) -> (r: bool)
    ensures
        r == alphabetic(c),
{
    c.is_alphabetic()
}

/// `CalculatorFloat::float`: a number is handed back as it is, a symbolic
/// expression gives the error `FloatSymbolicNotConvertable` with its text.
#[verifier::external_body]
pub(crate) fn scalar_to_number(x: &CalculatorFloat) -> (r: Result<CalculatorFloat, CalculatorError>)
    ensures
        is_number(value_of(*x)) ==> r is Ok && r->Ok_0 == *x,
        !is_number(value_of(*x)) ==> r is Err && r->Err_0 == not_a_number(value_of(*x)),
{
    x.float().map(CalculatorFloat::from)
}

/// `Neg::neg` of a `CalculatorFloat`: `Float(x)` gives `Float(-x)`, `Str(s)`
/// gives the text `(-s)`.
#[verifier::external_body]
pub(crate) fn scalar_neg(x: &CalculatorFloat) -> (r: CalculatorFloat)
    ensures
        value_of(r) == negation(value_of(*x)),
{
    -x.clone()
}

/// `Add::add` of two `CalculatorFloat`s. Two numbers give a number.
#[verifier::external_body]
pub(crate) fn scalar_add(a: &CalculatorFloat, b: &CalculatorFloat) -> (r: CalculatorFloat)
    ensures
        value_of(r) == sum(value_of(*a), value_of(*b)),
        is_number(value_of(*a)) && is_number(value_of(*b)) ==> is_number(value_of(r)),
{
    a.clone() + b.clone()
}

/// `Sub::sub` of two `CalculatorFloat`s. Two numbers give a number.
#[verifier::external_body]
pub(crate) fn scalar_sub(a: &CalculatorFloat, b: &CalculatorFloat) -> (r: CalculatorFloat)
    ensures
        value_of(r) == difference(value_of(*a), value_of(*b)),
        is_number(value_of(*a)) && is_number(value_of(*b)) ==> is_number(value_of(r)),
{
    a.clone() - b.clone()
}

/// `Mul::mul` of two `CalculatorFloat`s. Two numbers give a number. A left
/// factor `1.0` gives the right factor back (a symbolic one by the crate's
/// own shortcut, a number because `1.0 * y` is `y` unless `y` is a NaN). A
/// left factor zero gives `Float(0.0)` for a symbolic right factor and a zero
/// of either sign for a finite one.
#[verifier::external_body]
pub(crate) fn scalar_mul(a: &CalculatorFloat, b: &CalculatorFloat) -> (r: CalculatorFloat)
    ensures
        value_of(r) == product(value_of(*a), value_of(*b)),
        is_number(value_of(*a)) && is_number(value_of(*b)) ==> is_number(value_of(r)),
        value_of(*a) == one() && !is_nan(value_of(*b)) ==> r == *b,
        is_zero(value_of(*a)) && !is_number(value_of(*b)) ==> value_of(r) == zero(),
        is_zero(value_of(*a)) && is_finite(value_of(*b)) ==> is_zero(value_of(r)),
{
    a.clone() * b.clone()
}

/// `Div::div` of two `CalculatorFloat`s, which panics when the divisor is a
/// zero number. Two numbers give a number.
#[verifier::external_body]
pub(crate) fn scalar_div(a: &CalculatorFloat, b: &CalculatorFloat) -> (r: CalculatorFloat)
    requires
        !is_zero(value_of(*b)),
    ensures
        value_of(r) == quotient(value_of(*a), value_of(*b)),
        is_number(value_of(*a)) && is_number(value_of(*b)) ==> is_number(value_of(r)),
{
    a.clone() / b.clone()
}

/// `CalculatorFloat::sqrt`: `Float(x)` gives `Float(x.sqrt())`, which IEEE 754
/// fixes to the last digit. The square root of a number is a number, and a
/// zero only for a zero.
#[verifier::external_body]
pub(crate) fn scalar_sqrt(x: &CalculatorFloat) -> (r: CalculatorFloat)
    ensures
        value_of(r) == square_root(value_of(*x)),
        is_number(value_of(*x)) ==> is_number(value_of(r)),
        !is_zero(value_of(*x)) ==> !is_zero(value_of(r)),
{
    x.sqrt()
}

/// `CalculatorFloat::cos`. The cosine of a number is a number, and one that
/// the cosine gave for it; std leaves its last digits open, so it has no
/// name.
#[verifier::external_body]
pub(crate) fn scalar_cos(x: &CalculatorFloat) -> (r: CalculatorFloat)
    ensures
        is_number(value_of(*x)) ==> is_number(value_of(r)),
        is_number(value_of(*x)) ==> cosine_of(value_of(*x), value_of(r)),
{
    x.cos()
}

/// `CalculatorFloat::sin`. The sine of a number is a number, and one that the
/// sine gave for it; std leaves its last digits open, so it has no name.
#[verifier::external_body]
pub(crate) fn scalar_sin(x: &CalculatorFloat) -> (r: CalculatorFloat)
    ensures
        is_number(value_of(*x)) ==> is_number(value_of(r)),
        is_number(value_of(*x)) ==> sine_of(value_of(*x), value_of(r)),
{
    x.sin()
}

/// `CalculatorComplex::norm` of the complex scalar `re + i·im`, computed from
/// exactly rounded products, a sum and a square root.
#[verifier::external_body]
pub(crate) fn scalar_complex_norm(re: &CalculatorFloat, im: &CalculatorFloat) -> (r:
    CalculatorFloat)
    ensures
        value_of(r) == complex_norm(value_of(*re), value_of(*im)),
        is_number(value_of(*re)) && is_number(value_of(*im)) ==> is_number(value_of(r)),
{
    CalculatorComplex::new(re.clone(), im.clone()).norm()
}

/// `CalculatorComplex::arg` of the complex scalar `re + i·im`, which is
/// `im.atan2(re)`. The result is one that the argument gave for the two
/// parts. For two numbers it is a number, whose last digits std leaves open;
/// for two symbolic expressions it is the text `atan2(im, re)`.
#[verifier::external_body]
pub(crate) fn scalar_complex_arg(re: &CalculatorFloat, im: &CalculatorFloat) -> (r: CalculatorFloat)
    ensures
        scalar_argument_of(value_of(*re), value_of(*im), value_of(r)),
        is_number(value_of(*re)) && is_number(value_of(*im)) ==> is_number(value_of(r)),
        !is_number(value_of(*re)) && !is_number(value_of(*im)) ==> value_of(r)
            == symbolic_argument(value_of(*re), value_of(*im)),
{
    CalculatorComplex::new(re.clone(), im.clone()).arg()
}

/// `num_complex::Complex::norm` of the complex number `re + i·im`: a number,
/// and one that the norm gave for the two parts.
#[verifier::external_body]
pub(crate) fn number_norm(re: &CalculatorFloat, im: &CalculatorFloat) -> (r: CalculatorFloat)
    requires
        is_number(value_of(*re)),
        is_number(value_of(*im)),
    ensures
        is_number(value_of(r)),
        norm_of(value_of(*re), value_of(*im), value_of(r)),
{
    CalculatorFloat::from(Complex64::new(*re.float().unwrap(), *im.float().unwrap()).norm())
}

/// `num_complex::Complex::arg` of the complex number `re + i·im`: a number,
/// and one that the argument gave for the two parts.
#[verifier::external_body]
pub(crate) fn number_arg(re: &CalculatorFloat, im: &CalculatorFloat) -> (r: CalculatorFloat)
    requires
        is_number(value_of(*re)),
        is_number(value_of(*im)),
    ensures
        is_number(value_of(r)),
        argument_of(value_of(*re), value_of(*im), value_of(r)),
{
    CalculatorFloat::from(Complex64::new(*re.float().unwrap(), *im.float().unwrap()).arg())
}

/// `Calculator::parse_get`: a number is handed back as it is; a symbolic
/// expression is parsed and evaluated with the calculator's variables, which
/// gives a number or an error: the outcome is one that the calculator gave
/// for the scalar. The parser panics on an empty text and where a character
/// of more than one byte that is no letter starts a token, and it descends
/// once for each opening bracket and for each name that a blank or a comment
/// follows: such texts are left out.
#[verifier::external_body]
pub(crate) fn scalar_evaluate(calculator: &Calculator, x: &CalculatorFloat) -> (r: Result<
    CalculatorFloat,
    CalculatorError,
>)
    requires
        evaluable(value_of(*x)),
    ensures
        evaluation_of(*calculator, *x, r),
        is_number(value_of(*x)) ==> r is Ok && r->Ok_0 == *x,
        r is Ok ==> is_number(value_of(r->Ok_0)),
{
    calculator.parse_get(x.clone()).map(CalculatorFloat::from)
}

/// The number 1/√2: one divided by the square root of two, both computed by
/// the calculator.
pub fn scalar_inverse_sqrt_2() -> (r: CalculatorFloat)
    ensures
        value_of(r) == inverse_sqrt_2(),
        is_number(value_of(r)),
{
    let root = scalar_sqrt(&scalar_from_integer(2));
    scalar_div(&scalar_one(), &root)
}

} // verus!
