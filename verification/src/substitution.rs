//! Substitution of symbolic parameters and remapping of qubits.
use crate::error::RoqoqoError;
use crate::scalar::{
    alphabetic, char_is_alphabetic, descends_at_end, descents, ends_name, evaluable, evaluation_of,
    is_number, not_a_number, readable, scalar_evaluate, scalar_text, scalar_to_number, spelled,
    value_of, MAX_DESCENTS,
};
use qoqo_calculator::{Calculator, CalculatorError, CalculatorFloat};
use vstd::prelude::*;

verus! {

/// Turns the outcome of an evaluation by the calculator into the outcome of a
/// substitution: a value is kept, an error of the calculator is wrapped.
pub fn substitution_outcome(outcome: Result<CalculatorFloat, CalculatorError>) -> (r: Result<
    CalculatorFloat,
    RoqoqoError,
>)
    ensures
        outcome is Ok ==> r is Ok && r->Ok_0 == outcome->Ok_0,
        outcome is Err ==> r is Err && r->Err_0 == RoqoqoError::CalculatorError(outcome->Err_0),
{
    match outcome {
        Ok(value) => Ok(value),
        Err(error) => Err(RoqoqoError::CalculatorError(error)),
    }
}

/// Whether the calculator gave the number `value` for the scalar `x`.
pub open spec fn evaluates_to(
    calculator: Calculator,
    x: CalculatorFloat,
    value: CalculatorFloat,
) -> bool {
    evaluation_of(calculator, x, Ok(value))
}

/// Whether the calculator gave the error `error` for the scalar `x`.
pub open spec fn fails_with(
    calculator: Calculator,
    x: CalculatorFloat,
    error: CalculatorError,
) -> bool {
    evaluation_of(calculator, x, Err(error))
}

/// Whether the calculator gave a number for the scalar `x`.
pub open spec fn evaluates(calculator: Calculator, x: CalculatorFloat) -> bool {
    exists|value: CalculatorFloat| evaluates_to(calculator, x, value)
}

/// Whether a character may be the last one of a name.
fn may_end_name(c: char) -> (r: bool)
    ensures
        r == ends_name(c),
{
    ('a' <= c && c <= 'z') || ('A' <= c && c <= 'Z') || ('0' <= c && c <= '9') || c == '_' || c
        > '\u{7f}'
}

/// Whether a text is readable for the calculator.
pub fn is_readable(text: &Vec<char>) -> (r: bool)
    ensures
        r == readable(text@),
{
    let length = text.len();
    let mut count: usize = 0;
    let mut i: usize = 0;
    assert(text@.take(0) =~= Seq::<char>::empty());
    while i < length
        invariant
            i <= length,
            length == text@.len(),
            count == descents(text@.take(i as int)),
            count <= i,
            spelled(text@.take(i as int)),
        decreases length - i,
    {
        let c = text[i];
        let ghost before = text@.take(i as int);
        let ghost after = text@.take(i + 1);
        proof {
            assert(after.drop_last() =~= before);
            assert(after.last() == c);
            assert(forall|k: int| 0 <= k < i ==> before[k] == after[k]);
        }
        if c > '\u{7f}' && !char_is_alphabetic(c) {
            assert(!spelled(text@)) by {
                assert(text@[i as int] == c);
            }
            return false;
        }
        assert(spelled(after)) by {
            assert forall|k: int|
                0 <= k < after.len() && #[trigger] after[k] > '\u{7f}' implies alphabetic(
                after[k],
            ) by {
                if k < i {
                    assert(before[k] == after[k]);
                }
            }
        }
        let descends = c == '(' || (i > 0 && (c == ' ' || c == '#') && may_end_name(text[i - 1]));
        proof {
            if i > 0 {
                assert(after[after.len() - 2] == text@[i - 1]);
            }
            assert(descends == descends_at_end(after));
        }
        if descends {
            count = count + 1;
        }
        i = i + 1;
    }
    assert(text@.take(length as int) =~= text@);
    length > 0 && count <= MAX_DESCENTS
}

/// Whether the calculator can evaluate a scalar: every number, and every
/// symbolic expression with a readable text.
pub fn can_evaluate(x: &CalculatorFloat) -> (r: bool)
    ensures
        r == evaluable(value_of(*x)),
{
    match scalar_text(x) {
        Some(text) => is_readable(&text),
        None => true,
    }
}

/// Replaces a scalar by the number that the calculator evaluates it to. A
/// number is kept as it is; for a symbolic expression the calculator decides
/// between a number and an error, and the result is what it gave.
pub fn substitute_scalar(calculator: &Calculator, x: &CalculatorFloat) -> (r: Result<
    CalculatorFloat,
    RoqoqoError,
>)
    requires
        evaluable(value_of(*x)),
    ensures
        is_number(value_of(*x)) ==> r is Ok && r->Ok_0 == *x,
        r is Ok ==> is_number(value_of(r->Ok_0)) && evaluates_to(*calculator, *x, r->Ok_0),
        r is Err ==> r->Err_0 is CalculatorError && fails_with(
            *calculator,
            *x,
            r->Err_0->CalculatorError_0,
        ),
{
    substitution_outcome(scalar_evaluate(calculator, x))
}

/// Converts a scalar to a number: a number is kept as it is, a symbolic
/// expression gives the calculator's error for it.
pub fn number_of(x: &CalculatorFloat) -> (r: Result<CalculatorFloat, RoqoqoError>)
    ensures
        is_number(value_of(*x)) ==> r is Ok && r->Ok_0 == *x,
        !is_number(value_of(*x)) ==> r is Err && r->Err_0 == symbolic_parameter(*x),
{
    substitution_outcome(scalar_to_number(x))
}

/// The error that a symbolic parameter gives where a number is needed.
pub open spec fn symbolic_parameter(x: CalculatorFloat) -> RoqoqoError {
    RoqoqoError::CalculatorError(not_a_number(value_of(x)))
}

} // verus!
