//! Laws of the derivative, each proved from its definition.
//!
//! They are stated over [`Term`], the model in which the contract of every
//! `diff` is written, and so they hold of the trees that `diff` returns.

use vstd::prelude::*;
use crate::term::{derivatives, product_rule, Term};

verus! {

/// The derivative of a constant is the constant zero, whatever the constant.
pub proof fn derivative_of_constant(c: isize)
    ensures
        Term::Constant(c).derivative() == Term::Constant(0),
{
}

/// Chain rule for the exponential: the derivative of `e^u` is the product of
/// `e^u` and the derivative of `u`, in this order.
pub proof fn derivative_of_exponential(u: Term)
    ensures
        Term::Exponential(Box::new(u)).derivative() == Term::Product(
            seq![Term::Exponential(Box::new(u)), u.derivative()],
        ),
{
}

/// Chain rule for a power: the derivative of `u^n` is the product of `n`,
/// `u^(n-1)` and the derivative of `u`, in this order.
///
/// The smallest exponent is left out: `n - 1` is then no exponent.
pub proof fn derivative_of_power(n: isize, u: Term)
    requires
        n > isize::MIN,
    ensures
        Term::Power(n, Box::new(u)).derivative() == Term::Product(
            seq![Term::Constant(n), Term::Power((n - 1) as isize, Box::new(u)), u.derivative()],
        ),
{
}

/// Chain rule for the natural logarithm: the derivative of `ln u` is the
/// product of `u^(-1)` and the derivative of `u`, in this order.
pub proof fn derivative_of_natural_log(u: Term)
    ensures
        Term::NaturalLog(Box::new(u)).derivative() == Term::Product(
            seq![Term::Power(-1isize, Box::new(u)), u.derivative()],
        ),
{
}

/// Chain rule for the sine: the derivative of `sin u` is the product of
/// `cos u` and the derivative of `u`, in this order.
pub proof fn derivative_of_sine(u: Term)
    ensures
        Term::Sine(Box::new(u)).derivative() == Term::Product(
            seq![Term::Cosine(Box::new(u)), u.derivative()],
        ),
{
}

/// Chain rule for the cosine: the derivative of `cos u` is the product of
/// `-1`, `sin u` and the derivative of `u`, in this order.
pub proof fn derivative_of_cosine(u: Term)
    ensures
        Term::Cosine(Box::new(u)).derivative() == Term::Product(
            seq![Term::Constant(-1isize), Term::Sine(Box::new(u)), u.derivative()],
        ),
{
}

/// Chain rule for the tangent: the derivative of `tan u` is the product of
/// `(cos u)^(-2)` and the derivative of `u`, in this order.
pub proof fn derivative_of_tangent(u: Term)
    ensures
        Term::Tangent(Box::new(u)).derivative() == Term::Product(
            seq![Term::Power(-2isize, Box::new(Term::Cosine(Box::new(u)))), u.derivative()],
        ),
{
}

/// Sum rule: the derivative of a sum is a sum with as many operands, and
/// each of them is the derivative of the operand at the same position.
pub proof fn derivative_of_sum(ts: Seq<Term>)
    ensures
        Term::Sum(ts).derivative() matches Term::Sum(ds) && ds.len() == ts.len() && forall|i: int|
            0 <= i < ts.len() ==> ds[i] == ts[i].derivative(),
{
    assert(derivatives(ts).len() == ts.len());
}

/// Sum rule for two operands: the derivative of `a + b` is the sum of the
/// derivative of `a` and the derivative of `b`, in this order.
pub proof fn derivative_of_sum_of_two(a: Term, b: Term)
    ensures
        Term::Sum(seq![a, b]).derivative() == Term::Sum(seq![a.derivative(), b.derivative()]),
{
    assert(derivatives(seq![a, b]) =~= seq![a.derivative(), b.derivative()]);
}

/// A sum without operands is its own derivative.
pub proof fn derivative_of_empty_sum(ts: Seq<Term>)
    requires
        ts.len() == 0,
    ensures
        Term::Sum(ts).derivative() == Term::Sum(ts),
{
    assert(derivatives(ts) =~= ts);
}

/// A product without factors is its own derivative: it stays a product, and
/// no sum is put in its place.
pub proof fn derivative_of_empty_product(fs: Seq<Term>)
    requires
        fs.len() == 0,
    ensures
        Term::Product(fs).derivative() == Term::Product(fs),
{
}

/// Product rule: the derivative of a product of `n` factors, `n` at least
/// one, is a sum of exactly `n` terms. The term at position `i` is the
/// product of the same factors in the same order, but for the factor at
/// position `i`, which is replaced by its derivative.
pub proof fn derivative_of_product(fs: Seq<Term>)
    requires
        fs.len() >= 1,
    ensures
        Term::Product(fs).derivative() matches Term::Sum(ds) && ds.len() == fs.len()
            && forall|i: int|
            0 <= i < fs.len() ==> ds[i] == Term::Product(fs.update(i, fs[i].derivative())),
{
    assert(product_rule(fs).len() == fs.len());
}

/// Product rule for two factors: the derivative of `a * b` is the sum of
/// `a' * b` and `a * b'`, in this order.
pub proof fn derivative_of_product_of_two(a: Term, b: Term)
    ensures
        Term::Product(seq![a, b]).derivative() == Term::Sum(
            seq![
                Term::Product(seq![a.derivative(), b]),
                Term::Product(seq![a, b.derivative()]),
            ],
        ),
{
    let fs = seq![a, b];
    assert(fs.update(0, a.derivative()) =~= seq![a.derivative(), b]);
    assert(fs.update(1, b.derivative()) =~= seq![a, b.derivative()]);
    assert(product_rule(fs) =~= seq![
        Term::Product(seq![a.derivative(), b]),
        Term::Product(seq![a, b.derivative()]),
    ]);
}

} // verus!
