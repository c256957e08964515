//! The mathematical model: expressions as finite trees over sequences, and
//! the derivative as a function on those trees.

use vstd::prelude::*;

verus! {

/// An expression in one variable, as a mathematical tree.
///
/// Operands of a sum and factors of a product are kept in a sequence, so
/// their order is part of the value: two terms are equal exactly when they
/// have the same shape, the same numbers and the same operands in the same
/// positions.
pub enum Term {
    /// An integer literal.
    Constant(isize),
    /// The variable with respect to which derivatives are taken.
    Variable,
    /// `e` raised to the argument.
    Exponential(Box<Term>),
    /// The argument raised to a fixed integer exponent.
    Power(isize, Box<Term>),
    /// The natural logarithm of the argument.
    NaturalLog(Box<Term>),
    /// The sine of the argument.
    Sine(Box<Term>),
    /// The cosine of the argument.
    Cosine(Box<Term>),
    /// The tangent of the argument.
    Tangent(Box<Term>),
    /// The sum of the operands, in order. A sum may be empty.
    Sum(Seq<Term>),
    /// The product of the factors, in order. A product may be empty.
    Product(Seq<Term>),
}

/// The exponent that the power rule leaves behind: one less than `n`.
///
/// Exponents are machine integers. The smallest of them has no predecessor,
/// and there the subtraction wraps round to the largest.
pub open spec fn lowered(n: isize) -> isize {
    if n == isize::MIN {
        isize::MAX
    } else {
        (n - 1) as isize
    }
}

/// The derivative of every element of `ts`, position by position.
pub open spec fn derivatives(ts: Seq<Term>) -> Seq<Term>
    decreases ts,
{
    Seq::new(ts.len(), |i: int| if 0 <= i < ts.len() { ts[i].derivative() } else { arbitrary() })
}

/// The terms of the product rule for the factors `fs`: one product per
/// position, in which the factor at that position is replaced by its
/// derivative and all other factors stay as they are.
pub open spec fn product_rule(fs: Seq<Term>) -> Seq<Term>
    decreases fs,
{
    Seq::new(
        fs.len(),
        |i: int|
            if 0 <= i < fs.len() {
                Term::Product(fs.update(i, fs[i].derivative()))
            } else {
                arbitrary()
            },
    )
}

impl Term {
    /// The derivative of `self` with respect to the variable.
    ///
    /// The result is written out exactly as the rules produce it. Nothing is
    /// simplified: factors of one, summands of zero and zero exponents stay
    /// where the rules put them.
    ///
    /// A sum becomes the sum of the derivatives of its operands. A product
    /// of at least one factor becomes the sum of the terms of the product
    /// rule. A sum without operands and a product without factors have
    /// nothing to differentiate: each is its own derivative.
    pub open spec fn derivative(self) -> Term
        decreases self,
    {
        match self {
            Term::Constant(_) => Term::Constant(0),
            Term::Variable => Term::Constant(1),
            Term::Exponential(u) => Term::Product(seq![Term::Exponential(u), u.derivative()]),
            Term::Power(n, u) => Term::Product(
                seq![Term::Constant(n), Term::Power(lowered(n), u), u.derivative()],
            ),
            Term::NaturalLog(u) => Term::Product(seq![Term::Power(-1isize, u), u.derivative()]),
            Term::Sine(u) => Term::Product(seq![Term::Cosine(u), u.derivative()]),
            Term::Cosine(u) => Term::Product(
                seq![Term::Constant(-1isize), Term::Sine(u), u.derivative()],
            ),
            Term::Tangent(u) => Term::Product(
                seq![Term::Power(-2isize, Box::new(Term::Cosine(u))), u.derivative()],
            ),
            Term::Sum(ts) => Term::Sum(derivatives(ts)),
            Term::Product(fs) => if fs.len() == 0 {
                Term::Product(fs)
            } else {
                Term::Sum(product_rule(fs))
            },
        }
    }
}

} // verus!
