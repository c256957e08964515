//! Differentiation of expression trees.
//!
//! Every `diff` builds a new tree and promises that it stands for the
//! derivative of the term that its input stands for.

use vstd::prelude::*;
use crate::expression::{terms, Base, Cos, Exp, Expression, Log, Pow, Sin, Tan, X};
use crate::term::{derivatives, lowered, product_rule, Term};

verus! {

/// The differentiation rule of one kind of elementary node.
///
/// A node's rule differentiates its argument with [`Expression::diff`], so
/// the argument may be any tree.
pub trait DiffBase: View<V = Term> {
    /// The derivative of `self`, built by the rule of its kind and, for the
    /// argument, by the chain rule.
    fn diff(&self) -> (r: Expression)
        ensures
            r@ == self@.derivative(),
    ;
}

impl DiffBase for X {
    fn diff(&self) -> (r: Expression) {
        Expression::Base(Base::Scaler(1))
    }
}

impl DiffBase for Exp {
    fn diff(&self) -> (r: Expression)
        decreases self,
    {
        proof {
            // Here and below: the term of a factor is found by unfolding
            // `terms` through every node that was wrapped round the argument.
            reveal_with_fuel(terms, 2);
        }
        let factors = vec![Expression::Base(Base::Exp(self.clone())), self.arg.diff()];
        assert(terms(factors@) =~= seq![self@, self.arg@.derivative()]);
        Expression::Mul(factors)
    }
}

impl DiffBase for Pow {
    fn diff(&self) -> (r: Expression)
        decreases self,
    {
        proof {
            reveal_with_fuel(terms, 3);
        }
        let factors = vec![
            Expression::Base(Base::Scaler(self.exp)),
            Expression::Base(
                Base::Pow(Pow { exp: self.exp.wrapping_sub(1), arg: self.arg.clone() }),
            ),
            self.arg.diff(),
        ];
        assert(terms(factors@) =~= seq![
            Term::Constant(self.exp),
            Term::Power(lowered(self.exp), Box::new(self.arg@)),
            self.arg@.derivative(),
        ]);
        Expression::Mul(factors)
    }
}

impl DiffBase for Log {
    fn diff(&self) -> (r: Expression)
        decreases self,
    {
        proof {
            reveal_with_fuel(terms, 3);
        }
        let factors = vec![
            Expression::Base(Base::Pow(Pow { exp: -1, arg: self.arg.clone() })),
            self.arg.diff(),
        ];
        assert(terms(factors@) =~= seq![
            Term::Power(-1isize, Box::new(self.arg@)),
            self.arg@.derivative(),
        ]);
        Expression::Mul(factors)
    }
}

impl DiffBase for Sin {
    fn diff(&self) -> (r: Expression)
        decreases self,
    {
        proof {
            reveal_with_fuel(terms, 3);
        }
        let factors = vec![
            Expression::Base(Base::Cos(Cos { arg: self.arg.clone() })),
            self.arg.diff(),
        ];
        assert(terms(factors@) =~= seq![Term::Cosine(Box::new(self.arg@)), self.arg@.derivative()]);
        Expression::Mul(factors)
    }
}

impl DiffBase for Cos {
    fn diff(&self) -> (r: Expression)
        decreases self,
    {
        proof {
            reveal_with_fuel(terms, 3);
        }
        let factors = vec![
            Expression::Base(Base::Scaler(-1)),
            Expression::Base(Base::Sin(Sin { arg: self.arg.clone() })),
            self.arg.diff(),
        ];
        assert(terms(factors@) =~= seq![
            Term::Constant(-1isize),
            Term::Sine(Box::new(self.arg@)),
            self.arg@.derivative(),
        ]);
        Expression::Mul(factors)
    }
}

impl DiffBase for Tan {
    fn diff(&self) -> (r: Expression)
        decreases self,
    {
        proof {
            reveal_with_fuel(terms, 6);
        }
        let factors = vec![
            Expression::Base(
                Base::Pow(
                    Pow {
                        exp: -2,
                        arg: Box::new(Expression::Base(Base::Cos(Cos { arg: self.arg.clone() }))),
                    },
                ),
            ),
            self.arg.diff(),
        ];
        assert(terms(factors@) =~= seq![
            Term::Power(-2isize, Box::new(Term::Cosine(Box::new(self.arg@)))),
            self.arg@.derivative(),
        ]);
        Expression::Mul(factors)
    }
}

impl Base {
    /// The derivative of `self`: zero for a constant, and otherwise what the
    /// rule of the node's kind gives.
    pub fn diff(&self) -> (r: Expression)
        ensures
            r@ == self@.derivative(),
        decreases self,
    {
        match self {
            Self::Scaler(_) => Expression::Base(Base::Scaler(0)),
            Self::X(x) => x.diff(),
            Self::Exp(exp) => exp.diff(),
            Self::Pow(pow) => pow.diff(),
            Self::Log(log) => log.diff(),
            Self::Sin(sin) => sin.diff(),
            Self::Cos(cos) => cos.diff(),
            Self::Tan(tan) => tan.diff(),
        }
    }
}

impl Expression {
    /// The derivative of `self` as a new tree; `self` is left as it was.
    ///
    /// A sum becomes the sum of the derivatives of its operands. A product of
    /// `n` factors, `n` at least one, becomes a sum of `n` products, the
    /// `i`-th of which holds the derivative of the `i`-th factor among copies
    /// of the others. A product without factors stays a product without
    /// factors, as a sum without operands stays a sum without operands.
    pub fn diff(&self) -> (r: Expression)
        ensures
            r@ == self@.derivative(),
        decreases self,
    {
        match self {
            Self::Base(base) => base.diff(),
            Self::Add(add) => {
                let mut expressions: Vec<Expression> = Vec::new();
                for i in 0..add.len()
                    invariant
                        decreases_to!(self => add),
                        expressions.len() == i,
                        forall|k: int| 0 <= k < i ==> expressions[k]@ == add[k]@.derivative(),
                {
                    expressions.push(add[i].diff());
                }
                assert(terms(expressions@) =~= derivatives(terms(add@)));
                Self::Add(expressions)
            },
            Self::Mul(mul) => {
                if mul.len() == 0 {
                    let factors: Vec<Expression> = Vec::new();
                    assert(terms(factors@) =~= terms(mul@));
                    return Self::Mul(factors);
                }
                let mut expressions: Vec<Expression> = Vec::new();
                for i in 0..mul.len()
                    invariant
                        decreases_to!(self => mul),
                        expressions.len() == i,
                        forall|k: int|
                            0 <= k < i ==> expressions[k]@ == Term::Product(
                                terms(mul@).update(k, mul[k]@.derivative()),
                            ),
                {
                    let mut row: Vec<Expression> = Vec::new();
                    for j in 0..mul.len()
                        invariant
                            decreases_to!(self => mul),
                            i < mul.len(),
                            row.len() == j,
                            forall|k: int|
                                0 <= k < j ==> row[k]@ == if k == i {
                                    mul[k]@.derivative()
                                } else {
                                    mul[k]@
                                },
                    {
                        if i == j {
                            row.push(mul[j].diff())
                        } else {
                            row.push(mul[j].clone())
                        }
                    }
                    assert(terms(row@) =~= terms(mul@).update(i as int, mul[i as int]@.derivative()));
                    expressions.push(Self::Mul(row));
                }
                assert(terms(expressions@) =~= product_rule(terms(mul@)));
                Self::Add(expressions)
            },
        }
    }
}

} // verus!
