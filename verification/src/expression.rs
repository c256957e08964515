//! Executable expression trees and the terms they stand for.

use vstd::prelude::*;
use crate::term::Term;

verus! {

/// The integer type of constants and exponents.
pub type Scaler = isize;

/// The operands of a sum, in order.
pub type Add = Vec<Expression>;

/// The factors of a product, in order.
pub type Mul = Vec<Expression>;

/// The variable `x`.
#[derive(Debug)]
pub struct X {}

/// `e` raised to `arg`.
#[derive(Debug)]
pub struct Exp {
    pub arg: Box<Expression>,
}

/// `arg` raised to the fixed exponent `exp`.
#[derive(Debug)]
pub struct Pow {
    pub exp: isize,
    pub arg: Box<Expression>,
}

/// The natural logarithm of `arg`.
#[derive(Debug)]
pub struct Log {
    pub arg: Box<Expression>,
}

/// The sine of `arg`.
#[derive(Debug)]
pub struct Sin {
    pub arg: Box<Expression>,
}

/// The cosine of `arg`.
#[derive(Debug)]
pub struct Cos {
    pub arg: Box<Expression>,
}

/// The tangent of `arg`.
#[derive(Debug)]
pub struct Tan {
    pub arg: Box<Expression>,
}

/// An elementary function applied to its argument, a constant, or the
/// variable.
#[derive(Debug)]
pub enum Base {
    Scaler(Scaler),
    X(X),
    Exp(Exp),
    Pow(Pow),
    Log(Log),
    Sin(Sin),
    Cos(Cos),
    Tan(Tan),
}

/// An expression tree: an elementary node, a sum or a product.
#[derive(Debug)]
pub enum Expression {
    Base(Base),
    Add(Add),
    Mul(Mul),
}

/// The terms of the expressions in `v`, position by position.
pub open spec fn terms(v: Seq<Expression>) -> Seq<Term>
    decreases v,
{
    Seq::new(v.len(), |i: int| if 0 <= i < v.len() { v[i].term() } else { arbitrary() })
}

impl X {
    /// The term that the variable stands for.
    pub open spec fn term(&self) -> Term {
        Term::Variable
    }
}

impl Exp {
    /// The term that `self` stands for.
    pub open spec fn term(&self) -> Term
        decreases self,
    {
        Term::Exponential(Box::new(self.arg.term()))
    }
}

impl Pow {
    /// The term that `self` stands for.
    pub open spec fn term(&self) -> Term
        decreases self,
    {
        Term::Power(self.exp, Box::new(self.arg.term()))
    }
}

impl Log {
    /// The term that `self` stands for.
    pub open spec fn term(&self) -> Term
        decreases self,
    {
        Term::NaturalLog(Box::new(self.arg.term()))
    }
}

impl Sin {
    /// The term that `self` stands for.
    pub open spec fn term(&self) -> Term
        decreases self,
    {
        Term::Sine(Box::new(self.arg.term()))
    }
}

impl Cos {
    /// The term that `self` stands for.
    pub open spec fn term(&self) -> Term
        decreases self,
    {
        Term::Cosine(Box::new(self.arg.term()))
    }
}

impl Tan {
    /// The term that `self` stands for.
    pub open spec fn term(&self) -> Term
        decreases self,
    {
        Term::Tangent(Box::new(self.arg.term()))
    }
}

impl Base {
    /// The term that `self` stands for.
    pub open spec fn term(&self) -> Term
        decreases self,
    {
        match self {
            Base::Scaler(c) => Term::Constant(*c),
            Base::X(x) => x.term(),
            Base::Exp(exp) => exp.term(),
            Base::Pow(pow) => pow.term(),
            Base::Log(log) => log.term(),
            Base::Sin(sin) => sin.term(),
            Base::Cos(cos) => cos.term(),
            Base::Tan(tan) => tan.term(),
        }
    }
}

impl Expression {
    /// The term that `self` stands for.
    pub open spec fn term(&self) -> Term
        decreases self,
    {
        match self {
            Expression::Base(base) => base.term(),
            Expression::Add(add) => Term::Sum(terms(add@)),
            Expression::Mul(mul) => Term::Product(terms(mul@)),
        }
    }
}

impl View for X {
    type V = Term;

    open spec fn view(&self) -> Term {
        self.term()
    }
}

impl View for Exp {
    type V = Term;

    open spec fn view(&self) -> Term {
        self.term()
    }
}

impl View for Pow {
    type V = Term;

    open spec fn view(&self) -> Term {
        self.term()
    }
}

impl View for Log {
    type V = Term;

    open spec fn view(&self) -> Term {
        self.term()
    }
}

impl View for Sin {
    type V = Term;

    open spec fn view(&self) -> Term {
        self.term()
    }
}

impl View for Cos {
    type V = Term;

    open spec fn view(&self) -> Term {
        self.term()
    }
}

impl View for Tan {
    type V = Term;

    open spec fn view(&self) -> Term {
        self.term()
    }
}

impl View for Base {
    type V = Term;

    open spec fn view(&self) -> Term {
        self.term()
    }
}

impl View for Expression {
    type V = Term;

    open spec fn view(&self) -> Term {
        self.term()
    }
}

/// A deep copy of every expression in `v`, in the same order.
fn clone_all(v: &Vec<Expression>) -> (r: Vec<Expression>)
    ensures
        terms(r@) == terms(v@),
    decreases v,
{
    let mut copies: Vec<Expression> = Vec::new();
    for i in 0..v.len()
        invariant
            copies.len() == i,
            forall|k: int| 0 <= k < i ==> copies[k]@ == v[k]@,
    {
        copies.push(v[i].clone());
    }
    assert(terms(copies@) =~= terms(v@));
    copies
}

impl Clone for X {
    fn clone(&self) -> (r: Self)
        ensures
            r@ == self@,
    {
        X {}
    }
}

impl Clone for Exp {
    fn clone(&self) -> (r: Self)
        ensures
            r@ == self@,
        decreases self,
    {
        Exp { arg: Box::new((*self.arg).clone()) }
    }
}

impl Clone for Pow {
    fn clone(&self) -> (r: Self)
        ensures
            r@ == self@,
        decreases self,
    {
        Pow { exp: self.exp, arg: Box::new((*self.arg).clone()) }
    }
}

impl Clone for Log {
    fn clone(&self) -> (r: Self)
        ensures
            r@ == self@,
        decreases self,
    {
        Log { arg: Box::new((*self.arg).clone()) }
    }
}

impl Clone for Sin {
    fn clone(&self) -> (r: Self)
        ensures
            r@ == self@,
        decreases self,
    {
        Sin { arg: Box::new((*self.arg).clone()) }
    }
}

impl Clone for Cos {
    fn clone(&self) -> (r: Self)
        ensures
            r@ == self@,
        decreases self,
    {
        Cos { arg: Box::new((*self.arg).clone()) }
    }
}

impl Clone for Tan {
    fn clone(&self) -> (r: Self)
        ensures
            r@ == self@,
        decreases self,
    {
        Tan { arg: Box::new((*self.arg).clone()) }
    }
}

impl Clone for Base {
    fn clone(&self) -> (r: Self)
        ensures
            r@ == self@,
        decreases self,
    {
        match self {
            Base::Scaler(c) => Base::Scaler(*c),
            Base::X(x) => Base::X(x.clone()),
            Base::Exp(exp) => Base::Exp(exp.clone()),
            Base::Pow(pow) => Base::Pow(pow.clone()),
            Base::Log(log) => Base::Log(log.clone()),
            Base::Sin(sin) => Base::Sin(sin.clone()),
            Base::Cos(cos) => Base::Cos(cos.clone()),
            Base::Tan(tan) => Base::Tan(tan.clone()),
        }
    }
}

impl Clone for Expression {
    fn clone(&self) -> (r: Self)
        ensures
            r@ == self@,
        decreases self,
    {
        match self {
            Expression::Base(base) => Expression::Base(base.clone()),
            Expression::Add(add) => Expression::Add(clone_all(add)),
            Expression::Mul(mul) => Expression::Mul(clone_all(mul)),
        }
    }
}

} // verus!
