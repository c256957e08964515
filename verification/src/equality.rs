//! Structural equality of expression trees.
//!
//! Two trees are equal when they stand for the same term: the same kinds of
//! nodes, the same numbers, and the same operands in the same order.

use vstd::prelude::*;
use vstd::std_specs::cmp::PartialEqSpecImpl;
use crate::expression::{terms, Base, Cos, Exp, Expression, Log, Pow, Sin, Tan, X};

verus! {

/// Whether `left` and `right` hold equal expressions at every position.
fn same_all(left: &Vec<Expression>, right: &Vec<Expression>) -> (r: bool)
    ensures
        r == (terms(left@) == terms(right@)),
    decreases left,
{
    if left.len() != right.len() {
        assert(terms(left@).len() != terms(right@).len());
        return false;
    }
    for i in 0..left.len()
        invariant
            left.len() == right.len(),
            forall|k: int| 0 <= k < i ==> left[k]@ == right[k]@,
    {
        if !left[i].eq(&right[i]) {
            assert(terms(left@)[i as int] != terms(right@)[i as int]);
            return false;
        }
    }
    assert(terms(left@) =~= terms(right@));
    true
}

impl PartialEq for X {
    fn eq(&self, other: &Self) -> (r: bool) {
        true
    }
}

impl PartialEqSpecImpl for X {
    open spec fn obeys_eq_spec() -> bool {
        true
    }

    open spec fn eq_spec(&self, other: &Self) -> bool {
        self@ == other@
    }
}

impl PartialEq for Exp {
    fn eq(&self, other: &Self) -> (r: bool)
        decreases self,
    {
        (*self.arg).eq(&*other.arg)
    }
}

impl PartialEqSpecImpl for Exp {
    open spec fn obeys_eq_spec() -> bool {
        true
    }

    open spec fn eq_spec(&self, other: &Self) -> bool {
        self@ == other@
    }
}

impl PartialEq for Pow {
    fn eq(&self, other: &Self) -> (r: bool)
        decreases self,
    {
        self.exp == other.exp && (*self.arg).eq(&*other.arg)
    }
}

impl PartialEqSpecImpl for Pow {
    open spec fn obeys_eq_spec() -> bool {
        true
    }

    open spec fn eq_spec(&self, other: &Self) -> bool {
        self@ == other@
    }
}

impl PartialEq for Log {
    fn eq(&self, other: &Self) -> (r: bool)
        decreases self,
    {
        (*self.arg).eq(&*other.arg)
    }
}

impl PartialEqSpecImpl for Log {
    open spec fn obeys_eq_spec() -> bool {
        true
    }

    open spec fn eq_spec(&self, other: &Self) -> bool {
        self@ == other@
    }
}

impl PartialEq for Sin {
    fn eq(&self, other: &Self) -> (r: bool)
        decreases self,
    {
        (*self.arg).eq(&*other.arg)
    }
}

impl PartialEqSpecImpl for Sin {
    open spec fn obeys_eq_spec() -> bool {
        true
    }

    open spec fn eq_spec(&self, other: &Self) -> bool {
        self@ == other@
    }
}

impl PartialEq for Cos {
    fn eq(&self, other: &Self) -> (r: bool)
        decreases self,
    {
        (*self.arg).eq(&*other.arg)
    }
}

impl PartialEqSpecImpl for Cos {
    open spec fn obeys_eq_spec() -> bool {
        true
    }

    open spec fn eq_spec(&self, other: &Self) -> bool {
        self@ == other@
    }
}

impl PartialEq for Tan {
    fn eq(&self, other: &Self) -> (r: bool)
        decreases self,
    {
        (*self.arg).eq(&*other.arg)
    }
}

impl PartialEqSpecImpl for Tan {
    open spec fn obeys_eq_spec() -> bool {
        true
    }

    open spec fn eq_spec(&self, other: &Self) -> bool {
        self@ == other@
    }
}

impl PartialEq for Base {
    fn eq(&self, other: &Self) -> (r: bool)
        decreases self,
    {
        proof {
            reveal_with_fuel(Base::term, 2);
        }
        match (self, other) {
            (Base::Scaler(a), Base::Scaler(b)) => *a == *b,
            (Base::X(a), Base::X(b)) => a.eq(b),
            (Base::Exp(a), Base::Exp(b)) => a.eq(b),
            (Base::Pow(a), Base::Pow(b)) => a.eq(b),
            (Base::Log(a), Base::Log(b)) => a.eq(b),
            (Base::Sin(a), Base::Sin(b)) => a.eq(b),
            (Base::Cos(a), Base::Cos(b)) => a.eq(b),
            (Base::Tan(a), Base::Tan(b)) => a.eq(b),
            _ => false,
        }
    }
}

impl PartialEqSpecImpl for Base {
    open spec fn obeys_eq_spec() -> bool {
        true
    }

    open spec fn eq_spec(&self, other: &Self) -> bool {
        self@ == other@
    }
}

impl PartialEq for Expression {
    fn eq(&self, other: &Self) -> (r: bool)
        decreases self,
    {
        proof {
            reveal_with_fuel(Expression::term, 3);
        }
        match (self, other) {
            (Expression::Base(a), Expression::Base(b)) => a.eq(b),
            (Expression::Add(a), Expression::Add(b)) => same_all(a, b),
            (Expression::Mul(a), Expression::Mul(b)) => same_all(a, b),
            _ => false,
        }
    }
}

impl PartialEqSpecImpl for Expression {
    open spec fn obeys_eq_spec() -> bool {
        true
    }

    open spec fn eq_spec(&self, other: &Self) -> bool {
        self@ == other@
    }
}

/// Two sequences of expressions stand for the same terms exactly when they
/// are as long as each other and agree at every position.
pub proof fn terms_are_equal_position_by_position(a: Seq<Expression>, b: Seq<Expression>)
    ensures
        terms(a) == terms(b) <==> a.len() == b.len() && forall|i: int|
            0 <= i < a.len() ==> a[i]@ == b[i]@,
{
    if a.len() == b.len() && forall|i: int| 0 <= i < a.len() ==> a[i]@ == b[i]@ {
        assert(terms(a) =~= terms(b));
    }
    if terms(a) == terms(b) {
        assert(terms(a).len() == terms(b).len());
        assert forall|i: int| 0 <= i < a.len() implies a[i]@ == b[i]@ by {
            assert(terms(a)[i] == terms(b)[i]);
        }
    }
}

/// Two sums are equal exactly when they have as many operands and equal
/// operands at every position. Equality does not look past a difference in
/// order.
pub proof fn sums_are_equal_operand_by_operand(a: Vec<Expression>, b: Vec<Expression>)
    ensures
        Expression::Add(a)@ == Expression::Add(b)@ <==> a.len() == b.len() && forall|i: int|
            0 <= i < a.len() ==> a[i]@ == b[i]@,
{
    terms_are_equal_position_by_position(a@, b@);
}

/// Two products are equal exactly when they have as many factors and equal
/// factors at every position.
pub proof fn products_are_equal_factor_by_factor(a: Vec<Expression>, b: Vec<Expression>)
    ensures
        Expression::Mul(a)@ == Expression::Mul(b)@ <==> a.len() == b.len() && forall|i: int|
            0 <= i < a.len() ==> a[i]@ == b[i]@,
{
    terms_are_equal_position_by_position(a@, b@);
}

/// Two elementary nodes are equal exactly when they are of the same kind,
/// carry the same number where they carry one, and have equal arguments.
pub proof fn nodes_are_equal_kind_by_kind(a: Base, b: Base)
    ensures
        a@ == b@ <==> match (a, b) {
            (Base::Scaler(c), Base::Scaler(d)) => c == d,
            (Base::X(_), Base::X(_)) => true,
            (Base::Exp(f), Base::Exp(g)) => f.arg@ == g.arg@,
            (Base::Pow(f), Base::Pow(g)) => f.exp == g.exp && f.arg@ == g.arg@,
            (Base::Log(f), Base::Log(g)) => f.arg@ == g.arg@,
            (Base::Sin(f), Base::Sin(g)) => f.arg@ == g.arg@,
            (Base::Cos(f), Base::Cos(g)) => f.arg@ == g.arg@,
            (Base::Tan(f), Base::Tan(g)) => f.arg@ == g.arg@,
            _ => false,
        },
{
    reveal_with_fuel(Base::term, 2);
}

/// An elementary node, a sum and a product are never equal to one another,
/// whatever they hold.
pub proof fn kinds_are_never_equal(node: Base, operands: Vec<Expression>, factors: Vec<Expression>)
    ensures
        Expression::Base(node)@ != Expression::Add(operands)@,
        Expression::Base(node)@ != Expression::Mul(factors)@,
        Expression::Add(operands)@ != Expression::Mul(factors)@,
{
    reveal_with_fuel(Expression::term, 3);
}

} // verus!
