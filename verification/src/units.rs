//! The units-of-measure wrapper: a numeric value paired with a dimension
//! expression. Additive operators demand structurally equal dimensions and
//! report a mismatch as a typed error carrying both renderings;
//! multiplicative operators combine the dimensions as a new product or
//! quotient node, deliberately without simplification.
use crate::num::{bin, infix_text, tree_eq, Op, SymbolicManip};
use crate::payload::Numeric;
use vstd::prelude::*;
use vstd::string::StringExecFns;

verus! {

/// A numeric value and its dimension. The dimension expression is only ever
/// compared structurally or recombined; it is never evaluated numerically.
#[derive(Debug, PartialEq)]
pub struct Units<T> {
    number: T,
    unit: SymbolicManip<T>,
}

/// The additive operators' error: the two dimensions did not match. It
/// carries the infix rendering of both, for the caller's diagnostic.
#[derive(Debug)]
pub struct DimensionMismatch {
    pub left: String,
    pub right: String,
}

impl<T> Units<T> {
    /// The numeric value.
    pub closed spec fn value_spec(&self) -> T {
        self.number
    }

    /// The dimension expression.
    pub closed spec fn unit_spec(&self) -> SymbolicManip<T> {
        self.unit
    }
}

impl<T: Numeric> Units<T> {
    /// A value carrying the named unit as its dimension.
    pub fn new(num: T, u: String) -> (r: Self)
        ensures
            r.value_spec() == num,
            r.unit_spec() == SymbolicManip::<T>::Symbol(u),
    {
        Units { number: num, unit: SymbolicManip::Symbol(u) }
    }

    /// The raw magnitude, with the dimension discarded.
    pub fn drop_units(&self) -> (r: T)
        ensures
            r == self.value_spec(),
    {
        self.number.clone_value()
    }

    /// A structural copy of the value and its dimension.
    pub fn duplicate(&self) -> (r: Self)
        ensures
            r.value_spec() == self.value_spec(),
            r.unit_spec() == self.unit_spec(),
    {
        Units { number: self.number.clone_value(), unit: self.unit.duplicate() }
    }

    /// Addition: succeeds exactly when the dimensions are structurally
    /// equal, sums the numeric values, and keeps the dimension.
    pub fn add(self, other: Self) -> (r: Result<Self, DimensionMismatch>)
        ensures
            r is Ok <==> tree_eq(self.unit_spec(), other.unit_spec()),
            r matches Ok(u) ==> u.value_spec() == self.value_spec().add_spec(other.value_spec())
                && u.unit_spec() == self.unit_spec(),
            r matches Err(e) ==> e.left@ == infix_text(self.unit_spec()) && e.right@ == infix_text(
                other.unit_spec(),
            ),
    {
        if self.unit.eq_tree(&other.unit) {
            Ok(Units { number: self.number.add_value(other.number), unit: self.unit })
        } else {
            Err(
                DimensionMismatch {
                    left: self.unit.pretty_show(),
                    right: other.unit.pretty_show(),
                },
            )
        }
    }

    /// Negation: negates the numeric value and keeps the dimension.
    pub fn neg(self) -> (r: Self)
        ensures
            r.value_spec() == self.value_spec().neg_spec(),
            r.unit_spec() == self.unit_spec(),
    {
        Units { number: self.number.neg_value(), unit: self.unit }
    }

    /// Subtraction: addition of the negated right-hand operand, so it
    /// succeeds exactly when the dimensions are structurally equal.
    pub fn sub(self, other: Self) -> (r: Result<Self, DimensionMismatch>)
        ensures
            r is Ok <==> tree_eq(self.unit_spec(), other.unit_spec()),
            r matches Ok(u) ==> u.value_spec() == self.value_spec().add_spec(
                other.value_spec().neg_spec(),
            ) && u.unit_spec() == self.unit_spec(),
            r matches Err(e) ==> e.left@ == infix_text(self.unit_spec()) && e.right@ == infix_text(
                other.unit_spec(),
            ),
    {
        self.add(other.neg())
    }

    /// Multiplication: no dimension check; the dimensions are combined as a
    /// new product node, not simplified.
    pub fn mul(self, other: Self) -> (r: Self)
        ensures
            r.value_spec() == self.value_spec().mul_spec(other.value_spec()),
            r.unit_spec() == bin(Op::Mul, self.unit_spec(), other.unit_spec()),
    {
        Units { number: self.number.mul_value(other.number), unit: self.unit.mul(other.unit) }
    }

    /// Division: no dimension check; the dimensions are combined as a new
    /// quotient node, not simplified — dividing by a value of the same
    /// dimension does not cancel to a dimensionless unit.
    pub fn div(self, other: Self) -> (r: Self)
        ensures
            r.value_spec() == self.value_spec().div_spec(other.value_spec()),
            r.unit_spec() == bin(Op::Div, self.unit_spec(), other.unit_spec()),
    {
        Units { number: self.number.div_value(other.number), unit: self.unit.div(other.unit) }
    }

    /// Renders as the numeric value, an underscore, and the infix rendering
    /// of the dimension.
    pub fn pretty_show(&self) -> (r: String)
        ensures
            r@ == self.value_spec().text_spec() + seq!['_'] + infix_text(self.unit_spec()),
    {
        let mut s = self.number.text();
        proof {
            reveal_strlit("_");
        }
        s.append("_");
        self.unit.push_infix(&mut s);
        proof {
            assert(s@ =~= self.value_spec().text_spec() + seq!['_'] + infix_text(
                self.unit_spec(),
            ));
        }
        s
    }
}

/// A shortcut: a Units value from a raw value and a unit name.
pub fn c<T: Numeric>(num: T, unit: &str) -> (r: Units<T>)
    ensures
        r.value_spec() == num,
        r.unit_spec() matches SymbolicManip::Symbol(s) && s@ == unit@,
{
    Units::new(num, unit.to_owned())
}

} // verus!
