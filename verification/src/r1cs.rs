//! The data that a step exchanges with a rank-1 constraint system: wires,
//! numbers bound to wires, and constraints between wires.

use crate::field::{field_mul, modulus, Scalar};
use vstd::prelude::*;

verus! {

/// `bellperson::SynthesisError`: the error with which a constraint system
/// refuses a request. Nothing is claimed of what it holds; the step only
/// hands it on.
#[verifier::external_type_specification]
#[verifier::external_body]
pub struct ExSynthesisError(bellperson::SynthesisError);

/// A wire of the constraint system: a public input or an auxiliary (witness)
/// variable, by its index.
#[derive(Clone, Copy, Debug, PartialEq, Eq, Structural)]
pub enum Variable {
    Input(usize),
    Aux(usize),
}

/// A wire together with the value assigned to it, where one is known. While
/// only the shape of a circuit is collected no value is known.
#[derive(Clone, Copy, Debug, PartialEq, Eq)]
pub struct AllocatedNum {
    pub value: Option<Scalar>,
    pub variable: Variable,
}

impl AllocatedNum {
    pub fn new(value: Option<Scalar>, variable: Variable) -> (r: AllocatedNum)
        ensures
            r == (AllocatedNum { value, variable }),
    {
        AllocatedNum { value, variable }
    }

    pub fn get_value(&self) -> (r: Option<Scalar>)
        ensures
            r == self.value,
    {
        self.value
    }

    pub fn get_variable(&self) -> (r: Variable)
        ensures
            r == self.variable,
    {
        self.variable
    }
}

/// The rank-1 constraint `a * b = c`, each side being one wire with the
/// coefficient one.
#[derive(Clone, Copy, Debug, PartialEq, Eq, Structural)]
pub struct Constraint {
    pub a: Variable,
    pub b: Variable,
    pub c: Variable,
}

impl Constraint {
    /// Whether an assignment of numbers to wires satisfies the constraint:
    /// the product of the values on `a` and `b`, taken in the field, is the
    /// value on `c`.
    pub open spec fn satisfied_by(self, assignment: Map<Variable, nat>) -> bool {
        field_mul(assignment[self.a], assignment[self.b]) == assignment[self.c] % modulus()
    }
}

} // verus!
