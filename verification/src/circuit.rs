//! The Fibonacci step circuit.
//!
//! A step holds two addends `a` and `b`. When it is synthesized over a state
//! `[z0, z1]` it asks for one new auxiliary wire `sum` with the witness
//! `a + b`, emits the single constraint `z0 * z1 = sum`, and hands on the
//! state `[z1, sum]`. Evaluated on concrete values it returns `[z0 + z1]`.
//!
//! Two things about this step are deliberate and stated in the contracts
//! rather than smoothed over: the constraint is a product although the
//! evaluation is a sum, and the witness comes from the step's own addends,
//! not from the state it is given.

use crate::field::{field_add, field_mul, lemma_field_add_reduces, modulus, Scalar};
use crate::r1cs::{AllocatedNum, Constraint, Variable};
use bellperson::SynthesisError;
use vstd::prelude::*;

verus! {

/// One step of the computation, with its two addends.
#[derive(Clone, Copy, Debug)]
pub struct FibonacciCircuit {
    a: Scalar,
    b: Scalar,
}

impl FibonacciCircuit {
    /// The first addend.
    pub closed spec fn spec_a(self) -> Scalar {
        self.a
    }

    /// The second addend.
    pub closed spec fn spec_b(self) -> Scalar {
        self.b
    }

    /// The witness of the `sum` wire: `a + b` in the field.
    pub open spec fn spec_witness(self) -> nat {
        field_add(self.spec_a().value(), self.spec_b().value())
    }

    /// The constraint that a step over the state `z` emits once `sum` has been
    /// allocated: `z[0] * z[1] = sum`.
    pub open spec fn spec_constraint(z: Seq<AllocatedNum>, sum: AllocatedNum) -> Constraint {
        Constraint { a: z[0].variable, b: z[1].variable, c: sum.variable }
    }

    /// The state that a step over the state `z` hands on.
    pub open spec fn spec_next_state(z: Seq<AllocatedNum>, sum: AllocatedNum) -> Seq<AllocatedNum> {
        seq![z[1], sum]
    }

    pub fn new(a: Scalar, b: Scalar) -> (r: FibonacciCircuit)
        ensures
            r.spec_a() == a,
            r.spec_b() == b,
    {
        FibonacciCircuit { a, b }
    }

    /// The step that starts the sequence: its addends are the seed `0, 1`.
    pub fn genesis() -> (r: FibonacciCircuit)
        ensures
            r.spec_a().value() == 0,
            r.spec_b().value() == 1,
            r.spec_witness() == 1,
    {
        let r = FibonacciCircuit { a: Scalar::zero(), b: Scalar::one() };
        proof {
            lemma_field_add_reduces(0, 1);
        }
        r
    }

    pub fn a(&self) -> (r: Scalar)
        ensures
            r == self.spec_a(),
    {
        self.a
    }

    pub fn b(&self) -> (r: Scalar)
        ensures
            r == self.spec_b(),
    {
        self.b
    }

    /// The number of field elements in the state, whatever the addends are.
    pub fn arity(&self) -> (r: usize)
        ensures
            r == 2,
    {
        2
    }

    /// The value that the step assigns to the wire it allocates. It is the sum
    /// of the step's own addends and does not depend on any state.
    pub fn sum_witness(&self) -> (r: Scalar)
        ensures
            r.value() == self.spec_witness(),
            r.value() < modulus(),
            self.spec_a().value() + self.spec_b().value() < modulus() ==> r.value()
                == self.spec_a().value() + self.spec_b().value(),
    {
        self.a.add(&self.b)
    }

    /// What a step over the state `z` leaves behind, given the answer
    /// `allocation` to its request for the `sum` wire: on a refusal the error
    /// is handed on and no constraint is emitted; otherwise exactly one
    /// constraint is appended and the state shifts by one place.
    pub open spec fn spec_step(
        before: Seq<Constraint>,
        allocation: Result<AllocatedNum, SynthesisError>,
        z: Seq<AllocatedNum>,
        after: Seq<Constraint>,
        r: Result<Vec<AllocatedNum>, SynthesisError>,
    ) -> bool {
        match allocation {
            Ok(sum) => {
                &&& r matches Ok(next) && next@ == Self::spec_next_state(z, sum)
                &&& after == before.push(Self::spec_constraint(z, sum))
            },
            Err(e) => {
                &&& r matches Err(f) && f == e
                &&& after == before
            },
        }
    }

    /// Synthesizes the step over the state `z`.
    ///
    /// `alloc` is the constraint system's capability to allocate an auxiliary
    /// wire with a given witness. It is called once, with `a + b`. What it
    /// answers decides the rest as `complete_step` says: the emitted
    /// constraint goes to `constraints`, the next state is returned.
    pub fn synthesize<A: FnOnce(Scalar) -> Result<AllocatedNum, SynthesisError>>(
        &self,
        constraints: &mut Vec<Constraint>,
        alloc: A,
        z: &[AllocatedNum],
    ) -> (r: Result<Vec<AllocatedNum>, SynthesisError>)
        requires
            z@.len() == 2,
            forall|w: Scalar| w.value() == self.spec_witness() ==> alloc.requires((w,)),
        ensures
            exists|w: Scalar, allocation: Result<AllocatedNum, SynthesisError>|
                w.value() == self.spec_witness() && #[trigger] alloc.ensures((w,), allocation)
                    && Self::spec_step(
                    old(constraints)@,
                    allocation,
                    z@,
                    final(constraints)@,
                    r,
                ),
    {
        let witness = self.sum_witness();
        let allocation = alloc(witness);
        let ghost answered = allocation;
        let r = self.complete_step(constraints, allocation, z);
        proof {
            assert(alloc.ensures((witness,), answered));
        }
        r
    }

    /// The part of synthesis that follows the request for the `sum` wire.
    ///
    /// `allocation` is what the constraint system answered when asked for an
    /// auxiliary wire. If it refused, its error is handed on and nothing is
    /// emitted. Otherwise the constraint `z[0] * z[1] = sum` is appended to
    /// `constraints` and the next state `[z[1], sum]` is returned.
    pub fn complete_step(
        &self,
        constraints: &mut Vec<Constraint>,
        allocation: Result<AllocatedNum, SynthesisError>,
        z: &[AllocatedNum],
    ) -> (r: Result<Vec<AllocatedNum>, SynthesisError>)
        requires
            z@.len() == 2,
        ensures
            Self::spec_step(old(constraints)@, allocation, z@, final(constraints)@, r),
    {
        match allocation {
            Ok(sum) => {
                constraints.push(Constraint { a: z[0].variable, b: z[1].variable, c: sum.variable });
                let mut next: Vec<AllocatedNum> = Vec::new();
                next.push(z[1]);
                next.push(sum);
                assert(next@ =~= Self::spec_next_state(z@, sum));
                Ok(next)
            },
            Err(e) => Err(e),
        }
    }

    /// Evaluates the step on a concrete state of two values: the result holds
    /// their sum in the field, and nothing else. It is one value, although
    /// the state has two.
    pub fn output(&self, z: &[Scalar]) -> (r: Vec<Scalar>)
        requires
            z@.len() == 2,
        ensures
            r@.len() == 1,
            r@[0].value() == field_add(z@[0].value(), z@[1].value()),
            r@[0].value() < modulus(),
            z@[0].value() + z@[1].value() < modulus() ==> r@[0].value() == z@[0].value()
                + z@[1].value(),
    {
        let mut out: Vec<Scalar> = Vec::new();
        out.push(z[0].add(&z[1]));
        out
    }
}

/// The state handed on has two entries, and its first entry is the second
/// entry of the state received; its second entry is the allocated wire.
pub proof fn lemma_next_state_shifts(z: Seq<AllocatedNum>, sum: AllocatedNum)
    requires
        z.len() == 2,
    ensures
        FibonacciCircuit::spec_next_state(z, sum).len() == 2,
        FibonacciCircuit::spec_next_state(z, sum)[0] == z[1],
        FibonacciCircuit::spec_next_state(z, sum)[1] == sum,
{
}

/// An assignment that gives the allocated wire the step's witness satisfies
/// the emitted constraint exactly when the product of the two state values is
/// `a + b` in the field: the constraint ties the state to the step's own
/// addends by a product, not to the sum of the state.
pub proof fn lemma_constraint_ties_product_to_witness(
    circuit: FibonacciCircuit,
    z: Seq<AllocatedNum>,
    sum: AllocatedNum,
    assignment: Map<Variable, nat>,
)
    requires
        z.len() == 2,
        assignment[sum.variable] == circuit.spec_witness(),
    ensures
        FibonacciCircuit::spec_constraint(z, sum).satisfied_by(assignment) <==> field_mul(
            assignment[z[0].variable],
            assignment[z[1].variable],
        ) == field_add(circuit.spec_a().value(), circuit.spec_b().value()),
{
    let w = circuit.spec_witness();
    assert(w < modulus());
    assert(w % modulus() == w) by {
        vstd::arithmetic::div_mod::lemma_small_mod(w, modulus());
    }
}

} // verus!
