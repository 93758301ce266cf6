use bellperson::SynthesisError;
use fibonacci_circuit::circuit::FibonacciCircuit;
use fibonacci_circuit::field::Scalar;
use fibonacci_circuit::r1cs::{AllocatedNum, Constraint, Variable};

fn scalar(n: u8) -> Scalar {
    let mut bytes = [0u8; 32];
    bytes[0] = n;
    Scalar::from_repr(bytes).unwrap()
}

fn seed() -> FibonacciCircuit {
    FibonacciCircuit::new(Scalar::zero(), Scalar::one())
}

fn state(x: u8, y: u8) -> [AllocatedNum; 2] {
    [
        AllocatedNum::new(Some(scalar(x)), Variable::Input(1)),
        AllocatedNum::new(Some(scalar(y)), Variable::Input(2)),
    ]
}

#[test]
fn arity_is_two_whatever_the_addends() {
    assert_eq!(seed().arity(), 2);
    assert_eq!(FibonacciCircuit::new(scalar(200), scalar(13)).arity(), 2);
    assert_eq!(FibonacciCircuit::new(Scalar::zero(), Scalar::zero()).arity(), 2);
}

#[test]
fn genesis_holds_zero_and_one() {
    let c = FibonacciCircuit::genesis();
    assert_eq!(c.a(), Scalar::zero());
    assert_eq!(c.b(), Scalar::one());
    assert_eq!(c.sum_witness(), Scalar::one());
    assert_eq!(c.output(&[Scalar::zero(), Scalar::one()]), vec![Scalar::one()]);
}

#[test]
fn new_keeps_the_addends() {
    let c = FibonacciCircuit::new(scalar(3), scalar(4));
    assert_eq!(c.a(), scalar(3));
    assert_eq!(c.b(), scalar(4));
}

#[test]
fn output_of_the_seed_state() {
    assert_eq!(seed().output(&[Scalar::zero(), Scalar::one()]), vec![Scalar::one()]);
}

#[test]
fn output_is_the_sum_of_the_state() {
    let c = FibonacciCircuit::new(scalar(50), scalar(60));
    assert_eq!(c.output(&[scalar(5), scalar(8)]), vec![scalar(13)]);
    assert_eq!(c.output(&[scalar(8), scalar(13)]), vec![scalar(21)]);
}

#[test]
fn sum_witness_is_the_sum_of_the_addends() {
    assert_eq!(seed().sum_witness(), Scalar::one());
    assert_eq!(FibonacciCircuit::new(scalar(3), scalar(4)).sum_witness(), scalar(7));
}

#[test]
fn synthesize_shifts_the_state_and_emits_one_product_constraint() {
    let c = FibonacciCircuit::new(scalar(3), scalar(4));
    let z = state(5, 8);
    let mut constraints = Vec::new();
    let mut asked = Vec::new();
    let next = c
        .synthesize(
            &mut constraints,
            |w| {
                asked.push(w);
                Ok(AllocatedNum::new(Some(w), Variable::Aux(9)))
            },
            &z,
        )
        .unwrap();
    assert_eq!(asked, vec![scalar(7)]);
    assert_eq!(next, vec![z[1], AllocatedNum::new(Some(scalar(7)), Variable::Aux(9))]);
    assert_eq!(
        constraints,
        vec![Constraint { a: Variable::Input(1), b: Variable::Input(2), c: Variable::Aux(9) }]
    );
}

#[test]
fn synthesize_ignores_the_state_in_its_witness() {
    let c = seed();
    let mut constraints = Vec::new();
    let first = c
        .synthesize(&mut constraints, |w| Ok(AllocatedNum::new(Some(w), Variable::Aux(0))), &state(0, 1))
        .unwrap();
    let second = c
        .synthesize(&mut constraints, |w| Ok(AllocatedNum::new(Some(w), Variable::Aux(1))), &state(1, 1))
        .unwrap();
    assert_eq!(first[1].get_value(), Some(Scalar::one()));
    assert_eq!(second[1].get_value(), Some(Scalar::one()));
    assert_eq!(second[0], state(1, 1)[1]);
    assert_eq!(constraints.len(), 2);
}

#[test]
fn synthesize_keeps_earlier_constraints() {
    let earlier = Constraint { a: Variable::Aux(1), b: Variable::Aux(2), c: Variable::Aux(3) };
    let mut constraints = vec![earlier];
    let z = state(2, 3);
    seed()
        .synthesize(&mut constraints, |_| Ok(AllocatedNum::new(None, Variable::Aux(4))), &z)
        .unwrap();
    assert_eq!(
        constraints,
        vec![earlier, Constraint { a: Variable::Input(1), b: Variable::Input(2), c: Variable::Aux(4) }]
    );
}

#[test]
fn synthesize_without_values_still_gives_the_shape() {
    let z = [
        AllocatedNum::new(None, Variable::Aux(10)),
        AllocatedNum::new(None, Variable::Aux(11)),
    ];
    let mut constraints = Vec::new();
    let next = seed()
        .synthesize(&mut constraints, |_| Ok(AllocatedNum::new(None, Variable::Aux(12))), &z)
        .unwrap();
    assert_eq!(next.len(), 2);
    assert_eq!(next[0].get_variable(), Variable::Aux(11));
    assert_eq!(next[1].get_variable(), Variable::Aux(12));
    assert_eq!(next[1].get_value(), None);
}

#[test]
fn synthesize_hands_on_a_refused_allocation() {
    let mut constraints = Vec::new();
    let r = seed().synthesize(&mut constraints, |_| Err(SynthesisError::AssignmentMissing), &state(0, 1));
    assert!(matches!(r, Err(SynthesisError::AssignmentMissing)));
    assert!(constraints.is_empty());
}

#[test]
fn complete_step_on_an_allocated_wire() {
    let z = state(1, 2);
    let sum = AllocatedNum::new(Some(scalar(1)), Variable::Aux(5));
    let mut constraints = Vec::new();
    let next = seed().complete_step(&mut constraints, Ok(sum), &z).unwrap();
    assert_eq!(next, vec![z[1], sum]);
    assert_eq!(
        constraints,
        vec![Constraint { a: Variable::Input(1), b: Variable::Input(2), c: Variable::Aux(5) }]
    );
}

#[test]
fn complete_step_on_a_refusal() {
    let mut constraints = Vec::new();
    let r = seed().complete_step(&mut constraints, Err(SynthesisError::Unsatisfiable), &state(1, 2));
    assert!(matches!(r, Err(SynthesisError::Unsatisfiable)));
    assert!(constraints.is_empty());
}
