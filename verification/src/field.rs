//! Elements of the scalar field of the Pallas curve, held as canonical
//! little-endian bytes.

use pasta_curves::group::ff::PrimeField;
use pasta_curves::Fq;
use vstd::prelude::*;

verus! {

/// The order of the field: the prime `q` of the Pasta cycle.
pub open spec fn modulus() -> nat {
    0x40000000000000000000000000000000224698fc0994a8dd8c46eb2100000001nat
}

/// The number that a little-endian byte string stands for.
pub open spec fn le_value(bytes: Seq<u8>) -> nat
    decreases bytes.len(),
{
    if bytes.len() == 0 {
        0
    } else {
        bytes[0] as nat + 256 * le_value(bytes.drop_first())
    }
}

/// Addition in the field.
pub open spec fn field_add(x: nat, y: nat) -> nat {
    (x + y) % modulus()
}

/// The sum of two elements needs at most one subtraction of the order.
pub proof fn lemma_field_add_reduces(x: nat, y: nat)
    requires
        x < modulus(),
        y < modulus(),
    ensures
        field_add(x, y) < modulus(),
        x + y < modulus() ==> field_add(x, y) == x + y,
        x + y >= modulus() ==> field_add(x, y) == x + y - modulus(),
{
    let q = modulus() as int;
    let s = (x + y) as int;
    if s < q {
        vstd::arithmetic::div_mod::lemma_fundamental_div_mod_converse(s, q, 0, s);
    } else {
        vstd::arithmetic::div_mod::lemma_fundamental_div_mod_converse(s, q, 1, s - q);
    }
}

/// Multiplication in the field.
pub open spec fn field_mul(x: nat, y: nat) -> nat {
    (x * y) % modulus()
}

/// A byte string of zeros stands for zero.
pub proof fn lemma_le_value_zeros(bytes: Seq<u8>)
    requires
        forall|i: int| 0 <= i < bytes.len() ==> bytes[i] == 0,
    ensures
        le_value(bytes) == 0,
    decreases bytes.len(),
{
    if bytes.len() > 0 {
        lemma_le_value_zeros(bytes.drop_first());
    }
}

/// Decodes both byte strings with `PrimeField::from_repr`, adds the two
/// elements with `pasta_curves::Fq`'s `+`, and encodes the sum with
/// `PrimeField::to_repr`. Claimed of them: on canonical inputs the decoding
/// succeeds, and the encoded sum is the canonical form of the sum of the two
/// inputs modulo the field's order.
#[verifier::external_body]
fn add_canonical(x: &[u8; 32], y: &[u8; 32]) -> (r: [u8; 32])
    requires
        le_value(x@) < modulus(),
        le_value(y@) < modulus(),
    ensures
        le_value(r@) == field_add(le_value(x@), le_value(y@)),
{
    let lhs = Fq::from_repr(*x).unwrap();
    let rhs = Fq::from_repr(*y).unwrap();
    (lhs + rhs).to_repr()
}

/// Asks `PrimeField::from_repr` of `pasta_curves::Fq` whether it accepts the
/// bytes. Claimed of it: it accepts exactly the little-endian encodings of
/// numbers below the field's order.
#[verifier::external_body]
fn is_canonical(bytes: &[u8; 32]) -> (r: bool)
    ensures
        r == (le_value(bytes@) < modulus()),
{
    Fq::from_repr(*bytes).is_some().into()
}

/// An element of the field. Two scalars are the same element exactly when
/// their bytes agree, since the bytes are always canonical.
#[derive(Clone, Copy, Debug, PartialEq, Eq)]
pub struct Scalar {
    repr: [u8; 32],
}

impl Scalar {
    #[verifier::type_invariant]
    spec fn canonical(self) -> bool {
        le_value(self.repr@) < modulus()
    }

    /// The canonical little-endian bytes of the element.
    pub closed spec fn bytes(self) -> Seq<u8> {
        self.repr@
    }

    /// The element as a number.
    pub open spec fn value(self) -> nat {
        le_value(self.bytes())
    }

    /// The additive identity.
    pub fn zero() -> (r: Scalar)
        ensures
            r.value() == 0,
            r.bytes() == Seq::new(32, |i: int| 0u8),
    {
        let repr = [0u8; 32];
        proof {
            lemma_le_value_zeros(repr@);
            assert(repr@ =~= Seq::new(32, |i: int| 0u8));
        }
        Scalar { repr }
    }

    /// The multiplicative identity.
    pub fn one() -> (r: Scalar)
        ensures
            r.value() == 1,
            r.bytes() == Seq::new(32, |i: int| 0u8).update(0, 1u8),
    {
        let mut repr = [0u8; 32];
        repr[0] = 1;
        proof {
            lemma_le_value_zeros(repr@.drop_first());
            assert(repr@ =~= Seq::new(32, |i: int| 0u8).update(0, 1u8));
        }
        Scalar { repr }
    }

    /// Reads an element from its little-endian bytes. Bytes that stand for a
    /// number at or above the field's order are not an element.
    pub fn from_repr(bytes: [u8; 32]) -> (r: Option<Scalar>)
        ensures
            r is Some <==> le_value(bytes@) < modulus(),
            r matches Some(s) ==> s.bytes() == bytes@,
    {
        if is_canonical(&bytes) {
            Some(Scalar { repr: bytes })
        } else {
            None
        }
    }

    /// The canonical little-endian bytes of the element.
    pub fn to_repr(&self) -> (r: [u8; 32])
        ensures
            r@ == self.bytes(),
            self.value() < modulus(),
    {
        proof {
            use_type_invariant(self);
        }
        self.repr
    }

    /// The sum of two elements.
    pub fn add(&self, rhs: &Scalar) -> (r: Scalar)
        ensures
            r.value() == field_add(self.value(), rhs.value()),
            r.value() < modulus(),
            self.value() + rhs.value() < modulus() ==> r.value() == self.value() + rhs.value(),
    {
        proof {
            use_type_invariant(self);
            use_type_invariant(rhs);
            lemma_field_add_reduces(self.value(), rhs.value());
        }
        let repr = add_canonical(&self.repr, &rhs.repr);
        Scalar { repr }
    }
}

} // verus!
