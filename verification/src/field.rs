//! Field elements of the proving system.
//!
//! Every circuit value is an element of the prime field with modulus
//! `fp_modulus()` (the base field of the Pallas curve, over which the
//! backend commits to the circuit's polynomials).  The element type itself
//! belongs to the backend and is opaque here; the residue it stands for is
//! named by `fp_value`, and the arithmetic the circuit needs — embedding of
//! machine integers, addition, multiplication, negation, equality — is
//! consumed through trusted wrappers whose contracts are exact statements
//! of modular arithmetic over that residue.

use vstd::arithmetic::div_mod::lemma_small_mod;
use vstd::prelude::*;

use halo2_proofs::pasta::Fp;

verus! {

/// The prime modulus of the circuit's field: every value the circuit
/// handles is a residue in `[0, fp_modulus())`.
pub open spec fn fp_modulus() -> nat {
    0x40000000000000000000000000000000224698fc094cf91b992d30ed00000001nat
}

#[verifier::external_type_specification]
#[verifier::external_body]
pub struct ExFp(Fp);

/// The residue a field element stands for.  The backend keeps every
/// element in canonical reduced form, so each element stands for exactly
/// one residue below the modulus.
pub uninterp spec fn fp_value(e: Fp) -> nat;

/// The residue a field element stands for, as a mathematical integer;
/// shorthand for contracts written over `int` arithmetic.
pub open spec fn res(e: Fp) -> int {
    fp_value(e) as int
}

/// Relies on `From<u64>` for the pasta `Fp`: the embedding of `v` is the
/// residue `v` itself, since every `u64` is far below the modulus.
#[verifier::external_body]
pub(crate) fn fp_from_u64(v: u64) -> (r: Fp)
    ensures
        fp_value(r) == v as nat,
{
    Fp::from(v)
}

/// Relies on `Add` for the pasta `Fp`: addition of canonical residues,
/// reduced modulo the field's prime.
#[verifier::external_body]
pub(crate) fn fp_add(a: Fp, b: Fp) -> (r: Fp)
    ensures
        fp_value(r) == (fp_value(a) + fp_value(b)) % fp_modulus(),
{
    a + b
}

/// Relies on `Mul` for the pasta `Fp`: multiplication of canonical
/// residues, reduced modulo the field's prime.
#[verifier::external_body]
pub(crate) fn fp_mul(a: Fp, b: Fp) -> (r: Fp)
    ensures
        fp_value(r) == (fp_value(a) * fp_value(b)) % fp_modulus(),
{
    a * b
}

/// Relies on `Neg` for the pasta `Fp`: the additive inverse, so the result
/// stands for `-a` reduced into canonical range.
#[verifier::external_body]
pub(crate) fn fp_neg(a: Fp) -> (r: Fp)
    ensures
        fp_value(r) as int == (0 - fp_value(a) as int) % (fp_modulus() as int),
{
    -a
}

/// Relies on `PartialEq` for the pasta `Fp`: elements are kept in
/// canonical form, so limb equality coincides with equality of residues.
#[verifier::external_body]
pub(crate) fn fp_eq(a: &Fp, b: &Fp) -> (r: bool)
    ensures
        r <==> fp_value(*a) == fp_value(*b),
{
    a == b
}

/// Embeds a signed machine integer into the field: a non-negative `v`
/// becomes the residue `v`, and a negative `v` becomes `p - |v|`, which is
/// exactly `v` reduced modulo `p` in the Euclidean sense.
pub fn fp_from_i64(v: i64) -> (r: Fp)
    ensures
        fp_value(r) as int == (v as int) % (fp_modulus() as int),
        fp_value(r) < fp_modulus(),
{
    if v >= 0 {
        let r = fp_from_u64(v as u64);
        proof {
            lemma_small_mod(v as nat, fp_modulus());
        }
        r
    } else {
        let mag: u64 = (-(v as i128)) as u64;
        fp_neg(fp_from_u64(mag))
    }
}

} // verus!
