//! The two-layer perceptron circuit and its witness model.
//!
//! Row 0 and row 1 each hold one hidden neuron: an affine gate over the
//! two external inputs.  Row 2 holds the output neuron: an affine gate
//! whose inputs are not raw witness values but the outputs of rows 0 and
//! 1, wired in by copy constraints.  `satisfies` states exactly which
//! cell values those three gates accept, and the laws below relate it to
//! the forward computation of the perceptron.

use vstd::arithmetic::div_mod::{
    lemma_add_mod_noop, lemma_mod_twice, lemma_mul_mod_noop_general, lemma_small_mod,
};
use vstd::arithmetic::mul::lemma_mul_upper_bound;
use vstd::prelude::*;

use crate::chips::{affine2, AffineChip};
use crate::field::{fp_eq, fp_from_i64, fp_modulus, fp_value, res};
use halo2_proofs::pasta::Fp;

verus! {

/// The secret inputs, weights and biases of one proving instance.
pub struct Witness {
    /// The two external inputs.
    pub x: [Fp; 2],
    /// Weights of the two hidden neurons, one row per neuron.
    pub w1: [[Fp; 2]; 2],
    /// Biases of the two hidden neurons.
    pub b1: [Fp; 2],
    /// Weights of the output neuron.
    pub w2: [Fp; 2],
    /// Bias of the output neuron.
    pub b2: Fp,
}

/// The value of hidden neuron 0: the residue its gate forces on the
/// output cell of row 0.
pub open spec fn hidden0_value(w: Witness) -> int {
    affine2(res(w.w1[0][0]), res(w.w1[0][1]), res(w.x[0]), res(w.x[1]), res(w.b1[0]))
}

/// The value of hidden neuron 1: the residue its gate forces on the
/// output cell of row 1.
pub open spec fn hidden1_value(w: Witness) -> int {
    affine2(res(w.w1[1][0]), res(w.w1[1][1]), res(w.x[0]), res(w.x[1]), res(w.b1[1]))
}

/// The value of the output neuron, fed by the two hidden values through
/// copy constraints.
pub open spec fn output_value(w: Witness) -> int {
    affine2(res(w.w2[0]), res(w.w2[1]), hidden0_value(w), hidden1_value(w), res(w.b2))
}

/// One affine gate accepts an output cell `y` exactly when `y` is
/// congruent to `w0·x0 + w1·x1 + b` modulo the field's prime.
pub open spec fn gate_accepts(w0: int, w1: int, x0: int, x1: int, b: int, y: int) -> bool {
    y % (fp_modulus() as int) == affine2(w0, w1, x0, x1, b)
}

/// The whole constraint system accepts the cell values `(h0, h1, y)` for
/// witness `w`: the three gates hold, with rows 0 and 1 reading the raw
/// witness and row 2 reading `h0` and `h1` through copy constraints.
pub open spec fn satisfies(w: Witness, h0: int, h1: int, y: int) -> bool {
    &&& gate_accepts(res(w.w1[0][0]), res(w.w1[0][1]), res(w.x[0]), res(w.x[1]), res(w.b1[0]), h0)
    &&& gate_accepts(res(w.w1[1][0]), res(w.w1[1][1]), res(w.x[0]), res(w.x[1]), res(w.b1[1]), h1)
    &&& gate_accepts(res(w.w2[0]), res(w.w2[1]), h0, h1, res(w.b2), y)
}

impl Witness {
    /// Builds a witness from plain signed integers: each value is reduced
    /// into the field, a negative `v` becoming the residue `p - |v|`.
    pub fn from_i64(x: [i64; 2], w1: [[i64; 2]; 2], b1: [i64; 2], w2: [i64; 2], b2: i64) -> (r:
        Witness)
        ensures
            res(r.x[0]) == x[0] as int % (fp_modulus() as int),
            res(r.x[1]) == x[1] as int % (fp_modulus() as int),
            res(r.w1[0][0]) == w1[0][0] as int % (fp_modulus() as int),
            res(r.w1[0][1]) == w1[0][1] as int % (fp_modulus() as int),
            res(r.w1[1][0]) == w1[1][0] as int % (fp_modulus() as int),
            res(r.w1[1][1]) == w1[1][1] as int % (fp_modulus() as int),
            res(r.b1[0]) == b1[0] as int % (fp_modulus() as int),
            res(r.b1[1]) == b1[1] as int % (fp_modulus() as int),
            res(r.w2[0]) == w2[0] as int % (fp_modulus() as int),
            res(r.w2[1]) == w2[1] as int % (fp_modulus() as int),
            res(r.b2) == b2 as int % (fp_modulus() as int),
    {
        Witness {
            x: [fp_from_i64(x[0]), fp_from_i64(x[1])],
            w1: [
                [fp_from_i64(w1[0][0]), fp_from_i64(w1[0][1])],
                [fp_from_i64(w1[1][0]), fp_from_i64(w1[1][1])],
            ],
            b1: [fp_from_i64(b1[0]), fp_from_i64(b1[1])],
            w2: [fp_from_i64(w2[0]), fp_from_i64(w2[1])],
            b2: fp_from_i64(b2),
        }
    }

    /// Runs the perceptron forward in field arithmetic, returning the
    /// values of the two hidden cells and the output cell — the unique
    /// cell values the circuit's gates accept for this witness.
    pub fn forward(&self) -> (r: (Fp, Fp, Fp))
        ensures
            res(r.0) == hidden0_value(*self),
            res(r.1) == hidden1_value(*self),
            res(r.2) == output_value(*self),
    {
        let h0 = AffineChip::<2>::output2(
            self.x[0],
            self.x[1],
            self.w1[0][0],
            self.w1[0][1],
            self.b1[0],
        );
        let h1 = AffineChip::<2>::output2(
            self.x[0],
            self.x[1],
            self.w1[1][0],
            self.w1[1][1],
            self.b1[1],
        );
        let y = AffineChip::<2>::output2(h0, h1, self.w2[0], self.w2[1], self.b2);
        (h0, h1, y)
    }

    /// Runs the perceptron forward and compares the output cell against a
    /// signed integer, reduced into the field the same way the witness
    /// values are.
    pub fn forward_matches_i64(&self, expected: i64) -> (r: bool)
        ensures
            r <==> output_value(*self) == expected as int % (fp_modulus() as int),
    {
        let (_h0, _h1, y) = self.forward();
        let e = fp_from_i64(expected);
        fp_eq(&y, &e)
    }
}

/// The circuit handed to the backend: key generation passes it with no
/// witness, and the shape it derives is independent of that choice.
pub struct MlpCircuit {
    /// The witness of one proving instance, absent during key generation.
    pub wit: Option<Witness>,
}

impl MlpCircuit {
    /// The witness-free copy of the circuit that key generation uses.
    pub fn without_witnesses(&self) -> (r: Self)
        ensures
            r.wit is None,
    {
        MlpCircuit { wit: None }
    }
}

/// Two sums of three terms, congruent term by term, are congruent.
proof fn lemma_add3_mod_congruent(a1: int, a2: int, b1: int, b2: int, c1: int, c2: int, m: int)
    requires
        m > 0,
        a1 % m == a2 % m,
        b1 % m == b2 % m,
        c1 % m == c2 % m,
    ensures
        (a1 + b1 + c1) % m == (a2 + b2 + c2) % m,
{
    lemma_add_mod_noop(a1, b1, m);
    lemma_add_mod_noop(a1 + b1, c1, m);
    lemma_add_mod_noop(a2, b2, m);
    lemma_add_mod_noop(a2 + b2, c2, m);
}

/// An affine gate evaluated on residues is congruent to the same gate
/// evaluated on the integers those residues came from.
proof fn lemma_affine2_of_residues(w0: int, w1: int, x0: int, x1: int, b: int)
    ensures
        affine2(
            w0 % (fp_modulus() as int),
            w1 % (fp_modulus() as int),
            x0 % (fp_modulus() as int),
            x1 % (fp_modulus() as int),
            b % (fp_modulus() as int),
        ) == (w0 * x0 + w1 * x1 + b) % (fp_modulus() as int),
{
    let m = fp_modulus() as int;
    assert(m > 0);
    lemma_mul_mod_noop_general(w0, x0, m);
    lemma_mul_mod_noop_general(w1, x1, m);
    lemma_mod_twice(b, m);
    lemma_add3_mod_congruent(
        (w0 % m) * (x0 % m),
        w0 * x0,
        (w1 % m) * (x1 % m),
        w1 * x1,
        b % m,
        b,
        m,
    );
}

/// Completeness of the forward pass: for every witness, the three values
/// the forward computation produces satisfy all three gates, so a
/// honestly assigned circuit is always satisfiable.
pub proof fn lemma_forward_satisfies(w: Witness)
    ensures
        satisfies(w, hidden0_value(w), hidden1_value(w), output_value(w)),
{
    let m = fp_modulus() as int;
    assert(m > 0);
    lemma_mod_twice(
        res(w.w1[0][0]) * res(w.x[0]) + res(w.w1[0][1]) * res(w.x[1]) + res(w.b1[0]),
        m,
    );
    lemma_mod_twice(
        res(w.w1[1][0]) * res(w.x[0]) + res(w.w1[1][1]) * res(w.x[1]) + res(w.b1[1]),
        m,
    );
    lemma_mod_twice(
        res(w.w2[0]) * hidden0_value(w) + res(w.w2[1]) * hidden1_value(w) + res(w.b2),
        m,
    );
}

/// Soundness at the constraint level: the gates pin the cells down.
/// Whatever canonical cell values the constraint system accepts for a
/// witness are exactly the forward values — a prover cannot commit to
/// any other hidden or output cells.
pub proof fn lemma_satisfying_values_unique(w: Witness, h0: int, h1: int, y: int)
    requires
        0 <= h0 < fp_modulus() as int,
        0 <= h1 < fp_modulus() as int,
        0 <= y < fp_modulus() as int,
        satisfies(w, h0, h1, y),
    ensures
        h0 == hidden0_value(w),
        h1 == hidden1_value(w),
        y == output_value(w),
{
    lemma_small_mod(h0 as nat, fp_modulus());
    lemma_small_mod(h1 as nat, fp_modulus());
    lemma_small_mod(y as nat, fp_modulus());
}

/// The all-zero witness satisfies the constraints trivially: every gate
/// output is zero.
pub proof fn lemma_zero_witness(w: Witness)
    requires
        res(w.x[0]) == 0,
        res(w.x[1]) == 0,
        res(w.w1[0][0]) == 0,
        res(w.w1[0][1]) == 0,
        res(w.w1[1][0]) == 0,
        res(w.w1[1][1]) == 0,
        res(w.b1[0]) == 0,
        res(w.b1[1]) == 0,
        res(w.w2[0]) == 0,
        res(w.w2[1]) == 0,
        res(w.b2) == 0,
    ensures
        hidden0_value(w) == 0,
        hidden1_value(w) == 0,
        output_value(w) == 0,
        satisfies(w, 0, 0, 0),
{
    let m = fp_modulus() as int;
    assert(m > 0);
    lemma_small_mod(0nat, fp_modulus());
}

/// Signed values agree with their modular representatives: a witness
/// whose residues are signed integers reduced into the field (negatives
/// as `p - |v|`) yields exactly the output of the signed-integer
/// computation, reduced once at the end.  There is no special-casing of
/// sign anywhere in the circuit.
pub proof fn lemma_signed_agreement(
    w: Witness,
    x0: int,
    x1: int,
    w00: int,
    w01: int,
    b0: int,
    w10: int,
    w11: int,
    b1: int,
    w20: int,
    w21: int,
    b2: int,
)
    requires
        res(w.x[0]) == x0 % (fp_modulus() as int),
        res(w.x[1]) == x1 % (fp_modulus() as int),
        res(w.w1[0][0]) == w00 % (fp_modulus() as int),
        res(w.w1[0][1]) == w01 % (fp_modulus() as int),
        res(w.w1[1][0]) == w10 % (fp_modulus() as int),
        res(w.w1[1][1]) == w11 % (fp_modulus() as int),
        res(w.b1[0]) == b0 % (fp_modulus() as int),
        res(w.b1[1]) == b1 % (fp_modulus() as int),
        res(w.w2[0]) == w20 % (fp_modulus() as int),
        res(w.w2[1]) == w21 % (fp_modulus() as int),
        res(w.b2) == b2 % (fp_modulus() as int),
    ensures
        hidden0_value(w) == (w00 * x0 + w01 * x1 + b0) % (fp_modulus() as int),
        hidden1_value(w) == (w10 * x0 + w11 * x1 + b1) % (fp_modulus() as int),
        output_value(w) == (w20 * (w00 * x0 + w01 * x1 + b0) + w21 * (w10 * x0 + w11 * x1 + b1)
            + b2) % (fp_modulus() as int),
{
    let m = fp_modulus() as int;
    let h0 = w00 * x0 + w01 * x1 + b0;
    let h1 = w10 * x0 + w11 * x1 + b1;
    lemma_affine2_of_residues(w00, w01, x0, x1, b0);
    lemma_affine2_of_residues(w10, w11, x0, x1, b1);
    lemma_affine2_of_residues(w20, w21, h0, h1, b2);
}

/// Values far below the field's modulus cannot wrap: up to magnitude
/// `2^30` the three gate outputs are the plain integer results of the
/// perceptron, with no reduction taking place.
pub proof fn lemma_small_values_exact(w: Witness)
    requires
        res(w.x[0]) <= 0x4000_0000,
        res(w.x[1]) <= 0x4000_0000,
        res(w.w1[0][0]) <= 0x4000_0000,
        res(w.w1[0][1]) <= 0x4000_0000,
        res(w.w1[1][0]) <= 0x4000_0000,
        res(w.w1[1][1]) <= 0x4000_0000,
        res(w.b1[0]) <= 0x4000_0000,
        res(w.b1[1]) <= 0x4000_0000,
        res(w.w2[0]) <= 0x4000_0000,
        res(w.w2[1]) <= 0x4000_0000,
        res(w.b2) <= 0x4000_0000,
    ensures
        hidden0_value(w) == res(w.w1[0][0]) * res(w.x[0]) + res(w.w1[0][1]) * res(w.x[1]) + res(
            w.b1[0],
        ),
        hidden1_value(w) == res(w.w1[1][0]) * res(w.x[0]) + res(w.w1[1][1]) * res(w.x[1]) + res(
            w.b1[1],
        ),
        output_value(w) == res(w.w2[0]) * hidden0_value(w) + res(w.w2[1]) * hidden1_value(w) + res(
            w.b2,
        ),
{
    let bound: int = 0x4000_0000;
    let hb: int = bound * bound + bound * bound + bound;
    lemma_mul_upper_bound(res(w.w1[0][0]), bound, res(w.x[0]), bound);
    lemma_mul_upper_bound(res(w.w1[0][1]), bound, res(w.x[1]), bound);
    lemma_mul_upper_bound(res(w.w1[1][0]), bound, res(w.x[0]), bound);
    lemma_mul_upper_bound(res(w.w1[1][1]), bound, res(w.x[1]), bound);
    let s0 = res(w.w1[0][0]) * res(w.x[0]) + res(w.w1[0][1]) * res(w.x[1]) + res(w.b1[0]);
    let s1 = res(w.w1[1][0]) * res(w.x[0]) + res(w.w1[1][1]) * res(w.x[1]) + res(w.b1[1]);
    lemma_small_mod(s0 as nat, fp_modulus());
    lemma_small_mod(s1 as nat, fp_modulus());
    lemma_mul_upper_bound(res(w.w2[0]), bound, hidden0_value(w), hb);
    lemma_mul_upper_bound(res(w.w2[1]), bound, hidden1_value(w), hb);
    let y = res(w.w2[0]) * hidden0_value(w) + res(w.w2[1]) * hidden1_value(w) + res(w.b2);
    lemma_small_mod(y as nat, fp_modulus());
}

} // verus!
