//! The two gate families of the circuit.
//!
//! `AffineChip` carries the polynomial gate `y = Σ wᵢ·xᵢ + b`; its
//! `output` function evaluates that sum in field arithmetic.
//! `LookupTanhChip` carries the 256-entry quantised tanh table that a
//! lookup constraint checks membership against.

use vstd::arithmetic::div_mod::{lemma_add_mod_noop, lemma_add_mod_noop_right};
use vstd::prelude::*;

use crate::field::{fp_add, fp_modulus, fp_mul, fp_value};
use halo2_proofs::pasta::Fp;

verus! {

/// The residues that a sequence of field elements stands for.
pub open spec fn residues(s: Seq<Fp>) -> Seq<int> {
    s.map(|i: int, e: Fp| fp_value(e) as int)
}

/// The dot product of the first `n` weight/input pairs, as an unreduced
/// integer: `w[0]*x[0] + ... + w[n-1]*x[n-1]`.
pub open spec fn dot(w: Seq<int>, x: Seq<int>, n: int) -> int
    decreases n,
{
    if n <= 0 {
        0
    } else {
        dot(w, x, n - 1) + w[n - 1] * x[n - 1]
    }
}

/// The identity an affine gate of arity two enforces, as a residue:
/// `w0·x0 + w1·x1 + b` reduced modulo the field's prime.
pub open spec fn affine2(w0: int, w1: int, x0: int, x1: int, b: int) -> int {
    (w0 * x0 + w1 * x1 + b) % (fp_modulus() as int)
}

/// The affine gate of arity `N`: one row holds `N` advice input cells,
/// `N` fixed weight cells, one fixed bias cell and one advice output
/// cell, and a selector guards the polynomial identity
/// `y - (Σ wᵢ·xᵢ + b) = 0` on that row.
pub struct AffineChip<const N: usize>;

impl<const N: usize> AffineChip<N> {
    /// Evaluates `Σ wᵢ·xᵢ + b` modulo the field's prime: the one
    /// residue the row's output cell may carry without violating the
    /// polynomial identity.
    pub fn output(x: &[Fp; N], w: &[Fp; N], b: Fp) -> (r: Fp)
        ensures
            N > 0 ==> fp_value(r) as int == (fp_value(b) + dot(residues(w@), residues(x@), N as int))
                % (fp_modulus() as int),
            N == 0 ==> r == b,
    {
        let ghost pm = fp_modulus() as int;
        let ghost bv = fp_value(b) as int;
        let mut acc = b;
        let mut i: usize = 0;
        while i < N
            invariant
                0 <= i <= N,
                pm == fp_modulus() as int,
                bv == fp_value(b) as int,
                i == 0 ==> acc == b,
                i > 0 ==> fp_value(acc) as int == (bv + dot(residues(w@), residues(x@), i as int)) % pm,
            decreases N - i,
        {
            let term = fp_mul(w[i], x[i]);
            let next = fp_add(acc, term);
            proof {
                let ws = residues(w@);
                let xs = residues(x@);
                assert(pm > 0);
                let d = dot(ws, xs, i as int);
                let step: int = ws[i as int] * xs[i as int];
                assert(dot(ws, xs, i + 1) == d + step);
                if i == 0 {
                    lemma_add_mod_noop_right(bv, step, pm);
                } else {
                    lemma_add_mod_noop(bv + d, step, pm);
                }
            }
            acc = next;
            i = i + 1;
        }
        acc
    }
}

impl AffineChip<2> {
    /// Evaluates the arity-two gate, spelled over the five cells of
    /// its row.
    pub fn output2(x0: Fp, x1: Fp, w0: Fp, w1: Fp, b: Fp) -> (r: Fp)
        ensures
            fp_value(r) as int == affine2(
                fp_value(w0) as int,
                fp_value(w1) as int,
                fp_value(x0) as int,
                fp_value(x1) as int,
                fp_value(b) as int,
            ),
    {
        let x = [x0, x1];
        let w = [w0, w1];
        let r = Self::output(&x, &w, b);
        proof {
            let ws = residues(w@);
            let xs = residues(x@);
            assert(dot(ws, xs, 0) == 0);
            assert(dot(ws, xs, 1) == ws[0] * xs[0]);
            assert(dot(ws, xs, 2) == ws[0] * xs[0] + ws[1] * xs[1]);
        }
        r
    }
}

/// The rows of the quantised tanh table: entry `i` holds the value for
/// input code `i`, namely `tanh((i - 128)/32)` scaled by 10000, rounded
/// to the nearest integer, and re-biased by +10000 so the stored value
/// is never negative.
pub open spec fn tanh_table_spec() -> Seq<u64> {
    seq![
        7u64, 7, 8, 8, 9, 9, 10, 10, 11, 12, 13, 13, 14, 15, 16, 17, 18, 19, 21, 22, 23, 25, 27,
        28, 30, 32, 34, 36, 39, 41, 44, 46, 49, 53, 56, 60, 63, 68, 72, 76, 81, 87, 92, 98, 104,
        111, 118, 126, 134, 142, 152, 161, 172, 183, 194, 207, 220, 234, 249, 264, 281, 299, 318,
        338, 360, 382, 407, 432, 460, 488, 519, 552, 586, 623, 662, 703, 747, 793, 842, 894, 949,
        1007, 1068, 1133, 1202, 1274, 1351, 1432, 1517, 1607, 1702, 1802, 1907, 2018, 2134, 2256,
        2384, 2518, 2659, 2807, 2961, 3122, 3290, 3466, 3649, 3839, 4036, 4241, 4454, 4674, 4902,
        5137, 5379, 5628, 5884, 6147, 6416, 6692, 6973, 7259, 7551, 7847, 8147, 8450, 8756, 9065,
        9376, 9688, 10000, 10312, 10624, 10935, 11244, 11550, 11853, 12153, 12449, 12741, 13027,
        13308, 13584, 13853, 14116, 14372, 14621, 14863, 15098, 15326, 15546, 15759, 15964, 16161,
        16351, 16534, 16710, 16878, 17039, 17193, 17341, 17482, 17616, 17744, 17866, 17982, 18093,
        18198, 18298, 18393, 18483, 18568, 18649, 18726, 18798, 18867, 18932, 18993, 19051, 19106,
        19158, 19207, 19253, 19297, 19338, 19377, 19414, 19448, 19481, 19512, 19540, 19568, 19593,
        19618, 19640, 19662, 19682, 19701, 19719, 19736, 19751, 19766, 19780, 19793, 19806, 19817,
        19828, 19839, 19848, 19858, 19866, 19874, 19882, 19889, 19896, 19902, 19908, 19913, 19919,
        19924, 19928, 19932, 19937, 19940, 19944, 19947, 19951, 19954, 19956, 19959, 19961, 19964,
        19966, 19968, 19970, 19972, 19973, 19975, 19977, 19978, 19979, 19981, 19982, 19983, 19984,
        19985, 19986, 19987, 19987, 19988, 19989, 19990, 19990, 19991, 19991, 19992, 19992, 19993,
    ]
}

/// The lookup-table gate of the nonlinearity: a 256-row table mapping an
/// input code in `[0, 255]` to a quantised tanh output, enforced through
/// a membership constraint.  A row asserting this lookup is satisfiable
/// exactly when its input cell holds one of the 256 codes and its output
/// cell holds the associated table value.
pub struct LookupTanhChip;

/// What a row asserting the tanh lookup accepts: the input cell must
/// carry one of the 256 table codes, and the output cell must carry the
/// value stored for that code.
pub open spec fn lookup_accepts(code: int, out: int) -> bool {
    0 <= code < 256 && out == tanh_table_spec()[code]
}

impl LookupTanhChip {
    /// The one output value the lookup accepts for an input code.
    pub fn eval(code: u8) -> (r: u64)
        ensures
            lookup_accepts(code as int, r as int),
    {
        let t = Self::table();
        t[code as usize]
    }

    /// The data the table is loaded with, exactly once per circuit
    /// shape, before any witness-dependent assignment.
    pub fn table() -> (t: Vec<u64>)
        ensures
            t@ == tanh_table_spec(),
    {
        let t: Vec<u64> = vec![
            7u64, 7, 8, 8, 9, 9, 10, 10, 11, 12, 13, 13, 14, 15, 16, 17, 18, 19, 21, 22, 23, 25,
            27, 28, 30, 32, 34, 36, 39, 41, 44, 46, 49, 53, 56, 60, 63, 68, 72, 76, 81, 87, 92,
            98, 104, 111, 118, 126, 134, 142, 152, 161, 172, 183, 194, 207, 220, 234, 249, 264,
            281, 299, 318, 338, 360, 382, 407, 432, 460, 488, 519, 552, 586, 623, 662, 703, 747,
            793, 842, 894, 949, 1007, 1068, 1133, 1202, 1274, 1351, 1432, 1517, 1607, 1702, 1802,
            1907, 2018, 2134, 2256, 2384, 2518, 2659, 2807, 2961, 3122, 3290, 3466, 3649, 3839,
            4036, 4241, 4454, 4674, 4902, 5137, 5379, 5628, 5884, 6147, 6416, 6692, 6973, 7259,
            7551, 7847, 8147, 8450, 8756, 9065, 9376, 9688, 10000, 10312, 10624, 10935, 11244,
            11550, 11853, 12153, 12449, 12741, 13027, 13308, 13584, 13853, 14116, 14372, 14621,
            14863, 15098, 15326, 15546, 15759, 15964, 16161, 16351, 16534, 16710, 16878, 17039,
            17193, 17341, 17482, 17616, 17744, 17866, 17982, 18093, 18198, 18298, 18393, 18483,
            18568, 18649, 18726, 18798, 18867, 18932, 18993, 19051, 19106, 19158, 19207, 19253,
            19297, 19338, 19377, 19414, 19448, 19481, 19512, 19540, 19568, 19593, 19618, 19640,
            19662, 19682, 19701, 19719, 19736, 19751, 19766, 19780, 19793, 19806, 19817, 19828,
            19839, 19848, 19858, 19866, 19874, 19882, 19889, 19896, 19902, 19908, 19913, 19919,
            19924, 19928, 19932, 19937, 19940, 19944, 19947, 19951, 19954, 19956, 19959, 19961,
            19964, 19966, 19968, 19970, 19972, 19973, 19975, 19977, 19978, 19979, 19981, 19982,
            19983, 19984, 19985, 19986, 19987, 19987, 19988, 19989, 19990, 19990, 19991, 19991,
            19992, 19992, 19993,
        ];
        proof {
            assert(t@ =~= tanh_table_spec());
        }
        t
    }
}

/// Every stored output lies in `[0, 20000]`: the table never maps a code
/// to a value outside the quantised range of tanh.
pub proof fn lemma_tanh_table_bounds()
    ensures
        tanh_table_spec().len() == 256,
        forall|i: int| 0 <= i < 256 ==> #[trigger] tanh_table_spec()[i] <= 20000,
{
}

/// The table is odd around its midpoint: code 128 maps to the re-biased
/// zero, and entries at equal distance either side of it sum to 20000,
/// as the quantisation of an odd function.
pub proof fn lemma_tanh_table_odd()
    ensures
        tanh_table_spec()[128] == 10000,
        forall|k: int|
            0 <= k < 128 ==> #[trigger] tanh_table_spec()[128 + k] + tanh_table_spec()[128 - k]
                == 20000,
{
}

} // verus!
