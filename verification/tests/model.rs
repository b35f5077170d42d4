//! Tests of the circuit's value model: the forward computation over the
//! field and the quantised tanh table.

use mlp_zk::chips::LookupTanhChip;
use mlp_zk::circuit::Witness;

fn w(x: [i64; 2], w1: [[i64; 2]; 2], b1: [i64; 2], w2: [i64; 2], b2: i64) -> Witness {
    Witness::from_i64(x, w1, b1, w2, b2)
}

#[test]
fn forward_concrete_scenario() {
    // h0 = 2*3 + 1*5 + 7 = 18, h1 = 4*3 + 3*5 + 11 = 38,
    // out = 9*18 + 6*38 + 13 = 403
    let wit = w([3, 5], [[2, 1], [4, 3]], [7, 11], [9, 6], 13);
    assert!(wit.forward_matches_i64(403));
    assert!(!wit.forward_matches_i64(402));
    assert!(!wit.forward_matches_i64(-403));
}

#[test]
fn forward_zero_witness() {
    let wit = w([0, 0], [[0, 0], [0, 0]], [0, 0], [0, 0], 0);
    assert!(wit.forward_matches_i64(0));
    assert!(!wit.forward_matches_i64(1));
}

#[test]
fn forward_negative_values() {
    let x = [-1i64, -2];
    let w1 = [[-3i64, 4], [-5, 6]];
    let b1 = [0i64, -7];
    let w2 = [-8i64, 9];
    let b2 = -10i64;
    let h0 = w1[0][0] * x[0] + w1[0][1] * x[1] + b1[0];
    let h1 = w1[1][0] * x[0] + w1[1][1] * x[1] + b1[1];
    let out = w2[0] * h0 + w2[1] * h1 + b2;
    let wit = w(x, w1, b1, w2, b2);
    assert!(wit.forward_matches_i64(out));
    assert!(!wit.forward_matches_i64(out + 1));
    assert!(!wit.forward_matches_i64(-out));
}

#[test]
fn negative_is_not_positive() {
    // The circuit forwards x0 alone, so the output is -1, which the field
    // must keep distinct from 1.
    let wit = w([-1, 0], [[1, 0], [0, 0]], [0, 0], [1, 0], 0);
    assert!(wit.forward_matches_i64(-1));
    assert!(!wit.forward_matches_i64(1));
}

#[test]
fn forward_large_magnitudes() {
    // Inputs near 2^30: no wrap-around may occur anywhere.
    let wit = w(
        [1 << 30, 1 << 30],
        [[1, 1], [1, 1]],
        [0, 0],
        [1, 1],
        0,
    );
    assert!(wit.forward_matches_i64(1i64 << 32));
    assert!(!wit.forward_matches_i64(0));
}

#[test]
fn tanh_table_shape() {
    let t = LookupTanhChip::table();
    assert_eq!(t.len(), 256);
    assert_eq!(t[0], 7);
    assert_eq!(t[128], 10000);
    assert_eq!(t[255], 19993);
    for i in 0..256 {
        assert!(t[i] <= 20000);
    }
    // quantisation of an odd function: symmetric about the midpoint
    for k in 0..128 {
        assert_eq!(t[128 + k] + t[128 - k], 20000);
    }
    // tanh is increasing, and so is its quantisation
    for i in 0..255 {
        assert!(t[i] <= t[i + 1]);
    }
}

#[test]
fn tanh_eval_indexes_table() {
    let t = LookupTanhChip::table();
    assert_eq!(LookupTanhChip::eval(0), 7);
    assert_eq!(LookupTanhChip::eval(128), 10000);
    assert_eq!(LookupTanhChip::eval(255), 19993);
    assert_eq!(LookupTanhChip::eval(100), t[100]);
}
