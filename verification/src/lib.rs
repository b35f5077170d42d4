//! A tiny two-layer perceptron expressed as an arithmetic circuit over the
//! Pasta base field, together with the value model that a witness must
//! satisfy for a proof of the circuit to verify.
//!
//! The proving backend (polynomial commitments, transcripts, key and proof
//! serialisation) is consumed through a narrow trusted interface; everything
//! that decides *which values the circuit accepts* — the affine gate
//! arithmetic, the lookup table contents, and the witness model — is stated
//! and proved here.

pub mod chips;
pub mod circuit;
pub mod field;
