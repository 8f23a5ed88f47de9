//! An Extended Phase Graph (EPG) engine for nuclear-spin simulation.
//!
//! The ensemble of spins is modelled as a finite ladder of complex
//! coherence-order coefficients. Three operators drive it: an RF rotation,
//! exponential relaxation, and a gradient-induced shift of the ladder.
//! Sequence drivers compose the operators into named acquisition protocols
//! and return a signal trace.
//!
//! Every complex coefficient is held as the IEEE-754 bit patterns of its
//! real and imaginary parts, so the ladder bookkeeping — in particular the
//! gradient shift, which must preserve the conjugate-symmetry relation at
//! order zero exactly — is verified bit for bit. Floating-point arithmetic
//! itself is delegated to `num_complex` and `libm` behind a small set of
//! trusted wrappers whose results the contracts name.

pub mod complex;
pub mod scalar;
pub mod rotation;
pub mod state;
pub mod shift;
pub mod sequences;
pub mod tissues;
pub mod types;
