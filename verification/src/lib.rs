//! Verified core of a speech feature-extraction pipeline.
//!
//! The library holds the integer and structural logic of the pipeline:
//! splitting a signal into overlapping frames, the geometry of the mel
//! filter bank, the lag bounds and lag selection of the autocorrelation
//! pitch estimator, and the validated configuration bundle. Samples are
//! carried as opaque 32-bit words; the floating-point kernels (window,
//! FFT, log, DCT, normalization) live outside the verified core and hand
//! plain values in and out.

pub mod config;
pub mod framing;
pub mod mel;
pub mod pitch;
pub mod voicing;

use vstd::prelude::*;

verus! {

/// The error taxonomy of the pipeline: it either returns fully formed,
/// aligned outputs or fails before producing any result.
#[derive(Clone, Copy, Debug, PartialEq, Eq, Structural)]
pub enum FeatureError {
    /// The signal is shorter than one frame length.
    InsufficientSamples,
    /// The configuration values contradict one another.
    ConfigurationInconsistency,
}

} // verus!
