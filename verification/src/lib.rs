//! Rigid-body alignment engine: estimates the translation and rotation that
//! map a "moved" 3D point set onto a "reference" point set.
//!
//! The numerically delicate part of the estimate — which points may serve as
//! rotation anchors, in what order candidates are consumed, and when the
//! outcome is undetermined — is decided entirely by comparisons of squared
//! distances against a tolerance. This crate verifies that decision core over
//! exact integer distance keys; the floating-point vector arithmetic that
//! produces the keys and consumes the chosen anchors lives with the caller.

pub mod anchor;
pub mod matcher;
pub mod ranking;
pub mod session;
