//! Layered configuration for the isolate feature.
//!
//! A configuration is assembled from several layers (global defaults, local
//! settings, ...). Each layer may leave a setting unspecified, and a later
//! layer overrides an earlier one only where it specifies a value.

pub mod isolate;
pub mod layering;
pub mod mergable;
