//! The settings of the isolate feature, as one layer of configuration states
//! them.

use crate::mergable::{overlaid, overlay, Mergable};
use vstd::prelude::*;

verus! {

/// What one layer of configuration says about isolating.
///
/// Each setting is either left unspecified (`None`) or explicitly switched on
/// or off. An unspecified setting is not the same as `false`: it leaves the
/// decision to another layer, or in the end to the feature's own default.
#[derive(Debug, Clone, Copy, PartialEq, Eq, Structural)]
pub struct IsolateConfigDto {
    /// Whether submodules are left out.
    pub exclude_submodules: Option<bool>,
    /// Whether untracked files are taken along.
    pub include_untracked: Option<bool>,
}

impl IsolateConfigDto {
    /// The layer that specifies nothing.
    pub open spec fn unspecified() -> Self {
        IsolateConfigDto { exclude_submodules: None, include_untracked: None }
    }
}

impl Default for IsolateConfigDto {
    /// The layer that specifies nothing, as it stands in for a missing
    /// section of a configuration source.
    fn default() -> (config: Self)
        ensures
            config == Self::unspecified(),
    {
        IsolateConfigDto { exclude_submodules: None, include_untracked: None }
    }
}

impl Mergable for IsolateConfigDto {
    /// Each setting is overlaid on its own, independently of the other.
    open spec fn merged(&self, over: &Self) -> Self {
        IsolateConfigDto {
            exclude_submodules: overlaid(self.exclude_submodules, over.exclude_submodules),
            include_untracked: overlaid(self.include_untracked, over.include_untracked),
        }
    }

    /// Merge the provided `b` with `self`, overriding with any present values.
    fn merge(&self, b: &Self) -> (result: Self)
        ensures
            result.exclude_submodules == (if b.exclude_submodules is Some {
                b.exclude_submodules
            } else {
                self.exclude_submodules
            }),
            result.include_untracked == (if b.include_untracked is Some {
                b.include_untracked
            } else {
                self.include_untracked
            }),
    {
        IsolateConfigDto {
            exclude_submodules: overlay(self.exclude_submodules, b.exclude_submodules),
            include_untracked: overlay(self.include_untracked, b.include_untracked),
        }
    }
}

} // verus!
