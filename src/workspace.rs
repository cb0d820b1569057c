//! The context that per-package defaults are computed in.
use vstd::prelude::*;

verus! {

/// The packages of a workspace, by name.
#[derive(Debug, Clone)]
pub struct WorkspaceGraph {
    /// The name of each package, indexed by `PackageIdx`.
    pub packages: Vec<String>,
}

/// The position of a package in a `WorkspaceGraph`.
#[derive(Debug, Clone, Copy, PartialEq, Eq, Structural)]
pub struct PackageIdx(pub usize);

} // verus!
