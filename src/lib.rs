//! Layered configuration for release archives.
//!
//! A configuration section exists in two shapes: a partial layer, where every
//! field may be absent, and a resolved configuration, where every field holds a
//! value. Resolution starts from per-package defaults and applies layers in
//! increasing priority; layers can also be folded into one another first.
use vstd::prelude::*;

pub mod archives;
pub mod formats;
pub mod layer;
pub mod workspace;

verus! {

} // verus!
