use vstd::prelude::*;

verus! {

/// Marker that only this crate can implement, so that the set of lifecycle
/// states stays closed.
pub trait Sealed {}

} // verus!
