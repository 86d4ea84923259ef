//! The units a bar is assembled from.

use vstd::prelude::*;

verus! {

/// One unit of a bar's content. None carries anything yet: a bar draws its
/// renderer's widgets only.
#[derive(Clone, Copy, Debug, PartialEq, Eq, Default)]
pub struct Module {}

} // verus!
