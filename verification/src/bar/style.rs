//! Styling of widget tree elements.

use vstd::prelude::*;

verus! {

/// Visual properties of a node. None are defined: every node is drawn alike.
#[derive(Clone, Copy, Debug, PartialEq, Eq, Default)]
pub struct Style {}

} // verus!
