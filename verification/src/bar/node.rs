//! The widget tree a bar lays out.

use vstd::prelude::*;

use crate::bar::style::Style;

verus! {

/// One element of a bar's widget tree: its style, its text and its children
/// in drawing order.
pub struct Node {
    pub style: Style,
    pub content: String,
    pub children: Vec<Node>,
}

} // verus!
