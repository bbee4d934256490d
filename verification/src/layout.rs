//! The outcome of a layout pass: a tree of rectangles.

use vstd::prelude::*;
use crate::geometry::{Point, Size};

verus! {

/// The bounds that a layout pass computed for one piece of content, with the
/// bounds of the pieces inside it.
#[derive(Debug, PartialEq, Eq)]
pub struct Node {
    /// Where the top left corner lies.
    pub position: Point,
    /// How much space the content takes.
    pub size: Size,
    /// The nodes of the content's parts, in the order in which they are
    /// laid out.
    pub children: Vec<Node>,
}

impl Node {
    /// A node at `position` of the given `size` with the given `children`.
    pub fn new(position: Point, size: Size, children: Vec<Node>) -> (node: Node)
        ensures
            node.position == position,
            node.size == size,
            node.children == children,
    {
        Node { position, size, children }
    }
}

/// A borrowed [`Node`], as it is handed to whoever handles events or draws.
#[derive(Clone, Copy, Debug)]
pub struct Layout<'a> {
    /// The node that is looked at.
    pub node: &'a Node,
}

impl<'a> Layout<'a> {
    /// The layout that looks at `node`.
    pub fn new(node: &'a Node) -> (layout: Layout<'a>)
        ensures
            layout.node == node,
    {
        Layout { node }
    }
}

} // verus!
