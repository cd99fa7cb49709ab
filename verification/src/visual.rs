use vstd::prelude::*;
use crate::geometry::SvgPoint;

verus! {

/// A colour, written as the host surface takes it (`"#000"`, `"red"`).
pub type Colour = &'static str;

/// The closed set of text styles a [`crate::shapes::Text`] can carry.
#[derive(Clone, Copy, PartialEq, Eq, Structural, Debug)]
pub enum TextStyle {
    Mono,
    Comment,
}

/// One drawable node, described structurally: everything the host surface
/// would be told about the node is held here as a plain value. An absent
/// optional field means the corresponding attribute is left unset, so the
/// host's default styling (transparent fill/stroke) applies; it is never a
/// sentinel value. Realizing a `Visual` as a concrete node of a drawing
/// surface is the embedding program's job.
#[derive(Debug, PartialEq, Eq)]
pub enum Visual {
    /// A circle centred at `(cx, cy)`.
    Circle { cx: i64, cy: i64, radius: i64, fill: Option<Colour>, stroke: Option<Colour> },
    /// An axis-aligned rectangle.
    Rect { x: i64, y: i64, width: i64, height: i64, fill: Option<Colour>, stroke: Option<Colour> },
    /// A run of styled text anchored at `(x, y)`.
    Text { x: i64, y: i64, content: String, style: TextStyle, colour: Colour },
    /// A container holding its children in draw order, optionally carrying a
    /// translation of exactly `transform` applied uniformly to all children.
    Group { transform: Option<SvgPoint>, children: Vec<Visual> },
}

/// The mutable child list of a host node that a scene can be mounted into.
/// Mounting replaces the whole list; it never appends.
#[derive(Debug)]
pub struct HostNode {
    pub children: Vec<Visual>,
}

impl HostNode {
    /// A host node with no children yet.
    pub fn new() -> (h: Self)
        ensures
            h.children@ =~= Seq::<Visual>::empty(),
    {
        HostNode { children: Vec::new() }
    }
}

} // verus!
