use vstd::prelude::*;
use vstd::math::max;
use crate::geometry::{SvgPoint, SvgSize};
use crate::visual::{HostNode, Visual};

verus! {

/// A placement whose index lies beyond the current visual count is rejected
/// explicitly rather than corrupting the z-order.
#[derive(Clone, Copy, PartialEq, Eq, Structural, Debug)]
pub enum PlaceError {
    InvalidPlacement,
}

/// The width of a parent's bounds after a child of size `child` is placed at
/// `offset`: the component-wise maximum of the old bounds and the child's
/// far edge.
pub open spec fn placed_width(parent: SvgSize, child: SvgSize, offset: SvgPoint) -> int {
    max(parent.width as int, child.width + offset.x)
}

/// The height counterpart of [`placed_width`].
pub open spec fn placed_height(parent: SvgSize, child: SvgSize, offset: SvgPoint) -> int {
    max(parent.height as int, child.height + offset.y)
}

/// A composite scene: an ordered sequence of visuals (z-order = sequence
/// order, later = drawn on top), the aggregate bounding size of everything
/// placed so far, and the handles of the event listeners attached to its
/// visuals.
#[derive(Debug)]
pub struct Svg {
    pub elements: Vec<Visual>,
    pub size: SvgSize,
    pub event_listeners: Vec<u64>,
}

/// What mounting a scene leaves in a host node: exactly the scene's visuals,
/// whatever the host held before.
pub open spec fn mounted(host: HostNode, scene: Svg) -> HostNode {
    HostNode { children: scene.elements }
}

impl Svg {
    /// The handles of the listeners registered on this scene's visuals so
    /// far, in registration order.
    pub open spec fn listeners(&self) -> Seq<u64> {
        self.event_listeners@
    }

    /// A scene's aggregate size never goes negative.
    pub open spec fn wf(&self) -> bool {
        self.size.wf()
    }

    /// A scene with no visuals, zero size, and no listeners.
    pub fn empty() -> (s: Self)
        ensures
            s.elements@.len() == 0,
            s.size == (SvgSize { width: 0i64, height: 0i64 }),
            s.listeners().len() == 0,
            s.wf(),
    {
        Svg { elements: Vec::new(), size: SvgSize::zero(), event_listeners: Vec::new() }
    }

    /// A scene holding exactly one freshly materialized visual and no
    /// listeners: what rendering a single primitive produces.
    pub fn single(visual: Visual, size: SvgSize) -> (s: Self)
        requires
            size.wf(),
        ensures
            s.elements@.len() == 1,
            s.elements@[0] == visual,
            s.size == size,
            s.listeners().len() == 0,
            s.wf(),
    {
        let mut elements: Vec<Visual> = Vec::new();
        elements.push(visual);
        Svg { elements, size, event_listeners: Vec::new() }
    }

    /// Wraps the current visuals into one new container visual, preserving
    /// their relative order. The scene's visual list is drained into the
    /// container; size and listeners stay behind untouched.
    pub fn group(&mut self) -> (g: Visual)
        ensures
            (g matches Visual::Group { transform, children }
                && transform is None
                && children@ == old(self).elements@),
            final(self).elements@.len() == 0,
            final(self).size == old(self).size,
            final(self).listeners() == old(self).listeners(),
    {
        let mut children: Vec<Visual> = Vec::new();
        core::mem::swap(&mut self.elements, &mut children);
        Visual::Group { transform: None, children }
    }

    /// Groups the current visuals and gives the group a translation of
    /// exactly `point` — also when `point` is the origin; the translation is
    /// never elided. The result holds exactly one visual (the translated
    /// group); size and listeners carry over unchanged.
    pub fn translate(self, point: SvgPoint) -> (r: Self)
        ensures
            r.elements@.len() == 1,
            (r.elements@[0] matches Visual::Group { transform, children }
                && transform == Some(point)
                && children@ == self.elements@),
            r.size == self.size,
            r.listeners() == self.listeners(),
    {
        let mut this = self;
        let g = this.group();
        let g = match g {
            Visual::Group { children, .. } => Visual::Group { transform: Some(point), children },
            _ => vstd::pervasive::unreached(),
        };
        let mut elements: Vec<Visual> = Vec::new();
        elements.push(g);
        Svg { elements, size: this.size, event_listeners: this.event_listeners }
    }

    /// Registers `listener` — the identity of a callback held by the
    /// embedding program, which performs the host-side registration — on
    /// every current top-level visual (not recursively on descendants), and
    /// keeps the returned handles, one per visual, after the handles already
    /// held. Visuals and size are untouched.
    pub fn event(self, listener: u64) -> (r: Self)
        ensures
            r.elements@ == self.elements@,
            r.size == self.size,
            r.listeners() == self.listeners() + Seq::new(self.elements@.len(), |i: int| listener),
            r.listeners().len() == self.listeners().len() + self.elements@.len(),
    {
        let mut this = self;
        let ghost pre = this;
        let n = this.elements.len();
        let mut i: usize = 0;
        while i < n
            invariant
                i <= n,
                n == pre.elements@.len(),
                this.elements@ == pre.elements@,
                this.size == pre.size,
                this.event_listeners@ == pre.event_listeners@ + Seq::new(i as nat, |j: int| listener),
            decreases n - i,
        {
            this.event_listeners.push(listener);
            proof {
                assert(pre.event_listeners@ + Seq::new((i + 1) as nat, |j: int| listener)
                    =~= (pre.event_listeners@ + Seq::new(i as nat, |j: int| listener)).push(
                    listener,
                ));
            }
            i = i + 1;
        }
        this
    }

    /// The core layout primitive: translates `child` by `offset`, splices the
    /// resulting single group visual into the z-order at index `z` (visuals
    /// previously at `z` or above shift up by one), appends the child's
    /// listener handles, and grows the bounds to the component-wise maximum
    /// of the old bounds and the child's far edge. An index beyond the
    /// current visual count is rejected and the scene is left untouched.
    pub fn place_at(&mut self, z: usize, offset: SvgPoint, child: Svg) -> (r: Result<
        (),
        PlaceError,
    >)
        requires
            old(self).wf(),
            child.wf(),
            child.size.width + offset.x <= i64::MAX,
            child.size.height + offset.y <= i64::MAX,
        ensures
            r is Ok <==> z as int <= old(self).elements@.len(),
            r matches Err(e) ==> e == PlaceError::InvalidPlacement && *final(self) == *old(self),
            r is Ok ==> final(self).elements@.len() == old(self).elements@.len() + 1,
            r is Ok ==> (final(self).elements@[z as int] matches Visual::Group {
                transform,
                children,
            } && transform == Some(offset) && children@ == child.elements@),
            r is Ok ==> final(self).elements@ == old(self).elements@.insert(
                z as int,
                final(self).elements@[z as int],
            ),
            r is Ok ==> forall|j: int|
                0 <= j < z as int ==> final(self).elements@[j] == old(self).elements@[j],
            r is Ok ==> forall|j: int|
                z as int <= j < old(self).elements@.len() ==> final(self).elements@[j + 1] == old(
                    self,
                ).elements@[j],
            r is Ok ==> final(self).listeners() == old(self).listeners() + child.listeners(),
            r is Ok ==> final(self).size.width as int == placed_width(
                old(self).size,
                child.size,
                offset,
            ),
            r is Ok ==> final(self).size.height as int == placed_height(
                old(self).size,
                child.size,
                offset,
            ),
            final(self).size.width >= old(self).size.width,
            final(self).size.height >= old(self).size.height,
            final(self).wf(),
    {
        if z > self.elements.len() {
            return Err(PlaceError::InvalidPlacement);
        }
        let mut translated = child.translate(offset);
        let g = match translated.elements.pop() {
            Some(g) => g,
            None => vstd::pervasive::unreached(),
        };
        proof {
            self.elements@.insert_ensures(z as int, g);
        }
        self.elements.insert(z, g);
        self.event_listeners.append(&mut translated.event_listeners);
        let far_x = translated.size.width + offset.x;
        if far_x > self.size.width {
            self.size.width = far_x;
        }
        let far_y = translated.size.height + offset.y;
        if far_y > self.size.height {
            self.size.height = far_y;
        }
        Ok(())
    }

    /// Places `child` on top: at the highest z-index, after every visual
    /// already present.
    pub fn place(&mut self, offset: SvgPoint, child: Svg)
        requires
            old(self).wf(),
            child.wf(),
            child.size.width + offset.x <= i64::MAX,
            child.size.height + offset.y <= i64::MAX,
        ensures
            final(self).elements@.len() == old(self).elements@.len() + 1,
            (final(self).elements@.last() matches Visual::Group { transform, children }
                && transform == Some(offset) && children@ == child.elements@),
            forall|j: int|
                0 <= j < old(self).elements@.len() ==> final(self).elements@[j] == old(
                    self,
                ).elements@[j],
            final(self).listeners() == old(self).listeners() + child.listeners(),
            final(self).size.width as int == placed_width(old(self).size, child.size, offset),
            final(self).size.height as int == placed_height(old(self).size, child.size, offset),
            final(self).size.width >= old(self).size.width,
            final(self).size.height >= old(self).size.height,
            final(self).wf(),
    {
        let z = self.elements.len();
        match self.place_at(z, offset, child) {
            Ok(()) => (),
            Err(_) => vstd::pervasive::unreached(),
        }
    }

    /// Replaces all of `parent`'s children with this scene's visuals, in
    /// visual order — a full replace, never an append. The scene is consumed:
    /// its visuals now belong to the host.
    pub fn mount(self, parent: &mut HostNode)
        ensures
            *final(parent) == mounted(*old(parent), self),
            final(parent).children@ == self.elements@,
    {
        parent.children = self.elements;
    }

    /// How many listener handles this scene currently holds.
    pub fn listener_count(&self) -> (n: usize)
        ensures
            n == self.listeners().len(),
    {
        self.event_listeners.len()
    }
}

/// Bounds monotonicity: one placement never shrinks the parent's bounds, and
/// the new bounds reach at least to the placed child's far edge. Since every
/// `place`/`place_at` call ensures its new size equals `placed_width`/
/// `placed_height`, iterating this gives: over any sequence of placements the
/// size is non-decreasing, and it stays at least `child.size + offset` for
/// every child ever placed.
pub proof fn lemma_bounds_monotonic(parent: SvgSize, child: SvgSize, offset: SvgPoint)
    ensures
        placed_width(parent, child, offset) >= parent.width,
        placed_width(parent, child, offset) >= child.width + offset.x,
        placed_height(parent, child, offset) >= parent.height,
        placed_height(parent, child, offset) >= child.height + offset.y,
{
}

/// Z-order: splicing a visual into a sequence at index `z` puts it exactly at
/// index `z`, keeps every visual below `z` where it was, and shifts every
/// visual previously at `z` or above up by one index.
pub proof fn lemma_z_order(before: Seq<Visual>, g: Visual, z: int)
    requires
        0 <= z <= before.len(),
    ensures
        before.insert(z, g).len() == before.len() + 1,
        before.insert(z, g)[z] == g,
        forall|j: int| 0 <= j < z ==> before.insert(z, g)[j] == before[j],
        forall|j: int| z <= j < before.len() ==> before.insert(z, g)[j + 1] == before[j],
{
    before.insert_ensures(z, g);
}

/// Listener accumulation: placing a child appends exactly the child's
/// listener handles after the parent's, so the combined count is the sum of
/// the two counts and every handle of either scene survives at a known
/// position.
pub proof fn lemma_listener_accumulation(parent: Seq<u64>, child: Seq<u64>)
    ensures
        (parent + child).len() == parent.len() + child.len(),
        forall|i: int| 0 <= i < parent.len() ==> (parent + child)[i] == parent[i],
        forall|i: int| 0 <= i < child.len() ==> (parent + child)[parent.len() + i] == child[i],
{
}

/// Mount replace: mounting scene `x` into a host and then mounting scene `y`
/// into the same host leaves the host exactly as mounting `y` alone would —
/// the host holds exactly `y`'s visuals and nothing of `x` survives.
pub proof fn lemma_mount_replace(h: HostNode, x: Svg, y: Svg)
    ensures
        mounted(mounted(h, x), y) == mounted(h, y),
        mounted(mounted(h, x), y).children == y.elements,
{
}

} // verus!
