//! The diagram as the coordinator sees it: opaque geometry framed by a
//! viewport, an optional transient clip, and the set of visible attributes.

use vstd::prelude::*;

verus! {

/// Unit of the diagram's logical coordinates.
pub type CoordinateT = i32;

/// The rectangle a diagram is framed within.
#[derive(Debug, Clone, Copy, PartialEq, Eq, Structural)]
pub struct Viewport {
    pub x: CoordinateT,
    pub y: CoordinateT,
    pub width: CoordinateT,
    pub height: CoordinateT,
}

impl Viewport {
    /// The rectangle of the given origin and extent.
    pub fn new(
        x: CoordinateT,
        y: CoordinateT,
        width: CoordinateT,
        height: CoordinateT,
    ) -> (viewport: Viewport)
        ensures
            viewport == (Viewport { x, y, width, height }),
    {
        Viewport { x, y, width, height }
    }

    /// Frames the given rectangle and hands back the one it replaces.
    pub fn swap(
        &mut self,
        x: CoordinateT,
        y: CoordinateT,
        width: CoordinateT,
        height: CoordinateT,
    ) -> (previous: Viewport)
        ensures
            previous == *old(self),
            *final(self) == (Viewport { x, y, width, height }),
    {
        let previous = *self;
        self.x = x;
        self.y = y;
        self.width = width;
        self.height = height;
        previous
    }

    /// Frames the rectangle of `from` again.
    pub fn restore_from(&mut self, from: &Viewport)
        ensures
            *final(self) == *from,
    {
        self.x = from.x;
        self.y = from.y;
        self.width = from.width;
        self.height = from.height;
    }
}

/// A sub-region to restrict one export to: the outline to clip by and the
/// rectangle that bounds it.
#[derive(Debug)]
pub struct ClipPathInput {
    pub clip_path: String,
    pub x: CoordinateT,
    pub y: CoordinateT,
    pub width: CoordinateT,
    pub height: CoordinateT,
}

impl ClipPathInput {
    /// The rectangle the clip narrows the viewport to.
    pub open spec fn region(self) -> Viewport {
        Viewport { x: self.x, y: self.y, width: self.width, height: self.height }
    }
}

/// A derived diagram. `geometry` is whatever the layout engine produced and
/// is never looked into here.
#[derive(Debug)]
pub struct Diagram<G> {
    pub geometry: G,
    pub viewport: Viewport,
    pub clip_path: Option<String>,
    pub visible: Vec<String>,
}

/// The names held by a list of strings.
pub open spec fn names(list: Seq<String>) -> Seq<Seq<char>> {
    Seq::new(list.len(), |i: int| list[i]@)
}

impl<G> Diagram<G> {
    /// The attributes whose layers are currently shown.
    pub open spec fn visible_set(self) -> Set<Seq<char>> {
        names(self.visible@).to_set()
    }

    /// What an export restricted to `clip` presents to the serializer: the
    /// same geometry and layers, framed by the clip's rectangle and carrying
    /// its outline.
    pub open spec fn clipped_to(self, clip: ClipPathInput) -> Diagram<G> {
        Diagram {
            geometry: self.geometry,
            viewport: clip.region(),
            clip_path: Some(clip.clip_path),
            visible: self.visible,
        }
    }

    /// What an export presents to the serializer.
    pub open spec fn framed(self, clip: Option<ClipPathInput>) -> Diagram<G> {
        match clip {
            Some(clip) => self.clipped_to(clip),
            None => self,
        }
    }

    /// The diagram is as derived from the system: `geometry` in its full
    /// `viewport`, no clip, no optional attribute shown yet.
    pub open spec fn is_fresh(self, geometry: G, viewport: Viewport) -> bool {
        &&& self.geometry == geometry
        &&& self.viewport == viewport
        &&& self.clip_path is None
        &&& self.visible@ == Seq::<String>::empty()
    }

    /// A freshly derived diagram: full viewport, no clip, no optional
    /// attribute shown yet.
    pub fn new(geometry: G, viewport: Viewport) -> (diagram: Diagram<G>)
        ensures
            diagram.is_fresh(geometry, viewport),
            diagram.visible_set() == Set::<Seq<char>>::empty(),
    {
        let diagram = Diagram { geometry, viewport, clip_path: None, visible: Vec::new() };
        assert(names(diagram.visible@) =~= Seq::<Seq<char>>::empty());
        diagram
    }

    /// Injects a freeform clip boundary, replacing any earlier one.
    pub fn add_freeform_clip_path(&mut self, clip_path: String)
        ensures
            final(self).clip_path == Some(clip_path),
            final(self).geometry == old(self).geometry,
            final(self).viewport == old(self).viewport,
            final(self).visible == old(self).visible,
    {
        self.clip_path = Some(clip_path);
    }

    /// Removes the freeform clip boundary, if there is one.
    pub fn clear_freeform_clip_path(&mut self)
        ensures
            final(self).clip_path is None,
            final(self).geometry == old(self).geometry,
            final(self).viewport == old(self).viewport,
            final(self).visible == old(self).visible,
    {
        self.clip_path = None;
    }
}

} // verus!
