use vstd::prelude::*;
use crate::geometry::{SvgPoint, SvgRect, SvgSize};
use crate::scene::Svg;
use crate::state::{cached_size, RenderingState};
use crate::visual::{Colour, TextStyle, Visual};

verus! {

/// The capability shared by primitives and composites alike: materialize
/// exactly one new visual reflecting the current field values, and report a
/// size. `render` is the default composition of the two into a single-visual
/// scene with no listeners.
pub trait Renderable: Sized {
    /// When the value is fit to render (its numeric fields denote a
    /// representable, non-negative extent).
    spec fn wf(&self) -> bool;

    /// Whether `v` is exactly the visual this value materializes.
    spec fn is_element(&self, v: Visual) -> bool;

    /// The size this value reports under cache contents `cache`; nothing when
    /// sizing would need a host measurement that is not cached yet.
    spec fn spec_size(&self, cache: Map<Seq<char>, i64>) -> Option<SvgSize>;

    /// Builds one new visual reflecting the current field values. An absent
    /// optional style field leaves the corresponding attribute unset, never
    /// set to a sentinel.
    fn element(&self) -> (v: Visual)
        requires
            self.wf(),
        ensures
            self.is_element(v),
    ;

    /// Reports the size; nothing when a needed text width is not cached yet.
    fn size(&self, state: &RenderingState) -> (s: Option<SvgSize>)
        requires
            self.wf(),
            state.wf(),
        ensures
            s == self.spec_size(state.cache_map()),
            s matches Some(sz) ==> sz.wf(),
    ;

    /// Renders into a scene holding exactly this value's visual, sized as
    /// this value reports, with no listeners.
    fn render(&self, state: &RenderingState) -> (r: Option<Svg>)
        requires
            self.wf(),
            state.wf(),
        ensures
            r is Some <==> self.spec_size(state.cache_map()) is Some,
            r matches Some(scene) ==> {
                &&& scene.elements@.len() == 1
                &&& self.is_element(scene.elements@[0])
                &&& Some(scene.size) == self.spec_size(state.cache_map())
                &&& scene.listeners().len() == 0
                &&& scene.wf()
            },
    {
        match self.size(state) {
            Some(size) => Some(Svg::single(self.element(), size)),
            None => None,
        }
    }
}

/// An axis-aligned rectangle primitive with optional fill and stroke.
#[derive(Clone, Copy, Debug)]
pub struct Rect {
    pub rect: SvgRect,
    pub fill: Option<Colour>,
    pub stroke: Option<Colour>,
}

impl Rect {
    pub fn new(rect: SvgRect) -> (r: Self)
        requires
            rect.size.wf(),
        ensures
            r.rect == rect,
            r.fill is None,
            r.stroke is None,
            r.wf(),
    {
        Rect { rect, fill: None, stroke: None }
    }

    pub fn fill(self, fill: Colour) -> (r: Self)
        ensures
            r == (Rect { fill: Some(fill), ..self }),
    {
        Rect { fill: Some(fill), ..self }
    }

    pub fn stroke(self, stroke: Colour) -> (r: Self)
        ensures
            r == (Rect { stroke: Some(stroke), ..self }),
    {
        Rect { stroke: Some(stroke), ..self }
    }
}

impl Renderable for Rect {
    open spec fn wf(&self) -> bool {
        self.rect.size.wf()
    }

    open spec fn is_element(&self, v: Visual) -> bool {
        v == (Visual::Rect {
            x: self.rect.origin.x,
            y: self.rect.origin.y,
            width: self.rect.size.width,
            height: self.rect.size.height,
            fill: self.fill,
            stroke: self.stroke,
        })
    }

    open spec fn spec_size(&self, cache: Map<Seq<char>, i64>) -> Option<SvgSize> {
        Some(self.rect.size)
    }

    fn element(&self) -> (v: Visual) {
        Visual::Rect {
            x: self.rect.origin.x,
            y: self.rect.origin.y,
            width: self.rect.size.width,
            height: self.rect.size.height,
            fill: self.fill,
            stroke: self.stroke,
        }
    }

    fn size(&self, state: &RenderingState) -> (s: Option<SvgSize>) {
        Some(self.rect.size)
    }
}

/// A circle primitive with optional fill and stroke. Its extent is the
/// bounding square of side `2 * radius`.
#[derive(Clone, Copy, Debug)]
pub struct Circle {
    pub origin: SvgPoint,
    pub radius: i64,
    pub fill: Option<Colour>,
    pub stroke: Option<Colour>,
}

impl Circle {
    pub fn new(origin: SvgPoint, radius: i64) -> (c: Self)
        requires
            0 <= radius <= i64::MAX / 2,
        ensures
            c.origin == origin,
            c.radius == radius,
            c.fill is None,
            c.stroke is None,
            c.wf(),
    {
        Circle { origin, radius, fill: None, stroke: None }
    }

    pub fn fill(self, fill: Colour) -> (c: Self)
        ensures
            c == (Circle { fill: Some(fill), ..self }),
    {
        Circle { fill: Some(fill), ..self }
    }

    pub fn stroke(self, stroke: Colour) -> (c: Self)
        ensures
            c == (Circle { stroke: Some(stroke), ..self }),
    {
        Circle { stroke: Some(stroke), ..self }
    }
}

impl Renderable for Circle {
    open spec fn wf(&self) -> bool {
        0 <= self.radius <= i64::MAX / 2
    }

    open spec fn is_element(&self, v: Visual) -> bool {
        v == (Visual::Circle {
            cx: self.origin.x,
            cy: self.origin.y,
            radius: self.radius,
            fill: self.fill,
            stroke: self.stroke,
        })
    }

    open spec fn spec_size(&self, cache: Map<Seq<char>, i64>) -> Option<SvgSize> {
        Some(SvgSize { width: (2 * self.radius) as i64, height: (2 * self.radius) as i64 })
    }

    fn element(&self) -> (v: Visual) {
        Visual::Circle {
            cx: self.origin.x,
            cy: self.origin.y,
            radius: self.radius,
            fill: self.fill,
            stroke: self.stroke,
        }
    }

    fn size(&self, state: &RenderingState) -> (s: Option<SvgSize>) {
        Some(SvgSize { width: self.radius * 2, height: self.radius * 2 })
    }
}

/// A run of styled text. Its width comes from the measurement cache; its
/// height is the fixed text height.
#[derive(Clone, Copy, Debug)]
pub struct Text<'a> {
    pub origin: SvgPoint,
    pub content: &'a str,
    pub style: TextStyle,
    pub colour: Colour,
}

impl<'a> Text<'a> {
    /// A text anchored at the origin, coloured with the fixed default.
    pub fn new(content: &'a str, style: TextStyle) -> (t: Self)
        ensures
            t.origin == (SvgPoint { x: 0i64, y: 0i64 }),
            t.content@ == content@,
            t.style == style,
            t.colour@ == "#000"@,
    {
        Text { origin: SvgPoint::zero(), colour: "#000", content, style }
    }

    pub fn origin(self, origin: SvgPoint) -> (t: Self)
        ensures
            t == (Text { origin, ..self }),
    {
        Text { origin, ..self }
    }

    pub fn colour(self, colour: Colour) -> (t: Self)
        ensures
            t == (Text { colour, ..self }),
    {
        Text { colour, ..self }
    }
}

impl<'a> Renderable for Text<'a> {
    open spec fn wf(&self) -> bool {
        true
    }

    open spec fn is_element(&self, v: Visual) -> bool {
        v matches Visual::Text { x, y, content, style, colour }
            && x == self.origin.x
            && y == self.origin.y
            && content@ == self.content@
            && style == self.style
            && colour@ == self.colour@
    }

    open spec fn spec_size(&self, cache: Map<Seq<char>, i64>) -> Option<SvgSize> {
        cached_size(cache, self.content@)
    }

    fn element(&self) -> (v: Visual) {
        Visual::Text {
            x: self.origin.x,
            y: self.origin.y,
            content: self.content.to_owned(),
            style: self.style,
            colour: self.colour,
        }
    }

    fn size(&self, state: &RenderingState) -> (s: Option<SvgSize>) {
        state.measure_text(self.content)
    }
}

impl TextStyle {
    /// The CSS font each text style materializes with.
    pub fn css_font(&self) -> (f: &'static str)
        ensures
            *self == TextStyle::Mono ==> f@ == "16px Input Sans"@,
            *self == TextStyle::Comment ==> f@ == "italic 16px Helvetica Neue"@,
    {
        match self {
            TextStyle::Mono => "16px Input Sans",
            TextStyle::Comment => "italic 16px Helvetica Neue",
        }
    }
}

} // verus!
