use vstd::prelude::*;
use crate::geometry::{Point, Vector};

verus! {

/// An opaque colour given by its three channels.
#[derive(Clone, Copy, Debug, PartialEq, Eq, Structural)]
pub struct Rgb {
    pub red: u8,
    pub green: u8,
    pub blue: u8,
}

impl Rgb {
    pub fn new(red: u8, green: u8, blue: u8) -> (r: Self)
        ensures
            r == (Rgb { red, green, blue }),
    {
        Rgb { red, green, blue }
    }
}

/// Outline of a shape: its width in pixels and its colour.
#[derive(Clone, Copy, Debug, PartialEq, Eq, Structural)]
pub struct Stroke {
    pub width: u32,
    pub color: Rgb,
}

/// Where a text label sits relative to its origin.
#[derive(Clone, Copy, Debug, PartialEq, Eq, Structural)]
pub enum Anchor {
    LeftTop,
    CenterTop,
    RightTop,
    LeftCenter,
    CenterCenter,
    RightCenter,
    LeftBottom,
    CenterBottom,
    RightBottom,
}

/// The family of the font a label is written in.
#[derive(Clone, Debug, PartialEq, Eq)]
pub enum FontFamily {
    Proportional,
    Monospace,
    Named(String),
}

/// A font: its family and its size in points.
#[derive(Clone, Debug, PartialEq, Eq)]
pub struct FontId {
    pub size: u32,
    pub family: FontFamily,
}

/// A circle around `center` through `rim`; `fill` is `None` when the inside
/// stays transparent.
#[derive(Clone, Copy, Debug, PartialEq, Eq, Structural)]
pub struct CircleShape {
    pub center: Point,
    pub rim: Point,
    pub fill: Option<Rgb>,
    pub stroke: Stroke,
}

/// A rectangle spanned by two opposite corners.
#[derive(Clone, Copy, Debug, PartialEq, Eq, Structural)]
pub struct RectShape {
    pub min: Point,
    pub max: Point,
    pub fill: Option<Rgb>,
    pub stroke: Stroke,
}

/// An arrow from `origin` along `vec`.
#[derive(Clone, Copy, Debug, PartialEq, Eq, Structural)]
pub struct ArrowShape {
    pub origin: Point,
    pub vec: Vector,
    pub stroke: Stroke,
}

impl ArrowShape {
    pub fn new(origin: Point, vec: Vector, stroke: Stroke) -> (r: Self)
        ensures
            r == (ArrowShape { origin, vec, stroke }),
    {
        ArrowShape { origin, vec, stroke }
    }
}

/// A text label.
#[derive(Clone, Debug, PartialEq, Eq)]
pub struct WriteShape {
    pub origin: Point,
    pub anchor: Anchor,
    pub text: String,
    pub font_id: FontId,
    pub text_color: Rgb,
}

impl WriteShape {
    pub fn new(origin: Point, anchor: Anchor, text: String, font_id: FontId, text_color: Rgb) -> (r:
        Self)
        ensures
            r == (WriteShape { origin, anchor, text, font_id, text_color }),
    {
        WriteShape { origin, anchor, text, font_id, text_color }
    }
}

/// One straight piece of a freehand line.
#[derive(Clone, Copy, Debug, PartialEq, Eq)]
pub struct LineSegment {
    pub points: [Point; 2],
    pub stroke: Stroke,
}

impl LineSegment {
    pub fn new(points: [Point; 2], stroke: Stroke) -> (r: Self)
        ensures
            r == (LineSegment { points, stroke }),
    {
        LineSegment { points, stroke }
    }
}

/// A finished or in-progress annotation.
#[derive(Clone, Debug, PartialEq, Eq)]
pub enum Shape {
    Circle(CircleShape),
    Rect(RectShape),
    Arrow(ArrowShape),
    Text(WriteShape),
    FreeHand(LineSegment),
}

/// The drawing settings chosen by the user: the tool (`0` circle,
/// `1` rectangle, `2` arrow, `3` text, `4` freehand), the stroke colour, whether
/// and with what closed figures are filled, and the stroke width (for text,
/// the font size).
#[derive(Clone, Copy, Debug, PartialEq, Eq, Structural)]
pub struct ProperDraw {
    pub draw: Option<i32>,
    pub color: Rgb,
    pub filled: bool,
    pub color_fill: Rgb,
    pub width: u32,
}

impl ProperDraw {
    pub fn new(draw: Option<i32>, color: Rgb, filled: bool, color_fill: Rgb, width: u32) -> (r:
        Self)
        ensures
            r == (ProperDraw { draw, color, filled, color_fill, width }),
    {
        ProperDraw { draw, color, filled, color_fill, width }
    }

    pub open spec fn stroke_spec(self) -> Stroke {
        Stroke { width: self.width, color: self.color }
    }

    pub open spec fn fill_spec(self) -> Option<Rgb> {
        if self.filled { Some(self.color_fill) } else { None }
    }

    /// The outline that figures drawn with these settings get.
    pub fn stroke(&self) -> (r: Stroke)
        ensures
            r == self.stroke_spec(),
    {
        Stroke { width: self.width, color: self.color }
    }

    /// The fill of closed figures: none unless filling is on.
    pub fn fill(&self) -> (r: Option<Rgb>)
        ensures
            r == self.fill_spec(),
    {
        if self.filled { Some(self.color_fill) } else { None }
    }
}

} // verus!
