use vstd::prelude::*;
use crate::geometry::{
    check_valid_dimension_figure, dist_sq, figure_fits, strictly_inside, Area, Point, Vector,
};
use crate::shapes::{
    Anchor, ArrowShape, CircleShape, FontFamily, FontId, LineSegment, ProperDraw, RectShape, Shape,
    WriteShape,
};

verus! {

/// What the last shape of the list is to the gesture under way.
#[derive(Clone, Copy, Debug, PartialEq, Eq, Structural)]
pub enum Pending {
    /// No shape in progress: the next figure is appended.
    Idle,
    /// The last shape is in progress: the next figure replaces it, and a
    /// freehand line continues from its end.
    Active,
    /// A freehand line was confirmed: nothing more is added to it until the
    /// next click.
    Closed,
}

/// What the pointer and keyboard did during one frame.
#[derive(Clone, Copy, Debug, PartialEq, Eq, Structural)]
pub struct FrameInput {
    /// The primary button was clicked.
    pub clicked: bool,
    /// The primary button is held.
    pub down: bool,
    /// Where the current press began.
    pub press_origin: Option<Point>,
    /// Where the pointer is, when over the window.
    pub hover: Option<Point>,
    /// The confirmation key was pressed.
    pub enter_pressed: bool,
}

pub open spec fn circle_of(start: Point, mouse: Point, prop: ProperDraw) -> CircleShape {
    CircleShape { center: start, rim: mouse, fill: prop.fill_spec(), stroke: prop.stroke_spec() }
}

pub open spec fn rect_of(start: Point, mouse: Point, prop: ProperDraw) -> RectShape {
    RectShape { min: start, max: mouse, fill: prop.fill_spec(), stroke: prop.stroke_spec() }
}

pub open spec fn arrow_of(start: Point, mouse: Point, prop: ProperDraw) -> ArrowShape {
    ArrowShape {
        origin: start,
        vec: Vector { x: (mouse.x - start.x) as i64, y: (mouse.y - start.y) as i64 },
        stroke: prop.stroke_spec(),
    }
}

pub open spec fn label_of(start: Point, text: String, font: FontFamily, prop: ProperDraw) -> WriteShape {
    WriteShape {
        origin: start,
        anchor: Anchor::LeftTop,
        text,
        font_id: FontId { size: prop.width, family: font },
        text_color: prop.color,
    }
}

/// Shows a figure that is being dragged: with nothing in progress it is
/// appended and becomes the one in progress; otherwise it takes the place of
/// the last shape.
pub open spec fn place(shapes: Seq<Shape>, p: Pending, s: Shape) -> (Seq<Shape>, Pending) {
    if p is Idle {
        (shapes.push(s), Pending::Active)
    } else if shapes.len() == 0 {
        (shapes.push(s), p)
    } else {
        (shapes.update(shapes.len() - 1, s), p)
    }
}

/// The confirmation key ends the figure in progress.
pub open spec fn settle(step: (Seq<Shape>, Pending), enter: bool) -> (Seq<Shape>, Pending) {
    if enter { (step.0, Pending::Idle) } else { step }
}

/// Where the next freehand segment starts: at the end of the line in
/// progress, else at the press origin.
pub open spec fn freehand_from(shapes: Seq<Shape>, p: Pending, start: Point) -> Point {
    if p is Active && shapes.len() > 0 && shapes.last() is FreeHand {
        shapes.last()->FreeHand_0.points@[1]
    } else {
        start
    }
}

/// A freehand frame adds one segment to the line unless the line was
/// confirmed, now or before.
pub open spec fn freehand_step(
    shapes: Seq<Shape>,
    p: Pending,
    start: Point,
    mouse: Point,
    prop: ProperDraw,
    enter: bool,
) -> (Seq<Shape>, Pending) {
    let q = if enter { Pending::Closed } else if p is Idle { Pending::Active } else { p };
    if q is Active {
        let seg = LineSegment {
            points: [freehand_from(shapes, p, start), mouse],
            stroke: prop.stroke_spec(),
        };
        (shapes.push(Shape::FreeHand(seg)), q)
    } else {
        (shapes, q)
    }
}

/// A figure spanned by `start` and `mouse` (a rectangle by its corners, an
/// arrow by its ends) stays within the area with half its stroke width
/// around both points, hence around the whole figure.
pub open spec fn ends_fit(start: Point, mouse: Point, w: int, a: Area) -> bool {
    figure_fits(start, 0, w, a) && figure_fits(mouse, 0, w, a)
}

/// The effect of a drag from `start` to `mouse`, both inside the area, with
/// the chosen tool.
pub open spec fn drag_step(
    shapes: Seq<Shape>,
    p: Pending,
    start: Point,
    mouse: Point,
    enter: bool,
    prop: ProperDraw,
    text: String,
    font: FontFamily,
    area: Area,
) -> (Seq<Shape>, Pending) {
    match prop.draw {
        Some(0) => if figure_fits(start, dist_sq(start, mouse), prop.width as int, area) {
            settle(place(shapes, p, Shape::Circle(circle_of(start, mouse, prop))), enter)
        } else {
            (shapes, p)
        },
        Some(1) => if ends_fit(start, mouse, prop.width as int, area) {
            settle(place(shapes, p, Shape::Rect(rect_of(start, mouse, prop))), enter)
        } else {
            (shapes, p)
        },
        Some(2) => if ends_fit(start, mouse, prop.width as int, area) {
            settle(place(shapes, p, Shape::Arrow(arrow_of(start, mouse, prop))), enter)
        } else {
            (shapes, p)
        },
        Some(3) => settle(place(shapes, p, Shape::Text(label_of(start, text, font, prop))), enter),
        Some(4) => freehand_step(shapes, p, start, mouse, prop, enter),
        _ => (shapes, p),
    }
}

/// The shapes and pending state after one frame: a click starts a new
/// gesture; while the button is held with the press origin and the pointer
/// inside the area, the tool draws.
pub open spec fn frame_step(
    shapes: Seq<Shape>,
    p: Pending,
    input: FrameInput,
    prop: ProperDraw,
    text: String,
    font: FontFamily,
    area: Area,
) -> (Seq<Shape>, Pending) {
    let p0 = if input.clicked { Pending::Idle } else { p };
    if input.down && input.press_origin is Some && input.hover is Some && strictly_inside(
        area,
        input.press_origin->Some_0,
    ) && strictly_inside(area, input.hover->Some_0) {
        drag_step(
            shapes,
            p0,
            input.press_origin->Some_0,
            input.hover->Some_0,
            input.enter_pressed,
            prop,
            text,
            font,
            area,
        )
    } else {
        (shapes, p0)
    }
}

/// One frame adds at most one shape and changes none but the last one; after
/// a click, or with nothing in progress, every earlier shape stays as it was.
pub proof fn lemma_frame_keeps_committed(
    shapes: Seq<Shape>,
    p: Pending,
    input: FrameInput,
    prop: ProperDraw,
    text: String,
    font: FontFamily,
    area: Area,
)
    ensures
        ({
            let next = frame_step(shapes, p, input, prop, text, font, area).0;
            &&& shapes.len() <= next.len() <= shapes.len() + 1
            &&& forall|i: int| 0 <= i < shapes.len() - 1 ==> next[i] == shapes[i]
            &&& (input.clicked || p is Idle) ==> forall|i: int|
                0 <= i < shapes.len() ==> next[i] == shapes[i]
        }),
{
}

fn place_figure(vec_shape: &mut Vec<Shape>, pending: &mut Pending, s: Shape, enter: bool)
    ensures
        (final(vec_shape)@, *final(pending)) == settle(
            place(old(vec_shape)@, *old(pending), s),
            enter,
        ),
{
    if *pending == Pending::Idle {
        vec_shape.push(s);
        *pending = Pending::Active;
    } else if vec_shape.len() == 0 {
        vec_shape.push(s);
    } else {
        let i = vec_shape.len();
        vec_shape.set(i - 1, s);
    }
    if enter {
        *pending = Pending::Idle;
    }
}

/// Applies one frame of pointer and keyboard input to the list of shapes and
/// to the pending state.
pub fn create_figure(
    vec_shape: &mut Vec<Shape>,
    input: &FrameInput,
    property: ProperDraw,
    text: String,
    draw_dim_variable: &mut Pending,
    font: FontFamily,
    area: Area,
)
    ensures
        (final(vec_shape)@, *final(draw_dim_variable)) == frame_step(
            old(vec_shape)@,
            *old(draw_dim_variable),
            *input,
            property,
            text,
            font,
            area,
        ),
{
    if input.clicked {
        *draw_dim_variable = Pending::Idle;
    }
    if !input.down {
        return;
    }
    let pos_start = match input.press_origin {
        Some(p) => p,
        None => return ,
    };
    let pos_mouse = match input.hover {
        Some(p) => p,
        None => return ,
    };
    if !(area.contains(pos_start) && area.contains(pos_mouse)) {
        return;
    }
    let enter = input.enter_pressed;
    match property.draw {
        Some(0) => {
            if check_valid_dimension_figure(pos_start, pos_mouse, area, property.width, 0) {
                let circle = CircleShape {
                    center: pos_start,
                    rim: pos_mouse,
                    fill: property.fill(),
                    stroke: property.stroke(),
                };
                place_figure(vec_shape, draw_dim_variable, Shape::Circle(circle), enter);
            }
        },
        Some(1) => {
            if check_valid_dimension_figure(pos_start, pos_mouse, area, property.width, 1)
                && check_valid_dimension_figure(pos_mouse, pos_start, area, property.width, 1) {
                let rectangle = RectShape {
                    min: pos_start,
                    max: pos_mouse,
                    fill: property.fill(),
                    stroke: property.stroke(),
                };
                place_figure(vec_shape, draw_dim_variable, Shape::Rect(rectangle), enter);
            }
        },
        Some(2) => {
            if check_valid_dimension_figure(pos_start, pos_mouse, area, property.width, 2)
                && check_valid_dimension_figure(pos_mouse, pos_start, area, property.width, 2) {
                let arrow = ArrowShape::new(
                    pos_start,
                    Vector {
                        x: pos_mouse.x as i64 - pos_start.x as i64,
                        y: pos_mouse.y as i64 - pos_start.y as i64,
                    },
                    property.stroke(),
                );
                place_figure(vec_shape, draw_dim_variable, Shape::Arrow(arrow), enter);
            }
        },
        Some(3) => {
            let label = WriteShape::new(
                pos_start,
                Anchor::LeftTop,
                text,
                FontId { size: property.width, family: font },
                property.color,
            );
            place_figure(vec_shape, draw_dim_variable, Shape::Text(label), enter);
        },
        Some(4) => {
            let mut from = pos_start;
            if *draw_dim_variable == Pending::Active {
                let i = vec_shape.len();
                if i > 0 {
                    if let Shape::FreeHand(seg) = &vec_shape[i - 1] {
                        from = seg.points[1];
                    }
                }
            } else if *draw_dim_variable == Pending::Idle {
                *draw_dim_variable = Pending::Active;
            }
            if enter {
                *draw_dim_variable = Pending::Closed;
            }
            if *draw_dim_variable == Pending::Active {
                let line = LineSegment::new([from, pos_mouse], property.stroke());
                vec_shape.push(Shape::FreeHand(line));
            }
        },
        _ => {},
    }
}

} // verus!
