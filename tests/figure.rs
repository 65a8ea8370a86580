use screen_annotate::{
    create_figure, Anchor, Area, ArrowShape, CircleShape, FontFamily, FontId, FrameInput,
    LineSegment, Pending, Point, ProperDraw, RectShape, Rgb, Shape, Stroke, Vector, WriteShape,
};

const AREA: Area = Area { x1: 0, y1: 0, x2: 200, y2: 200 };

fn red() -> Rgb {
    Rgb::new(255, 0, 0)
}

fn blue() -> Rgb {
    Rgb::new(0, 0, 255)
}

fn tool(code: Option<i32>, filled: bool) -> ProperDraw {
    ProperDraw::new(code, red(), filled, blue(), 2)
}

fn drag(start: (i32, i32), mouse: (i32, i32)) -> FrameInput {
    FrameInput {
        clicked: false,
        down: true,
        press_origin: Some(Point::new(start.0, start.1)),
        hover: Some(Point::new(mouse.0, mouse.1)),
        enter_pressed: false,
    }
}

fn stroke() -> Stroke {
    Stroke { width: 2, color: red() }
}

fn frame(shapes: &mut Vec<Shape>, pending: &mut Pending, input: FrameInput, prop: ProperDraw) {
    create_figure(shapes, &input, prop, String::from("note"), pending, FontFamily::Monospace, AREA);
}

#[test]
fn circle_drag_grows_one_circle() {
    let mut shapes = Vec::new();
    let mut pending = Pending::Idle;
    frame(&mut shapes, &mut pending, drag((100, 100), (110, 100)), tool(Some(0), false));
    assert_eq!(pending, Pending::Active);
    frame(&mut shapes, &mut pending, drag((100, 100), (120, 100)), tool(Some(0), false));
    assert_eq!(shapes.len(), 1);
    let expected = CircleShape {
        center: Point::new(100, 100),
        rim: Point::new(120, 100),
        fill: None,
        stroke: stroke(),
    };
    assert_eq!(shapes[0], Shape::Circle(expected));
    assert_eq!(pending, Pending::Active);
}

#[test]
fn enter_confirms_circle() {
    let mut shapes = Vec::new();
    let mut pending = Pending::Idle;
    let mut input = drag((100, 100), (110, 100));
    input.enter_pressed = true;
    frame(&mut shapes, &mut pending, input, tool(Some(0), false));
    assert_eq!(pending, Pending::Idle);
    frame(&mut shapes, &mut pending, drag((100, 100), (105, 100)), tool(Some(0), false));
    assert_eq!(shapes.len(), 2);
}

#[test]
fn circle_past_the_edge_is_not_drawn() {
    let mut shapes = Vec::new();
    let mut pending = Pending::Idle;
    frame(&mut shapes, &mut pending, drag((20, 100), (40, 100)), tool(Some(0), false));
    assert!(shapes.is_empty());
    assert_eq!(pending, Pending::Idle);
}

#[test]
fn filled_rectangle() {
    let mut shapes = Vec::new();
    let mut pending = Pending::Idle;
    frame(&mut shapes, &mut pending, drag((10, 20), (150, 190)), tool(Some(1), true));
    let expected = RectShape {
        min: Point::new(10, 20),
        max: Point::new(150, 190),
        fill: Some(blue()),
        stroke: stroke(),
    };
    assert_eq!(shapes, vec![Shape::Rect(expected)]);
}

#[test]
fn arrow_points_to_the_mouse() {
    let mut shapes = Vec::new();
    let mut pending = Pending::Idle;
    frame(&mut shapes, &mut pending, drag((10, 20), (5, 60)), tool(Some(2), false));
    let expected = ArrowShape::new(Point::new(10, 20), Vector { x: -5, y: 40 }, stroke());
    assert_eq!(shapes, vec![Shape::Arrow(expected)]);
}

#[test]
fn text_label_follows_the_drag_until_enter() {
    let mut shapes = Vec::new();
    let mut pending = Pending::Idle;
    frame(&mut shapes, &mut pending, drag((10, 20), (50, 60)), tool(Some(3), false));
    frame(&mut shapes, &mut pending, drag((12, 24), (50, 60)), tool(Some(3), false));
    let label = WriteShape::new(
        Point::new(12, 24),
        Anchor::LeftTop,
        String::from("note"),
        FontId { size: 2, family: FontFamily::Monospace },
        red(),
    );
    assert_eq!(shapes, vec![Shape::Text(label)]);
    assert_eq!(pending, Pending::Active);
    let mut done = drag((12, 24), (50, 60));
    done.enter_pressed = true;
    frame(&mut shapes, &mut pending, done, tool(Some(3), false));
    assert_eq!(shapes.len(), 1);
    assert_eq!(pending, Pending::Idle);
}

#[test]
fn rectangle_past_the_edge_is_not_drawn() {
    let mut shapes = Vec::new();
    let mut pending = Pending::Idle;
    let wide = ProperDraw::new(Some(1), red(), false, blue(), 4);
    frame(&mut shapes, &mut pending, drag((10, 10), (199, 199)), wide);
    frame(&mut shapes, &mut pending, drag((190, 190), (1, 50)), wide);
    assert!(shapes.is_empty());
    frame(&mut shapes, &mut pending, drag((10, 10), (198, 198)), wide);
    assert_eq!(shapes.len(), 1);
    assert_eq!(pending, Pending::Active);
}

#[test]
fn arrow_past_the_edge_is_not_drawn() {
    let mut shapes = Vec::new();
    let mut pending = Pending::Idle;
    let wide = ProperDraw::new(Some(2), red(), false, blue(), 4);
    frame(&mut shapes, &mut pending, drag((100, 100), (199, 100)), wide);
    assert!(shapes.is_empty());
    frame(&mut shapes, &mut pending, drag((100, 100), (199, 100)), tool(Some(2), false));
    assert_eq!(shapes.len(), 1);
}

#[test]
fn freehand_chains_segments_until_enter() {
    let mut shapes = Vec::new();
    let mut pending = Pending::Idle;
    let pen = tool(Some(4), false);
    frame(&mut shapes, &mut pending, drag((10, 10), (20, 20)), pen);
    frame(&mut shapes, &mut pending, drag((10, 10), (30, 25)), pen);
    assert_eq!(
        shapes,
        vec![
            Shape::FreeHand(LineSegment::new([Point::new(10, 10), Point::new(20, 20)], stroke())),
            Shape::FreeHand(LineSegment::new([Point::new(20, 20), Point::new(30, 25)], stroke())),
        ]
    );
    let mut done = drag((10, 10), (40, 40));
    done.enter_pressed = true;
    frame(&mut shapes, &mut pending, done, pen);
    assert_eq!(pending, Pending::Closed);
    frame(&mut shapes, &mut pending, drag((10, 10), (50, 50)), pen);
    assert_eq!(shapes.len(), 2);
    let mut click = drag((60, 60), (70, 70));
    click.clicked = true;
    frame(&mut shapes, &mut pending, click, pen);
    assert_eq!(shapes.len(), 3);
    assert_eq!(
        shapes[2],
        Shape::FreeHand(LineSegment::new([Point::new(60, 60), Point::new(70, 70)], stroke()))
    );
}

#[test]
fn pointer_outside_the_area_draws_nothing() {
    let mut shapes = Vec::new();
    let mut pending = Pending::Active;
    frame(&mut shapes, &mut pending, drag((10, 10), (250, 20)), tool(Some(2), false));
    frame(&mut shapes, &mut pending, drag((0, 10), (20, 20)), tool(Some(2), false));
    assert!(shapes.is_empty());
    assert_eq!(pending, Pending::Active);
}

#[test]
fn released_button_only_resets_on_click() {
    let mut shapes = Vec::new();
    let mut pending = Pending::Active;
    let mut input = drag((10, 10), (20, 20));
    input.down = false;
    input.clicked = true;
    frame(&mut shapes, &mut pending, input, tool(Some(2), false));
    assert!(shapes.is_empty());
    assert_eq!(pending, Pending::Idle);
}

#[test]
fn missing_hover_or_tool_draws_nothing() {
    let mut shapes = Vec::new();
    let mut pending = Pending::Idle;
    let mut input = drag((10, 10), (20, 20));
    input.hover = None;
    frame(&mut shapes, &mut pending, input, tool(Some(2), false));
    frame(&mut shapes, &mut pending, drag((10, 10), (20, 20)), tool(None, false));
    frame(&mut shapes, &mut pending, drag((10, 10), (20, 20)), tool(Some(7), false));
    assert!(shapes.is_empty());
    assert_eq!(pending, Pending::Idle);
}

#[test]
fn frames_only_touch_the_last_shape() {
    let mut shapes = Vec::new();
    let mut pending = Pending::Idle;
    let mut label = drag((10, 20), (50, 60));
    label.enter_pressed = true;
    frame(&mut shapes, &mut pending, label, tool(Some(3), false));
    let committed = shapes.clone();
    frame(&mut shapes, &mut pending, drag((100, 100), (110, 100)), tool(Some(1), false));
    frame(&mut shapes, &mut pending, drag((100, 100), (130, 120)), tool(Some(1), false));
    assert_eq!(shapes.len(), 2);
    assert_eq!(shapes[0], committed[0]);
    let mut click = drag((40, 40), (60, 60));
    click.clicked = true;
    let before = shapes.clone();
    frame(&mut shapes, &mut pending, click, tool(Some(2), false));
    assert_eq!(shapes.len(), 3);
    assert_eq!(shapes[..2], before[..]);
}
