//! Shape annotation over a captured screen image: integer geometry, the
//! per-frame drawing state machine and the multi-display compositor.
pub mod figure;
pub mod geometry;
pub mod screenshot;
pub mod shapes;

pub use figure::{create_figure, FrameInput, Pending};
pub use geometry::{check_valid_dimension_figure, squared_distance_between_two_points, Area, Point, Vector};
pub use screenshot::{take_screenshot_all_displays, DisplayImage, Picture};
pub use shapes::{
    Anchor, ArrowShape, CircleShape, FontFamily, FontId, LineSegment, ProperDraw, RectShape, Rgb, Shape,
    Stroke, WriteShape,
};
