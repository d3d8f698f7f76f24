//! Capture of a hand-drawn stroke: a state machine that turns a stream of
//! pointer hover/drag events into an ordered polyline of committed points,
//! emitting preview, intermediate and finished stroke notifications for a
//! downstream path-planning consumer.

pub mod canvas;
pub mod laws;
pub mod geometry;

pub use canvas::PointerEvent;
pub use canvas::Registration;
pub use canvas::SetPoints;
pub use canvas::Stroke;
pub use canvas::StrokeCanvas;
pub use canvas::StrokeState;
pub use canvas::setup;
pub use geometry::FINISH_STROKE_TOLERANCE;
pub use geometry::Point;
