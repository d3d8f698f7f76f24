//! The stroke-capture state machine: it owns the committed point sequence,
//! classifies incoming pointer events, and produces the stroke notification
//! (if any) that each event emits toward the path-planning consumer.

use vstd::prelude::*;

use crate::geometry::FINISH_STROKE_TOLERANCE;
use crate::geometry::Point;
use crate::geometry::is_roughly_within;
use crate::geometry::roughly_within;

verus! {

/// Which stage of a stroke an emitted notification describes.
#[derive(Clone, Copy, PartialEq, Eq, Structural, Debug)]
pub enum StrokeState {
    /// A speculative extension for the pointer's current hover position;
    /// nothing was committed.
    Preview,
    /// A point was just committed; the stroke is still open.
    Intermediate,
    /// A closing gesture was detected; the stroke is complete and capture
    /// resets to empty.
    Finished,
}

/// A stroke notification: a snapshot of an ordered point sequence together
/// with the stage it is in. Snapshots are independent of later mutation of
/// the canvas.
#[derive(Clone, Debug)]
pub struct Stroke(pub Vec<Point>, pub StrokeState);

/// Command that replaces the committed point sequence wholesale, used by an
/// external editing flow to seed or overwrite an in-progress stroke.
#[derive(Clone, Debug)]
pub struct SetPoints(pub Vec<Point>);

/// The closed set of pointer event kinds the canvas can receive. Kinds that
/// carry no meaning for stroke capture are ignored by an explicit no-op arm.
#[derive(Clone, Copy, Debug)]
pub enum PointerEvent {
    /// The pointer began hovering at a position.
    HoverStarted { at: Point },
    /// The pointer kept hovering, now at a position.
    HoverOngoing { at: Point },
    /// The pointer stopped hovering.
    HoverStopped,
    /// A drag gesture was activated at a position.
    DragStarted { at: Point },
    /// A drag gesture continued from one position to another.
    DragOngoing { from: Point, to: Point },
    /// A drag gesture ended, having moved from one position to another.
    DragFinished { from: Point, to: Point },
}

/// The one-shot request issued at startup: register the canvas as a
/// scene-wide receiver of pointer events at a fixed z-order priority.
#[derive(Clone, Copy, PartialEq, Eq, Structural, Debug)]
pub struct Registration {
    /// The canvas listens everywhere in the scene, not over some sub-shape.
    pub covers_whole_scene: bool,
    /// Fixed z-order value; lower values are checked later.
    pub priority: u8,
}

/// A drag at `at` closes the stroke exactly when a last committed point
/// exists and `at` lies within the finish tolerance of it.
pub open spec fn closes_stroke(points: Seq<Point>, at: Point) -> bool {
    points.len() > 0 && is_roughly_within(at, points.last(), FINISH_STROKE_TOLERANCE as int)
}

/// The committed points after a drag at `at`: cleared when the drag closes
/// the stroke, extended by `at` otherwise.
pub open spec fn drag_result_points(points: Seq<Point>, at: Point) -> Seq<Point> {
    if closes_stroke(points, at) {
        Seq::empty()
    } else {
        points.push(at)
    }
}

/// The notification a drag at `at` emits, as a (points, state) pair:
/// `Finished` with the pre-clear snapshot when the drag closes the stroke,
/// `Intermediate` with the extended sequence when at least two points are
/// committed afterwards, and nothing for the lone first point.
pub open spec fn drag_emission(points: Seq<Point>, at: Point) -> Option<
    (Seq<Point>, StrokeState),
> {
    if closes_stroke(points, at) {
        Some((points, StrokeState::Finished))
    } else if points.len() + 1 >= 2 {
        Some((points.push(at), StrokeState::Intermediate))
    } else {
        None
    }
}

/// The committed points after a wholesale replacement: the new sequence,
/// whatever was there before.
pub open spec fn replaced_points(points: Seq<Point>, new_points: Seq<Point>) -> Seq<Point> {
    new_points
}

/// The committed points after any single pointer event: only a drag
/// activation mutates them.
pub open spec fn next_points(points: Seq<Point>, event: PointerEvent) -> Seq<Point> {
    match event {
        PointerEvent::DragStarted { at } => drag_result_points(points, at),
        _ => points,
    }
}

/// The notification any single pointer event emits: hovers preview the
/// committed points extended by the hover position, drag activations follow
/// `drag_emission`, every other kind emits nothing.
pub open spec fn emission(points: Seq<Point>, event: PointerEvent) -> Option<
    (Seq<Point>, StrokeState),
> {
    match event {
        PointerEvent::HoverStarted { at } => Some((points.push(at), StrokeState::Preview)),
        PointerEvent::HoverOngoing { at } => Some((points.push(at), StrokeState::Preview)),
        PointerEvent::DragStarted { at } => drag_emission(points, at),
        _ => None,
    }
}

/// The mathematical content of a stroke notification.
pub open spec fn stroke_model(s: Stroke) -> (Seq<Point>, StrokeState) {
    (s.0@, s.1)
}

/// The mathematical content of an optional stroke notification.
pub open spec fn emission_model(out: Option<Stroke>) -> Option<(Seq<Point>, StrokeState)> {
    match out {
        Some(s) => Some(stroke_model(s)),
        None => None,
    }
}

/// Duplicate a point sequence. Notifications must carry snapshots that are
/// independent of later mutation of the canvas.
fn copied_points(v: &Vec<Point>) -> (r: Vec<Point>)
    ensures
        r@ == v@,
{
    let mut r: Vec<Point> = Vec::new();
    let mut i: usize = 0;
    while i < v.len()
        invariant
            i <= v.len(),
            r@ == v@.take(i as int),
        decreases v.len() - i,
    {
        proof {
            assert(v@.take(i as int + 1) =~= v@.take(i as int).push(v@[i as int]));
        }
        r.push(v[i]);
        i = i + 1;
    }
    proof {
        assert(r@ =~= v@);
    }
    r
}

/// The stroke-capture state holder: an ordered sequence of committed points,
/// empty while no stroke is in progress. It is viewed as that sequence.
#[derive(Clone, Debug)]
pub struct StrokeCanvas {
    points: Vec<Point>,
}

impl View for StrokeCanvas {
    type V = Seq<Point>;

    closed spec fn view(&self) -> Seq<Point> {
        self.points@
    }
}

impl Default for StrokeCanvas {
    /// A fresh canvas holds no committed points.
    fn default() -> (canvas: Self)
        ensures
            canvas@ == Seq::<Point>::empty(),
    {
        StrokeCanvas::new()
    }
}

impl StrokeCanvas {
    /// A fresh canvas holds no committed points.
    pub fn new() -> (canvas: Self)
        ensures
            canvas@ == Seq::<Point>::empty(),
    {
        StrokeCanvas { points: Vec::new() }
    }

    /// A snapshot of the committed points, in drawing order.
    pub fn committed_points(&self) -> (r: Vec<Point>)
        ensures
            r@ == self@,
    {
        copied_points(&self.points)
    }

    /// Hovering never commits anything: it emits a preview of the committed
    /// points extended by the hover position, and leaves the canvas alone.
    pub fn on_hover(&self, at: Point) -> (out: Stroke)
        ensures
            stroke_model(out) == (self@.push(at), StrokeState::Preview),
    {
        let mut preview_points = copied_points(&self.points);
        preview_points.push(at);
        Stroke(preview_points, StrokeState::Preview)
    }

    /// A drag activation either closes the stroke — emitting `Finished` with
    /// the pre-clear snapshot and resetting the canvas — or commits the new
    /// position, emitting `Intermediate` once the stroke holds a drawable
    /// segment of at least two points. Exactly one of the two happens.
    pub fn on_drag_activate(&mut self, at: Point) -> (out: Option<Stroke>)
        ensures
            final(self)@ == drag_result_points(old(self)@, at),
            emission_model(out) == drag_emission(old(self)@, at),
    {
        if self.points.len() > 0 {
            let last_point = self.points[self.points.len() - 1];
            if roughly_within(at, last_point, FINISH_STROKE_TOLERANCE) {
                let snapshot = copied_points(&self.points);
                self.points.clear();
                return Some(Stroke(snapshot, StrokeState::Finished));
            }
        }
        self.points.push(at);
        if self.points.len() > 1 {
            let snapshot = copied_points(&self.points);
            Some(Stroke(snapshot, StrokeState::Intermediate))
        } else {
            None
        }
    }

    /// Classify one pointer event: hovers emit previews without mutating,
    /// drag activations follow `on_drag_activate`, and every unrecognized
    /// kind is a deliberate no-op that neither mutates nor emits.
    pub fn receive(&mut self, event: &PointerEvent) -> (out: Option<Stroke>)
        ensures
            final(self)@ == next_points(old(self)@, *event),
            emission_model(out) == emission(old(self)@, *event),
    {
        match *event {
            PointerEvent::HoverStarted { at } => Some(self.on_hover(at)),
            PointerEvent::HoverOngoing { at } => Some(self.on_hover(at)),
            PointerEvent::DragStarted { at } => self.on_drag_activate(at),
            _ => None,
        }
    }

    /// Unconditionally replace the committed points with the carried
    /// sequence, taking ownership of it. Nothing is emitted.
    pub fn set_points(&mut self, msg: SetPoints)
        ensures
            final(self)@ == replaced_points(old(self)@, msg.0@),
    {
        let SetPoints(new_points) = msg;
        self.points = new_points;
    }

    /// The one-time startup decision: the canvas asks to receive pointer
    /// events everywhere in the scene, at z-order priority 1.
    pub fn on_register(&self) -> (r: Registration)
        ensures
            r == (Registration { covers_whole_scene: true, priority: 1 }),
    {
        Registration { covers_whole_scene: true, priority: 1 }
    }
}

/// One-time startup: a fresh, empty canvas together with the scene-wide
/// registration request it wants issued on its behalf.
pub fn setup() -> (r: (StrokeCanvas, Registration))
    ensures
        r.0@ == Seq::<Point>::empty(),
        r.1 == (Registration { covers_whole_scene: true, priority: 1 }),
{
    let canvas = StrokeCanvas::new();
    let registration = canvas.on_register();
    (canvas, registration)
}

} // verus!
