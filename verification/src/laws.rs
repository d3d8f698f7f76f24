//! Laws of the stroke-capture state machine, stated over the spec-level
//! transition functions that the canvas contracts use and proved for all
//! inputs.

use vstd::prelude::*;

use crate::canvas::PointerEvent;
use crate::canvas::StrokeState;
use crate::canvas::closes_stroke;
use crate::canvas::drag_emission;
use crate::canvas::drag_result_points;
use crate::canvas::emission;
use crate::canvas::next_points;
use crate::canvas::replaced_points;
use crate::geometry::FINISH_STROKE_TOLERANCE;
use crate::geometry::Point;
use crate::geometry::is_roughly_within;

verus! {

/// A hover event of any kind: started, ongoing, or stopped.
pub open spec fn is_hover(event: PointerEvent) -> bool {
    match event {
        PointerEvent::HoverStarted { .. } => true,
        PointerEvent::HoverOngoing { .. } => true,
        PointerEvent::HoverStopped => true,
        _ => false,
    }
}

/// The committed points after a whole sequence of pointer events, applied
/// oldest first.
pub open spec fn run_events(points: Seq<Point>, events: Seq<PointerEvent>) -> Seq<Point>
    decreases events.len(),
{
    if events.len() == 0 {
        points
    } else {
        run_events(next_points(points, events[0]), events.skip(1))
    }
}

/// Law: no single hover event mutates the committed points, whatever the
/// hover position and whatever sequence is already committed. It also emits
/// no `Intermediate` or `Finished` notification.
pub proof fn lemma_hover_preserves_points(points: Seq<Point>, event: PointerEvent)
    requires
        is_hover(event),
    ensures
        next_points(points, event) == points,
        emission(points, event) matches Some(e) ==> e.1 == StrokeState::Preview,
{
}

/// Law: an arbitrary sequence of hover events leaves the committed points
/// exactly as they were.
pub proof fn lemma_hovers_preserve_points(points: Seq<Point>, events: Seq<PointerEvent>)
    requires
        forall|i: int| 0 <= i < events.len() ==> is_hover(#[trigger] events[i]),
    ensures
        run_events(points, events) == points,
    decreases events.len(),
{
    if events.len() > 0 {
        lemma_hover_preserves_points(points, events[0]);
        assert forall|i: int| 0 <= i < events.skip(1).len() implies is_hover(
            #[trigger] events.skip(1)[i],
        ) by {
            assert(events.skip(1)[i] == events[i + 1]);
        }
        lemma_hovers_preserve_points(points, events.skip(1));
    }
}

/// Law: a drag on an empty canvas commits the lone first point and emits
/// nothing — a single point is not yet a drawable segment.
pub proof fn lemma_first_drag_appends_silently(points: Seq<Point>, at: Point)
    requires
        points.len() == 0,
    ensures
        drag_result_points(points, at) == points.push(at),
        drag_result_points(points, at).len() == 1,
        drag_emission(points, at) is None,
{
}

/// Law: a drag within the finish tolerance of the last committed point
/// clears the canvas and emits exactly one `Finished` notification carrying
/// the pre-clear sequence.
pub proof fn lemma_close_drag_finishes(points: Seq<Point>, at: Point)
    requires
        points.len() > 0,
        is_roughly_within(at, points.last(), FINISH_STROKE_TOLERANCE as int),
    ensures
        drag_result_points(points, at) == Seq::<Point>::empty(),
        drag_emission(points, at) == Some((points, StrokeState::Finished)),
{
}

/// Law: a drag farther than the finish tolerance from the last committed
/// point grows the sequence by exactly that one position, and — the result
/// then holding at least two points — emits exactly one `Intermediate`
/// notification carrying the full updated sequence.
pub proof fn lemma_far_drag_extends(points: Seq<Point>, at: Point)
    requires
        points.len() > 0,
        !is_roughly_within(at, points.last(), FINISH_STROKE_TOLERANCE as int),
    ensures
        drag_result_points(points, at) == points.push(at),
        drag_result_points(points, at).len() == points.len() + 1,
        drag_emission(points, at) == Some((points.push(at), StrokeState::Intermediate)),
{
}

/// Law: replacing the committed points with `x` is idempotent — a second
/// replacement with the same sequence changes nothing.
pub proof fn lemma_set_points_idempotent(points: Seq<Point>, x: Seq<Point>)
    ensures
        replaced_points(replaced_points(points, x), x) == replaced_points(points, x),
{
}

/// No two consecutive committed points lie within the finish tolerance of
/// each other: the closing pair never appears, because closing clears the
/// sequence instead of appending.
pub open spec fn well_spaced(points: Seq<Point>) -> bool {
    forall|i: int| #![trigger points[i]]
        0 <= i && i + 1 < points.len() ==> !is_roughly_within(
            points[i + 1],
            points[i],
            FINISH_STROKE_TOLERANCE as int,
        )
}

/// Law: every pointer event preserves well-spacing of the committed points.
/// A closing drag clears the sequence, and an extending drag only appends a
/// position beyond tolerance of the previous last point.
pub proof fn lemma_event_preserves_well_spaced(points: Seq<Point>, event: PointerEvent)
    requires
        well_spaced(points),
    ensures
        well_spaced(next_points(points, event)),
{
    match event {
        PointerEvent::DragStarted { at } => {
            if !closes_stroke(points, at) {
                let r = points.push(at);
                assert forall|i: int| #![trigger r[i]]
                    0 <= i && i + 1 < r.len() implies !is_roughly_within(
                    r[i + 1],
                    r[i],
                    FINISH_STROKE_TOLERANCE as int,
                ) by {
                    if i + 1 < points.len() {
                        assert(r[i] == points[i]);
                        assert(r[i + 1] == points[i + 1]);
                    } else {
                        assert(r[i] == points.last());
                        assert(r[i + 1] == at);
                    }
                }
            }
        },
        _ => {},
    }
}

} // verus!
