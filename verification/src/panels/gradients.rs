//! The library of ramps, flown up out of the strip on the bar that lays one, and the trace that
//! makes a new one.
//!
//! Tracing is a mode over the canvas: a drag is collected, in the canvas's own space so that
//! panning in the middle of it cannot corrupt it, and the release hands it on. A drag too short
//! to mean anything ends the mode without a capture, so that a stray click is its own undo.
use crate::model::Point;
use crate::text;
use vstd::prelude::*;

verus! {

/// The two places are at least `step` apart.
pub open spec fn apart(a: Point, b: Point, step: int) -> bool {
    (a.x - b.x) * (a.x - b.x) + (a.y - b.y) * (a.y - b.y) >= step * step
}

fn far_enough(a: Point, b: Point, step: u32) -> (far: bool)
    ensures
        far == apart(a, b, step as int),
{
    let dx: i128 = a.x as i128 - b.x as i128;
    let dy: i128 = a.y as i128 - b.y as i128;
    let ax: i128 = if dx < 0 {
        -dx
    } else {
        dx
    };
    let ay: i128 = if dy < 0 {
        -dy
    } else {
        dy
    };
    let reach: i128 = step as i128;
    proof {
        assert(dx * dx == ax * ax) by (nonlinear_arith)
            requires
                ax == dx || ax == -dx,
        ;
        assert(dy * dy == ay * ay) by (nonlinear_arith)
            requires
                ay == dy || ay == -dy,
        ;
    }
    if ax >= reach {
        proof {
            assert(ax * ax >= reach * reach && ay * ay >= 0) by (nonlinear_arith)
                requires
                    ax >= reach >= 0,
            ;
        }
        return true;
    }
    if ay >= reach {
        proof {
            assert(ay * ay >= reach * reach && ax * ax >= 0) by (nonlinear_arith)
                requires
                    ay >= reach >= 0,
            ;
        }
        return true;
    }
    proof {
        assert(ax * ax <= reach * reach && ay * ay <= reach * reach && 0 <= ax * ax && 0 <= ay * ay
            && reach * reach <= 0x1_0000_0000 * 0x1_0000_0000) by (nonlinear_arith)
            requires
                0 <= ax <= reach,
                0 <= ay <= reach,
                reach <= 0x1_0000_0000,
        ;
    }
    ax * ax + ay * ay >= reach * reach
}

/// Each point is at least `step` from the one before it.
pub open spec fn spaced(points: Seq<Point>, step: int) -> bool {
    forall|i: int| 1 <= i < points.len() ==> apart(points[i - 1], #[trigger] points[i], step)
}

/// A trace keeps no jitter: it starts spaced, and what following the pointer keeps leaves it so.
pub proof fn law_a_trace_keeps_no_jitter(points: Seq<Point>, p: Point, step: int)
    requires
        spaced(points, step),
    ensures
        spaced(seq![p], step),
        points.len() == 0 || apart(points.last(), p, step) ==> spaced(points.push(p), step),
{
    if points.len() == 0 || apart(points.last(), p, step) {
        let next = points.push(p);
        assert forall|i: int| 1 <= i < next.len() implies apart(
            next[i - 1],
            #[trigger] next[i],
            step,
        ) by {
            if i < points.len() {
                assert(apart(points[i - 1], points[i], step));
            }
        }
    }
}

/// The trace in flight, if the pointer is down.
#[derive(Clone, PartialEq, Eq, Debug)]
pub struct Tracer {
    pub points: Option<Vec<Point>>,
}

impl Tracer {
    /// The points so far.
    pub open spec fn trail(self) -> Option<Seq<Point>> {
        match self.points {
            Some(points) => Some(points@),
            None => None,
        }
    }

    /// Armed, and not yet pressed.
    pub fn idle() -> (tracer: Tracer)
        ensures
            tracer.trail() is None,
    {
        Tracer { points: None }
    }

    /// A press at `p`. Navigation takes it and drops a half-drawn trace; otherwise a trace
    /// starts here.
    pub fn press(&mut self, navigating: bool, primary: bool, p: Point)
        ensures
            final(self).trail() == if navigating {
                None
            } else if primary {
                Some(seq![p])
            } else {
                old(self).trail()
            },
    {
        if navigating {
            self.points = None;
        } else if primary {
            let mut points: Vec<Point> = Vec::new();
            points.push(p);
            assert(points@ =~= seq![p]);
            self.points = Some(points);
        }
    }

    /// The pointer moved to `p`, which is kept if it is at least `step` from the last point:
    /// the jitter of the hand is not.
    pub fn follow(&mut self, navigating: bool, p: Point, step: u32)
        ensures
            final(self).trail() == match old(self).trail() {
                Some(points) if !navigating && (points.len() == 0 || apart(
                    points.last(),
                    p,
                    step as int,
                )) => Some(points.push(p)),
                trail => trail,
            },
    {
        if navigating {
            return;
        }
        if let Some(mut points) = self.points.take() {
            let n: usize = points.len();
            if n == 0 || far_enough(points[n - 1], p, step) {
                points.push(p);
            }
            self.points = Some(points);
        }
    }

    /// The pointer was let go at `p`: what was traced, ending there, or nothing where there was
    /// no trace or the release was navigation's own.
    pub fn release(&mut self, navigations: bool, p: Point) -> (traced: Option<Vec<Point>>)
        ensures
            navigations ==> traced is None && final(self).trail() == old(self).trail(),
            !navigations ==> final(self).trail() is None,
            !navigations ==> match old(self).trail() {
                Some(points) => traced matches Some(all) && all@ == points.push(p),
                None => traced is None,
            },
    {
        if navigations {
            return None;
        }
        match self.points.take() {
            None => None,
            Some(mut points) => {
                points.push(p);
                Some(points)
            },
        }
    }

    /// The browser took the pointer: the trace is dropped.
    pub fn cancel(&mut self, navigations: bool)
        ensures
            final(self).trail() == if navigations {
                old(self).trail()
            } else {
                None
            },
    {
        if !navigations {
            self.points = None;
        }
    }
}

/// What a release comes to.
#[derive(Clone, PartialEq, Eq, Debug)]
pub enum Traced {
    /// There was no trace.
    Nothing,
    /// Too short to mean anything: the mode ends without a capture.
    Disarm,
    /// Capture the line, and only then end the mode: ending it stands the bar that was set
    /// aside back up with its preview, which a capture would sample as if it were paint.
    CaptureThenDisarm(Vec<Point>),
}

/// What a release comes to: once there is a trace it always ends the mode, and captures it
/// where it is long enough.
pub fn conclude(traced: Option<Vec<Point>>, long_enough: bool) -> (end: Traced)
    ensures
        end == match traced {
            None => Traced::Nothing,
            Some(points) => if long_enough {
                Traced::CaptureThenDisarm(points)
            } else {
                Traced::Disarm
            },
        },
{
    match traced {
        None => Traced::Nothing,
        Some(points) => if long_enough {
            Traced::CaptureThenDisarm(points)
        } else {
            Traced::Disarm
        },
    }
}

/// The trace button was pressed: whether the trace is armed now, and whether the library is still
/// open. Arming brings it down, since the trace wants the canvas that it floats over.
pub fn toggle_trace(armed: bool, open: bool) -> (next: (bool, bool))
    ensures
        next.0 == !armed,
        next.1 == (armed && open),
{
    (!armed, armed && open)
}

pub fn trace_title(armed: bool) -> (title: &'static str)
    ensures
        title@ == if armed {
            "Stop tracing"@
        } else {
            "Trace a line through the painting to make a gradient of the colors it crosses"@
        },
{
    if armed {
        "Stop tracing"
    } else {
        "Trace a line through the painting to make a gradient of the colors it crosses"
    }
}

pub fn trace_class(armed: bool) -> (class: &'static str)
    ensures
        class@ == if armed {
            "chip gradient-trace active"@
        } else {
            "chip gradient-trace"@
        },
{
    if armed {
        "chip gradient-trace active"
    } else {
        "chip gradient-trace"
    }
}

/// The word on the trace button.
pub fn trace_word(busy: bool, armed: bool) -> (word: &'static str)
    ensures
        word@ == if busy {
            "Sampling\u{2026}"@
        } else if armed {
            "Cancel"@
        } else {
            "Trace"@
        },
{
    if busy {
        "Sampling\u{2026}"
    } else if armed {
        "Cancel"
    } else {
        "Trace"
    }
}

/// The strip on a bar: a placeholder while there is no ramp to show.
pub fn strip_class(shown: bool) -> (class: &'static str)
    ensures
        class@ == if shown {
            "bar-gradient-strip"@
        } else {
            "bar-gradient-strip empty"@
        },
{
    if shown {
        "bar-gradient-strip"
    } else {
        "bar-gradient-strip empty"
    }
}

/// A row of the library, lit where it is the one that the next fill would use.
pub fn row_class(name: &str, current: Option<&str>) -> (class: &'static str)
    ensures
        class@ == if current matches Some(c) && c@ == name@ {
            "gradient-row active"@
        } else {
            "gradient-row"@
        },
{
    let lit: bool = match current {
        Some(c) => text::same(c, name),
        None => false,
    };
    if lit {
        "gradient-row active"
    } else {
        "gradient-row"
    }
}

/// Two places are a step apart where the straight way between them is at least a step long,
/// whichever of them is named first.
pub proof fn law_places_are_apart_by_the_straight_way(a: Point, b: Point, way: int, step: int)
    requires
        0 <= way,
        0 <= step,
        way * way == (a.x - b.x) * (a.x - b.x) + (a.y - b.y) * (a.y - b.y),
    ensures
        apart(a, b, step) <==> way >= step,
        apart(b, a, step) == apart(a, b, step),
{
    assert(way * way >= step * step <==> way >= step) by (nonlinear_arith)
        requires
            0 <= way,
            0 <= step,
    ;
    assert((b.x - a.x) * (b.x - a.x) == (a.x - b.x) * (a.x - b.x)) by (nonlinear_arith);
    assert((b.y - a.y) * (b.y - a.y) == (a.y - b.y) * (a.y - b.y)) by (nonlinear_arith);
}

/// A place no further than a step either way is not apart from one that is nearer on both axes,
/// and one a step along either axis is, however the other lies.
pub proof fn law_a_step_along_either_axis_is_a_step(a: Point, b: Point, c: Point, step: int)
    requires
        0 <= step,
    ensures
        a.x - b.x >= step || b.x - a.x >= step || a.y - b.y >= step || b.y - a.y >= step ==> apart(
            a,
            b,
            step,
        ),
        a.x - b.x == 0 && -step < a.y - b.y < step ==> !apart(a, b, step),
        a.y - b.y == 0 && -step < a.x - b.x < step ==> !apart(a, b, step),
        c.x - b.x == a.y - b.y && c.y - b.y == a.x - b.x ==> apart(a, b, step) == apart(c, b, step),
{
    let dx = a.x - b.x;
    let dy = a.y - b.y;
    assert(dx * dx >= 0 && dy * dy >= 0) by (nonlinear_arith);
    if dx >= step || -dx >= step {
        assert(dx * dx >= step * step) by (nonlinear_arith)
            requires
                0 <= step,
                dx >= step || -dx >= step,
        ;
    }
    if dy >= step || -dy >= step {
        assert(dy * dy >= step * step) by (nonlinear_arith)
            requires
                0 <= step,
                dy >= step || -dy >= step,
        ;
    }
    if -step < dy < step {
        assert(dy * dy < step * step) by (nonlinear_arith)
            requires
                -step < dy < step,
        ;
    }
    if -step < dx < step {
        assert(dx * dx < step * step) by (nonlinear_arith)
            requires
                -step < dx < step,
        ;
    }
    assert(dx == 0 ==> dx * dx == 0) by (nonlinear_arith);
    assert(dy == 0 ==> dy * dy == 0) by (nonlinear_arith);
}

/// A trace that is spaced has every two points that follow each other a step apart.
pub proof fn law_a_spaced_trace_has_no_two_near_points(points: Seq<Point>, step: int, i: int)
    requires
        spaced(points, step),
        0 <= i,
        i + 1 < points.len(),
    ensures
        apart(points[i], points[i + 1], step),
{
    assert(apart(points[i + 1 - 1], points[i + 1], step));
}

/// What a tracer holds is the points it was given, in their order.
pub proof fn law_a_trail_is_the_points_in_order(tracer: Tracer)
    ensures
        tracer.points is None <==> tracer.trail() is None,
        tracer.points matches Some(points) ==> tracer.trail() == Some(points@),
{
}

} // verus!
