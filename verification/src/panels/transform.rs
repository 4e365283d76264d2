//! The transform mode: one bar, three families of deformation, each with a control surface
//! whose shape *is* the deformation.
//!
//! Everything before "Done" is a lossless preview, and "Done" is one undo step. A switch of
//! family **carries** the deformation where the new family holds it exactly, and otherwise
//! **commits** it first and reopens around the moved paint: never a silent approximation.
use crate::model;
use crate::model::{DocCommand, Family, LayerId, LayerInfo, Point, Rect, TransformMap, ViewCommand};
use crate::panels::frame;
use crate::panels::frame::TileRange;
use crate::preview::{Deformation, Finish, Paired};
use vstd::prelude::*;

verus! {

/// The gesture in hand: the layer it deforms, the rectangle its widget was mounted around, and
/// the deformation so far.
#[derive(Clone, Copy, PartialEq, Eq, Debug)]
pub struct Gesture {
    pub layer: LayerId,
    pub rect: Rect,
    pub map: TransformMap,
    /// The deformation moves nothing.
    pub identity: bool,
}

impl Gesture {
    /// The deformation, as it is shown and laid.
    pub open spec fn deformation(self) -> Deformation {
        Deformation { layer: self.layer, map: self.map }
    }

    /// The chip on the bar that is lit.
    pub fn family(&self) -> (family: Family)
        ensures
            family == self.map.family,
    {
        self.map.family
    }
}

/// Where the widget mounts: around the selection if it is bounded, else around the painted
/// content, which is what an unbounded selection holds, and on an empty canvas around the
/// view. So the widget always exists.
pub open spec fn hull(selection: Option<Rect>, painted: Option<TileRange>, tile: u16, view: Rect) -> Rect {
    match (selection, painted) {
        (Some(rect), _) => rect,
        (None, Some(tiles)) => frame::tiles_rect(tiles, tile),
        (None, None) => view,
    }
}

/// Enter the mode: the layer it deforms and the hull it mounts around, or nothing where no
/// layer can be painted on.
pub fn begin_transform(
    layers: &Vec<LayerInfo>,
    active: LayerId,
    selection: Option<Rect>,
    painted: Option<TileRange>,
    tile: u16,
    view: Rect,
) -> (begun: Option<(LayerId, Rect)>)
    ensures
        begun == match model::target_of(layers@, active) {
            Some(layer) => Some((layer, hull(selection, painted, tile, view))),
            None => None,
        },
{
    match model::paint_target(layers, active) {
        None => None,
        Some(layer) => {
            let around: Rect = match selection {
                Some(rect) => rect,
                None => match frame::content_rect(painted, tile) {
                    Some(rect) => rect,
                    None => view,
                },
            };
            Some((layer, around))
        },
    }
}

/// An axis from `a` to `b`, as far out each way as makes it `least` long, both ends doubled so
/// that halving what is missing stays exact.
pub open spec fn widened(a: int, b: int, least: int) -> (int, int) {
    if b - a < least {
        (2 * a - (least - (b - a)), 2 * b + (least - (b - a)))
    } else {
        (2 * a, 2 * b)
    }
}

fn widen(a: i64, b: i64, least: i64) -> (ends: (i64, i64))
    requires
        -0x1000_0000_0000_0000 <= a <= 0x1000_0000_0000_0000,
        -0x1000_0000_0000_0000 <= b <= 0x1000_0000_0000_0000,
        0 <= least <= 0x1000_0000_0000_0000,
    ensures
        (ends.0 as int, ends.1 as int) == widened(a as int, b as int, least as int),
{
    if b - a < least {
        let missing: i64 = least - (b - a);
        (2 * a - missing, 2 * b + missing)
    } else {
        (2 * a, 2 * b)
    }
}

/// The rectangle is far enough inside what a number holds.
pub open spec fn within_reach(rect: Rect) -> bool {
    &&& -0x1000_0000_0000_0000 <= rect.min.x <= 0x1000_0000_0000_0000
    &&& -0x1000_0000_0000_0000 <= rect.min.y <= 0x1000_0000_0000_0000
    &&& -0x1000_0000_0000_0000 <= rect.max.x <= 0x1000_0000_0000_0000
    &&& -0x1000_0000_0000_0000 <= rect.max.y <= 0x1000_0000_0000_0000
}

/// `rect`, grown evenly wherever it is thinner than `least`, in 128ths of a pixel: the source
/// rectangle must have corners that a hand can tell apart.
pub fn inflate(rect: Rect, least: i64) -> (grown: Rect)
    requires
        within_reach(rect),
        0 <= least <= 0x1000_0000_0000_0000,
    ensures
        (grown.min.x as int, grown.max.x as int) == widened(
            rect.min.x as int,
            rect.max.x as int,
            least as int,
        ),
        (grown.min.y as int, grown.max.y as int) == widened(
            rect.min.y as int,
            rect.max.y as int,
            least as int,
        ),
{
    let (x0, x1): (i64, i64) = widen(rect.min.x, rect.max.x, least);
    let (y0, y1): (i64, i64) = widen(rect.min.y, rect.max.y, least);
    Rect { min: Point { x: x0, y: y0 }, max: Point { x: x1, y: y1 } }
}

/// The source rectangle of a fresh widget of a family, in 128ths of a pixel: grown where its
/// corners are what the hand takes hold of, and as it stands for the free one, whose floor is
/// that of its radius.
pub fn mount(family: Family, around: Rect, least: i64) -> (rect: Rect)
    requires
        within_reach(around),
        0 <= least <= 0x1000_0000_0000_0000,
    ensures
        (rect.min.x as int, rect.max.x as int) == if family == Family::Free {
            (2 * around.min.x, 2 * around.max.x)
        } else {
            widened(around.min.x as int, around.max.x as int, least as int)
        },
        (rect.min.y as int, rect.max.y as int) == if family == Family::Free {
            (2 * around.min.y, 2 * around.max.y)
        } else {
            widened(around.min.y as int, around.max.y as int, least as int)
        },
{
    match family {
        Family::Free => Rect {
            min: Point { x: 2 * around.min.x, y: 2 * around.min.y },
            max: Point { x: 2 * around.max.x, y: 2 * around.max.y },
        },
        _ => inflate(around, least),
    }
}

/// What is grown is at least as long as was asked, keeps its middle, and is left alone where it
/// was long enough.
pub proof fn law_growing_keeps_the_middle(a: int, b: int, least: int)
    ensures
        ({
            let (lo, hi) = widened(a, b, least);
            &&& hi - lo == 2 * (if b - a < least {
                least
            } else {
                b - a
            })
            &&& lo + hi == 2 * (a + b)
            &&& b - a >= least ==> lo == 2 * a && hi == 2 * b
        }),
{
}

/// The bounds of four corners.
pub open spec fn bounds_of(c: Seq<Point>) -> (int, int, int, int) {
    (
        frame::lesser(frame::lesser(c[0].x as int, c[1].x as int), frame::lesser(c[2].x as int, c[3].x as int)),
        frame::lesser(frame::lesser(c[0].y as int, c[1].y as int), frame::lesser(c[2].y as int, c[3].y as int)),
        frame::greater(frame::greater(c[0].x as int, c[1].x as int), frame::greater(c[2].x as int, c[3].x as int)),
        frame::greater(frame::greater(c[0].y as int, c[1].y as int), frame::greater(c[2].y as int, c[3].y as int)),
    )
}

/// Where the paint is once its four corners are: the upright rectangle around them.
pub fn bounds(corners: &[Point; 4]) -> (rect: Rect)
    ensures
        (
            rect.min.x as int,
            rect.min.y as int,
            rect.max.x as int,
            rect.max.y as int,
        ) == bounds_of(corners@),
{
    let mut lo: Point = corners[0];
    let mut hi: Point = corners[0];
    let mut i: usize = 1;
    let ghost c = corners@;
    while i < 4
        invariant
            1 <= i <= 4,
            c == corners@,
            c.len() == 4,
            forall|j: int| 0 <= j < i ==> lo.x <= (#[trigger] c[j]).x <= hi.x,
            forall|j: int| 0 <= j < i ==> lo.y <= (#[trigger] c[j]).y <= hi.y,
            exists|j: int| 0 <= j < i && lo.x == (#[trigger] c[j]).x,
            exists|j: int| 0 <= j < i && lo.y == (#[trigger] c[j]).y,
            exists|j: int| 0 <= j < i && hi.x == (#[trigger] c[j]).x,
            exists|j: int| 0 <= j < i && hi.y == (#[trigger] c[j]).y,
        decreases 4 - i,
    {
        let p: Point = corners[i];
        assert(p == c[i as int]);
        if p.x < lo.x {
            lo.x = p.x;
        }
        if p.y < lo.y {
            lo.y = p.y;
        }
        if p.x > hi.x {
            hi.x = p.x;
        }
        if p.y > hi.y {
            hi.y = p.y;
        }
        i = i + 1;
    }
    assert(c[0].x >= lo.x && c[1].x >= lo.x && c[2].x >= lo.x && c[3].x >= lo.x);
    Rect { min: lo, max: hi }
}

/// What picking a family comes to.
#[derive(Clone, PartialEq, Eq, Debug)]
pub enum Switch {
    /// It is the family in hand.
    Stay,
    /// The deformation rides into the new family exactly: take this up, and show it.
    Carry { next: Gesture, show: ViewCommand },
    /// Nothing is composed: open the new family around the same paint.
    Fresh { around: Rect },
    /// The deformation cannot ride along: lay it down, and open the new family around where
    /// the paint now is.
    CommitThenFresh { edit: DocCommand, around: Rect },
}

/// Switch the family in hand. `upright` is whether the affine keeps its orientation, `carried`
/// is the gesture in the new family where the map that would carry it is usable, and `image` is
/// where the paint now is.
///
/// An orientation-keeping affine is exactly a perspective and exactly a mesh; a mirrored or
/// degenerate one has no image in the other families.
pub fn switch_family(
    ui: &Gesture,
    to: Family,
    upright: bool,
    carried: Option<Gesture>,
    image: Rect,
) -> (switch: Switch)
    ensures
        switch == if ui.map.family == to {
            Switch::Stay
        } else if ui.map.family == Family::Free && upright && carried is Some {
            Switch::Carry {
                next: carried->0,
                show: Deformation::shown(Some(carried->0.deformation())),
            }
        } else if ui.identity {
            Switch::Fresh { around: ui.rect }
        } else {
            Switch::CommitThenFresh { edit: ui.deformation().laid(), around: image }
        },
{
    if ui.map.family == to {
        return Switch::Stay;
    }
    if ui.map.family == Family::Free && upright {
        if let Some(next) = carried {
            return Switch::Carry {
                next,
                show: Deformation::to_show(Some(Deformation { layer: next.layer, map: next.map })),
            };
        }
    }
    if ui.identity {
        Switch::Fresh { around: ui.rect }
    } else {
        Switch::CommitThenFresh {
            edit: Deformation { layer: ui.layer, map: ui.map }.to_lay(),
            around: image,
        }
    }
}

/// Take the gesture further, and show its consequence: the two are one act, so the preview can
/// never lag the state.
pub fn update(mode: &mut Option<Gesture>, next: Gesture) -> (show: ViewCommand)
    ensures
        *final(mode) == Some(next),
        show == Deformation::shown(Some(next.deformation())),
{
    *mode = Some(next);
    Deformation::to_show(Some(Deformation { layer: next.layer, map: next.map }))
}

/// Commit the gesture and leave the mode.
pub fn finish(mode: &mut Option<Gesture>) -> (done: Finish)
    ensures
        *final(mode) is None,
        done == match *old(mode) {
            None => Finish::Nothing,
            Some(ui) => if ui.identity {
                Finish::Clear(Deformation::shown(None))
            } else {
                Finish::Commit(ui.deformation().laid())
            },
        },
{
    match *mode {
        None => Finish::Nothing,
        Some(ui) => {
            *mode = None;
            if ui.identity {
                Finish::Clear(Deformation::to_show(None))
            } else {
                Finish::Commit(Deformation { layer: ui.layer, map: ui.map }.to_lay())
            }
        },
    }
}

/// What "Done" lays is what was last shown.
pub proof fn law_done_lays_what_is_shown(ui: Gesture)
    ensures
        Deformation::read_shown(Deformation::shown(Some(ui.deformation()))) == Some(
            Deformation::read_laid(ui.deformation().laid()),
        ),
        Deformation::read_laid(ui.deformation().laid()) == Some(ui.deformation()),
{
    Deformation::pair(Some(ui.deformation()));
}

/// The two flips are the free family's alone.
pub fn may_flip(family: Family) -> (may: bool)
    ensures
        may == (family == Family::Free),
{
    family == Family::Free
}

/// A chip that is one of a row, lit while it is the one in force.
pub fn chip_class(on: bool) -> (class: &'static str)
    ensures
        class@ == if on {
            "chip active"@
        } else {
            "chip"@
        },
{
    if on {
        "chip active"
    } else {
        "chip"
    }
}

/// The word on a family's chip.
pub fn family_word(family: Family) -> (word: &'static str)
    ensures
        word@ == match family {
            Family::Free => "Free"@,
            Family::Perspective => "Perspective"@,
            Family::Warp => "Warp"@,
        },
{
    match family {
        Family::Free => "Free",
        Family::Perspective => "Perspective",
        Family::Warp => "Warp",
    }
}

// --- the control surfaces ---

/// Where on the free family's ellipse the pointer is.
#[derive(Clone, Copy, PartialEq, Eq, Structural, Debug)]
pub enum TransformRegion {
    Inside,
    Rim,
    Outside,
}

/// Where on the perspective's quad the pointer is.
#[derive(Clone, Copy, PartialEq, Eq, Structural, Debug)]
pub enum QuadRegion {
    Corner(usize),
    Edge(usize, usize),
    Inside,
    Outside,
}

/// Where on the warp's mesh the pointer is.
#[derive(Clone, Copy, PartialEq, Eq, Structural, Debug)]
pub enum MeshRegion {
    Point(usize),
    Inside,
    Outside,
}

/// What a press takes hold of, settled at the press: the family, and the part of its control
/// surface.
#[derive(Clone, Copy, PartialEq, Eq, Structural, Debug)]
pub enum Hold {
    Affine(TransformRegion),
    Quad(QuadRegion),
    Mesh(MeshRegion),
}

/// What a drag that has hold of a part does, by how far the pointer is from the press.
#[derive(Clone, Copy, PartialEq, Eq, Structural, Debug)]
pub enum Pull {
    /// The whole follows the pointer.
    Translate,
    /// It turns and scales about its centre.
    TurnScale,
    /// It stretches and shears.
    Stretch,
    /// One corner follows the pointer.
    Corner(usize),
    /// One side does, by its two corners.
    Edge(usize, usize),
    /// One point of the mesh does.
    Point(usize),
    /// The paint under the press does, by the least move of the mesh that keeps it there.
    Surface,
}

impl Hold {
    /// What the drag does.
    pub open spec fn meaning(self) -> Pull {
        match self {
            Hold::Affine(TransformRegion::Inside) => Pull::Translate,
            Hold::Affine(TransformRegion::Rim) => Pull::TurnScale,
            Hold::Affine(TransformRegion::Outside) => Pull::Stretch,
            Hold::Quad(QuadRegion::Corner(i)) => Pull::Corner(i),
            Hold::Quad(QuadRegion::Edge(a, b)) => Pull::Edge(a, b),
            Hold::Quad(_) => Pull::Translate,
            Hold::Mesh(MeshRegion::Point(i)) => Pull::Point(i),
            Hold::Mesh(MeshRegion::Inside) => Pull::Surface,
            Hold::Mesh(MeshRegion::Outside) => Pull::Translate,
        }
    }

    pub fn pull(self) -> (pull: Pull)
        ensures
            pull == self.meaning(),
    {
        match self {
            Hold::Affine(TransformRegion::Inside) => Pull::Translate,
            Hold::Affine(TransformRegion::Rim) => Pull::TurnScale,
            Hold::Affine(TransformRegion::Outside) => Pull::Stretch,
            Hold::Quad(QuadRegion::Corner(i)) => Pull::Corner(i),
            Hold::Quad(QuadRegion::Edge(a, b)) => Pull::Edge(a, b),
            Hold::Quad(_) => Pull::Translate,
            Hold::Mesh(MeshRegion::Point(i)) => Pull::Point(i),
            Hold::Mesh(MeshRegion::Inside) => Pull::Surface,
            Hold::Mesh(MeshRegion::Outside) => Pull::Translate,
        }
    }

    /// The pointer over a part: what a press there would do.
    pub open spec fn promise(self) -> Seq<char> {
        match self {
            Hold::Affine(TransformRegion::Outside) => "cursor: crosshair;"@,
            Hold::Affine(TransformRegion::Rim) => "cursor: grab;"@,
            Hold::Quad(QuadRegion::Corner(_)) => "cursor: grab;"@,
            Hold::Quad(QuadRegion::Edge(_, _)) => "cursor: grab;"@,
            Hold::Mesh(MeshRegion::Point(_)) => "cursor: grab;"@,
            Hold::Mesh(MeshRegion::Inside) => "cursor: grab;"@,
            _ => "cursor: move;"@,
        }
    }

    /// The pointer over a part.
    pub fn cursor(self) -> (style: &'static str)
        ensures
            style@ == self.promise(),
    {
        match self {
            Hold::Affine(TransformRegion::Outside) => "cursor: crosshair;",
            Hold::Affine(TransformRegion::Rim) => "cursor: grab;",
            Hold::Quad(QuadRegion::Corner(_)) => "cursor: grab;",
            Hold::Quad(QuadRegion::Edge(_, _)) => "cursor: grab;",
            Hold::Mesh(MeshRegion::Point(_)) => "cursor: grab;",
            Hold::Mesh(MeshRegion::Inside) => "cursor: grab;",
            _ => "cursor: move;",
        }
    }
}

/// Outside a quad or a mesh the whole moves, and so does a press on the inside of a quad; no
/// part of a control surface is without a meaning, and only a mesh's inside pulls the paint.
pub proof fn law_only_a_mesh_pulls_its_surface(hold: Hold)
    ensures
        hold.meaning() == Pull::Surface <==> hold == Hold::Mesh(MeshRegion::Inside),
        hold.meaning() == Pull::Translate <==> {
            ||| hold == Hold::Affine(TransformRegion::Inside)
            ||| hold == Hold::Quad(QuadRegion::Inside)
            ||| hold == Hold::Quad(QuadRegion::Outside)
            ||| hold == Hold::Mesh(MeshRegion::Outside)
        },
{
}

/// The surface that owns the pointer: navigation's own pointer wins while the canvas is being
/// panned, and an inline one would hide it.
pub fn catcher_class(panning: bool) -> (class: &'static str)
    ensures
        class@ == if panning {
            "transform-catcher pan"@
        } else {
            "transform-catcher"@
        },
{
    if panning {
        "transform-catcher pan"
    } else {
        "transform-catcher"
    }
}

/// The pointer over the surface: none of its own while panning, a fist while dragging, and
/// otherwise what the part under it earns, once it has been over one.
pub fn catcher_cursor(panning: bool, dragging: bool, hover: Option<Hold>) -> (style: &'static str)
    ensures
        style@ == if panning {
            ""@
        } else if dragging {
            "cursor: grabbing;"@
        } else {
            match hover {
                Some(hold) => hold.promise(),
                None => ""@,
            }
        },
{
    if panning {
        ""
    } else if dragging {
        "cursor: grabbing;"
    } else {
        match hover {
            Some(hold) => hold.cursor(),
            None => "",
        }
    }
}

/// The widget is on the layer that paint goes to, around the selection where it has bounds, else
/// around what is painted, and on an empty canvas around the view.
pub proof fn law_a_widget_is_mounted_around_what_it_moves(
    layers: &Vec<LayerInfo>,
    active: LayerId,
    selection: Option<Rect>,
    painted: Option<TileRange>,
    tile: u16,
    view: Rect,
    begun: Option<(LayerId, Rect)>,
    target: Option<LayerId>,
    content: Option<Rect>,
)
    requires
        call_ensures(begin_transform, (layers, active, selection, painted, tile, view), begun),
        call_ensures(model::paint_target, (layers, active), target),
        call_ensures(frame::content_rect, (painted, tile), content),
    ensures
        target is None <==> begun is None,
        begun matches Some((layer, around)) ==> {
            &&& target == Some(layer)
            &&& selection is Some ==> around == selection->0
            &&& selection is None && content is Some ==> around == content->0
            &&& selection is None && content is None ==> around == view
        },
{
}

/// The bounds of four corners hold all of them, and no side could come in without leaving one out.
pub proof fn law_bounds_hold_the_corners_and_no_more(corners: &[Point; 4], rect: Rect, i: int)
    requires
        call_ensures(bounds, (corners,), rect),
        0 <= i < 4,
    ensures
        rect.min.x <= corners@[i].x <= rect.max.x,
        rect.min.y <= corners@[i].y <= rect.max.y,
        exists|k: int| 0 <= k < 4 && (#[trigger] corners@[k]).x == rect.min.x,
        exists|k: int| 0 <= k < 4 && (#[trigger] corners@[k]).x == rect.max.x,
        exists|k: int| 0 <= k < 4 && (#[trigger] corners@[k]).y == rect.min.y,
        exists|k: int| 0 <= k < 4 && (#[trigger] corners@[k]).y == rect.max.y,
{
    let c = corners@;
    assert(c[0].x == rect.min.x || c[1].x == rect.min.x || c[2].x == rect.min.x || c[3].x
        == rect.min.x);
    assert(c[0].x == rect.max.x || c[1].x == rect.max.x || c[2].x == rect.max.x || c[3].x
        == rect.max.x);
    assert(c[0].y == rect.min.y || c[1].y == rect.min.y || c[2].y == rect.min.y || c[3].y
        == rect.min.y);
    assert(c[0].y == rect.max.y || c[1].y == rect.max.y || c[2].y == rect.max.y || c[3].y
        == rect.max.y);
}

/// A rectangle that is grown keeps its middle, both ways, and is long enough: at least as it was,
/// and at least what was asked. One that was long enough is as it was. All of it is in 128ths.
pub proof fn law_a_grown_rectangle_keeps_its_middle(rect: Rect, least: i64, grown: Rect)
    requires
        call_ensures(inflate, (rect, least), grown),
    ensures
        grown.min.x + grown.max.x == 2 * (rect.min.x + rect.max.x),
        grown.min.y + grown.max.y == 2 * (rect.min.y + rect.max.y),
        rect.max.x - rect.min.x >= least ==> grown.max.x - grown.min.x == 2 * (rect.max.x
            - rect.min.x),
        rect.max.x - rect.min.x < least ==> grown.max.x - grown.min.x == 2 * least,
        rect.max.y - rect.min.y >= least ==> grown.max.y - grown.min.y == 2 * (rect.max.y
            - rect.min.y),
        rect.max.y - rect.min.y < least ==> grown.max.y - grown.min.y == 2 * least,
{
}

/// A press keeps hold of the very corner, side or point that was under it, the rim turns and
/// scales, and outside it the free family stretches.
pub proof fn law_a_press_pulls_what_is_under_it(hold: Hold, pull: Pull)
    requires
        call_ensures(Hold::pull, (hold,), pull),
    ensures
        pull == hold.meaning(),
        hold == Hold::Affine(TransformRegion::Rim) <==> pull is TurnScale,
        hold == Hold::Affine(TransformRegion::Outside) <==> pull is Stretch,
        hold matches Hold::Quad(QuadRegion::Corner(i)) ==> pull == Pull::Corner(i),
        hold matches Hold::Quad(QuadRegion::Edge(a, b)) ==> pull == Pull::Edge(a, b),
        hold matches Hold::Mesh(MeshRegion::Point(i)) ==> pull == Pull::Point(i),
{
}

/// The pointer promises what a press would do: a cross where it stretches, a move where the whole
/// moves, and a hand where a part is taken hold of.
pub proof fn law_the_pointer_promises_what_a_press_does(hold: Hold, pull: Pull, style: &str)
    requires
        call_ensures(Hold::pull, (hold,), pull),
        call_ensures(Hold::cursor, (hold,), style),
    ensures
        style@ == hold.promise(),
        style@ == match pull {
            Pull::Stretch => "cursor: crosshair;"@,
            Pull::Translate => "cursor: move;"@,
            _ => "cursor: grab;"@,
        },
{
}

/// What is shown and laid of a gesture is its own layer under its own map.
pub proof fn law_a_gesture_deforms_its_own_layer(ui: Gesture)
    ensures
        ui.deformation().layer == ui.layer,
        ui.deformation().map == ui.map,
{
}

} // verus!
