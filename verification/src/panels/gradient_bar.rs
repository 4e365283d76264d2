//! The gradient bar: one interface for laying a ramp, wherever it lands.
//!
//! Entered to fill the selection or to repaint a matte, the mode reads a drag over the canvas
//! as the axis of the ramp. The two targets differ in one deliberate way. A **fill** reads its
//! ramp live off the library, so a pick there shows at once; a **matte** carries its ramp, for
//! composing an old gradient's axis anew must not quietly swap its colours. A pick still
//! replaces it, because a pick is a choice.
use crate::model;
use crate::model::{
    DocCommand, Drag, FillOp, FinePoint, GradientAxis, GradientAxisKind, LayerId, LayerInfo, MattePaint, Point,
    Ramp, Rect, ViewCommand,
};
use crate::preview::{Finish, MatteFinish, Paired, SelectionFill};
use vstd::prelude::*;

verus! {

/// Where the ramp lands.
#[derive(Clone, Copy, PartialEq, Eq, Structural, Debug)]
pub enum GradientTarget {
    /// On the selection, over this layer.
    Fill { layer: LayerId },
    /// On this matte, with the ramp it carries.
    Matte { layer: LayerId, gradient: Option<Ramp> },
}

/// The gesture in hand: where it lands, how its drag is read, and the drag.
#[derive(Clone, Copy, PartialEq, Eq, Debug)]
pub struct GradientUi {
    pub target: GradientTarget,
    pub kind: GradientAxisKind,
    pub drag: Option<(FinePoint, FinePoint)>,
}

/// What the matte is painted with when the mode is entered.
#[derive(Clone, Copy, PartialEq, Eq, Structural, Debug)]
pub enum Standing {
    Solid,
    Gradient { ramp: Ramp, axis: GradientAxis },
}

/// A composed ramp, ready to go: which layer, and the paint it lays there. Carried together,
/// a fill on a matte is a value that cannot be built.
#[derive(Clone, Copy, PartialEq, Eq, Debug)]
pub enum Laid {
    Fill(SelectionFill),
    Matte(MatteFinish),
}

impl Laid {
    /// The command that shows it.
    pub open spec fn shown(self) -> ViewCommand {
        match self {
            Laid::Fill(fill) => SelectionFill::shown(Some(fill)),
            Laid::Matte(paint) => MatteFinish::shown(Some(paint)),
        }
    }

    /// The edit that lays it.
    pub open spec fn edit(self) -> DocCommand {
        match self {
            Laid::Fill(fill) => fill.laid(),
            Laid::Matte(paint) => paint.laid(),
        }
    }

    /// Show it on the canvas, logging nothing.
    pub fn show(self) -> (command: ViewCommand)
        ensures
            command == self.shown(),
    {
        match self {
            Laid::Fill(fill) => SelectionFill::to_show(Some(fill)),
            Laid::Matte(paint) => MatteFinish::to_show(Some(paint)),
        }
    }

    /// Lay it down: one undo step.
    pub fn commit(self) -> (edit: DocCommand)
        ensures
            edit == self.edit(),
    {
        match self {
            Laid::Fill(fill) => fill.to_lay(),
            Laid::Matte(paint) => paint.to_lay(),
        }
    }
}

impl GradientTarget {
    /// The command that drops the preview that this target uses.
    pub open spec fn dropped(self) -> ViewCommand {
        match self {
            GradientTarget::Fill { .. } => SelectionFill::shown(None),
            GradientTarget::Matte { .. } => MatteFinish::shown(None),
        }
    }
}

/// Drop whichever preview a gesture aimed at `target` is showing.
pub fn clear_preview(target: GradientTarget) -> (command: ViewCommand)
    ensures
        command == target.dropped(),
{
    match target {
        GradientTarget::Fill { .. } => SelectionFill::to_show(None),
        GradientTarget::Matte { .. } => MatteFinish::to_show(None),
    }
}

impl GradientUi {
    /// The drag as it is read: the same two points either way.
    pub open spec fn reads(self) -> Option<Drag> {
        match self.drag {
            Some((from, to)) => Some(Drag { kind: self.kind, from, to }),
            None => None,
        }
    }

    /// The ramp being laid: the library's own for a fill, the one it carries for a matte.
    pub open spec fn ramp(self, current: Option<Ramp>) -> Option<Ramp> {
        match self.target {
            GradientTarget::Fill { .. } => current,
            GradientTarget::Matte { gradient, .. } => gradient,
        }
    }

    /// What the gesture would lay, given the ramp that the library has in hand: nothing before
    /// a drag, or without a ramp.
    pub open spec fn lays(self, current: Option<Ramp>) -> Option<Laid> {
        match (self.reads(), self.ramp(current)) {
            (Some(drag), Some(ramp)) => Some(
                match self.target {
                    GradientTarget::Fill { layer } => Laid::Fill(
                        SelectionFill { layer, op: FillOp::GradientOfSelection { ramp, drag } },
                    ),
                    GradientTarget::Matte { layer, .. } => Laid::Matte(
                        MatteFinish { layer, paint: MattePaint::Gradient { ramp, drag } },
                    ),
                },
            ),
            _ => None,
        }
    }

    /// What the canvas shows of it: what it would lay, or nothing.
    pub open spec fn picture(self, current: Option<Ramp>) -> ViewCommand {
        match self.lays(current) {
            Some(laid) => laid.shown(),
            None => self.target.dropped(),
        }
    }

    /// The axis that the drag composes.
    pub fn axis(&self) -> (drag: Option<Drag>)
        ensures
            drag == self.reads(),
    {
        match self.drag {
            Some((from, to)) => Some(Drag { kind: self.kind, from, to }),
            None => None,
        }
    }
}

/// The ramp that the bar is laying.
pub fn ramp_in_hand(ui: &GradientUi, current: Option<Ramp>) -> (ramp: Option<Ramp>)
    ensures
        ramp == ui.ramp(current),
{
    match ui.target {
        GradientTarget::Fill { .. } => current,
        GradientTarget::Matte { gradient, .. } => gradient,
    }
}

/// What the gesture would lay.
pub fn compose(ui: &GradientUi, current: Option<Ramp>) -> (laid: Option<Laid>)
    ensures
        laid == ui.lays(current),
{
    match (ui.axis(), ramp_in_hand(ui, current)) {
        (Some(drag), Some(ramp)) => Some(
            match ui.target {
                GradientTarget::Fill { layer } => Laid::Fill(
                    SelectionFill { layer, op: FillOp::GradientOfSelection { ramp, drag } },
                ),
                GradientTarget::Matte { layer, .. } => Laid::Matte(
                    MatteFinish { layer, paint: MattePaint::Gradient { ramp, drag } },
                ),
            },
        ),
        _ => None,
    }
}

/// Show what `ui` would lay, or drop the preview where it would lay nothing.
pub fn show_axis(ui: &GradientUi, current: Option<Ramp>) -> (command: ViewCommand)
    ensures
        command == ui.picture(current),
{
    match compose(ui, current) {
        Some(laid) => laid.show(),
        None => clear_preview(ui.target),
    }
}

/// Enter the mode for a fill of the selection: linear, and nothing dragged yet. An empty
/// library does not refuse, since the bar is where a first ramp comes from.
pub fn begin_fill(layers: &Vec<LayerInfo>, active: LayerId) -> (ui: Option<GradientUi>)
    ensures
        ui == match model::target_of(layers@, active) {
            Some(layer) => Some(
                GradientUi {
                    target: GradientTarget::Fill { layer },
                    kind: GradientAxisKind::Linear,
                    drag: None,
                },
            ),
            None => None,
        },
{
    match model::paint_target(layers, active) {
        None => None,
        Some(layer) => Some(
            GradientUi {
                target: GradientTarget::Fill { layer },
                kind: GradientAxisKind::Linear,
                drag: None,
            },
        ),
    }
}

/// The axis that a matte starts on: a solid one on a vertical axis down the middle of `rect`, a
/// graded one on its own. The reach of a round one is read back as a drag to the right. All of
/// it is in 128ths, so the middle of two points is their sum, and a point is twice itself.
pub open spec fn opening(paint: Standing, rect: Rect) -> (GradientAxisKind, int, int, int, int) {
    match paint {
        Standing::Solid => (
            GradientAxisKind::Linear,
            rect.min.x + rect.max.x,
            2 * rect.min.y,
            rect.min.x + rect.max.x,
            2 * rect.max.y,
        ),
        Standing::Gradient { axis: GradientAxis::Linear { from, to }, .. } => (
            GradientAxisKind::Linear,
            from.x as int,
            from.y as int,
            to.x as int,
            to.y as int,
        ),
        Standing::Gradient { axis: GradientAxis::Radial { center, radius }, .. } => (
            GradientAxisKind::Radial,
            center.x as int,
            center.y as int,
            center.x + radius,
            center.y as int,
        ),
    }
}

/// The reach of a round axis stays inside what a number holds.
pub open spec fn within_reach(paint: Standing) -> bool {
    paint matches Standing::Gradient { axis: GradientAxis::Radial { center, radius }, .. }
        ==> i128::MIN <= center.x + radius <= i128::MAX
}

/// Enter the mode for a matte's paint. One that wears a gradient reopens on its own ramp and
/// axis, so the mode edits what is there; a solid one starts on the library's ramp.
pub fn begin_matte(layer: LayerId, paint: Standing, rect: Rect, current: Option<Ramp>) -> (ui:
    GradientUi)
    requires
        within_reach(paint),
    ensures
        ui.target == (GradientTarget::Matte {
            layer,
            gradient: match paint {
                Standing::Solid => current,
                Standing::Gradient { ramp, .. } => Some(ramp),
            },
        }),
        ui.drag matches Some((from, to)) && (
            ui.kind,
            from.x as int,
            from.y as int,
            to.x as int,
            to.y as int,
        ) == opening(paint, rect),
{
    let (gradient, kind, from, to): (Option<Ramp>, GradientAxisKind, FinePoint, FinePoint) = match paint {
        Standing::Gradient { ramp, axis } => match axis {
            GradientAxis::Linear { from, to } => (Some(ramp), GradientAxisKind::Linear, from, to),
            GradientAxis::Radial { center, radius } => (
                Some(ramp),
                GradientAxisKind::Radial,
                center,
                FinePoint { x: center.x + radius, y: center.y },
            ),
        },
        Standing::Solid => {
            let x: i128 = rect.min.x as i128 + rect.max.x as i128;
            (
                current,
                GradientAxisKind::Linear,
                FinePoint { x, y: 2 * (rect.min.y as i128) },
                FinePoint { x, y: 2 * (rect.max.y as i128) },
            )
        },
    };
    GradientUi {
        target: GradientTarget::Matte { layer, gradient },
        kind,
        drag: Some((from, to)),
    }
}

/// A graded matte reopens on its own axis: a straight one on its own two ends, and a round one
/// on a drag from its centre whose length is its radius.
pub proof fn law_a_graded_matte_reopens_on_its_own_axis(ramp: Ramp, axis: GradientAxis, rect: Rect)
    ensures
        ({
            let (kind, x0, y0, x1, y1) = opening(Standing::Gradient { ramp, axis }, rect);
            match axis {
                GradientAxis::Linear { from, to } => {
                    &&& kind == GradientAxisKind::Linear
                    &&& (x0, y0) == (from.x as int, from.y as int)
                    &&& (x1, y1) == (to.x as int, to.y as int)
                },
                GradientAxis::Radial { center, radius } => {
                    &&& kind == GradientAxisKind::Radial
                    &&& (x0, y0) == (center.x as int, center.y as int)
                    &&& (x1 - x0) * (x1 - x0) + (y1 - y0) * (y1 - y0) == radius * radius
                },
            }
        }),
{
    if let GradientAxis::Radial { center, radius } = axis {
        let (kind, x0, y0, x1, y1) = opening(Standing::Gradient { ramp, axis }, rect);
        assert(x1 - x0 == radius && y1 - y0 == 0);
        assert((x1 - x0) * (x1 - x0) == radius * radius) by (nonlinear_arith)
            requires
                x1 - x0 == radius,
        ;
        assert((y1 - y0) * (y1 - y0) == 0) by (nonlinear_arith)
            requires
                y1 - y0 == 0,
        ;
    }
}

/// The rectangle that a fresh axis spans: the matte's own, or the view for a ground that has
/// none, or a square about the origin where there is nothing to look at.
pub open spec fn span_of(layers: Seq<LayerInfo>, layer: LayerId, view: Option<Rect>) -> Rect {
    match model::layer_of(layers, layer) {
        Some(LayerInfo { matte: Some(model::Matte { rect: Some(rect), .. }), .. }) => rect,
        _ => match view {
            Some(rect) => rect,
            None => Rect {
                min: Point { x: -16384i64, y: -16384i64 },
                max: Point { x: 16384, y: 16384 },
            },
        },
    }
}

pub fn default_axis_rect(layers: &Vec<LayerInfo>, layer: LayerId, view: Option<Rect>) -> (rect: Rect)
    ensures
        rect == span_of(layers@, layer, view),
{
    if let Some(l) = model::selected(layers, layer) {
        if let Some(matte) = l.matte {
            if let Some(rect) = matte.rect {
                return rect;
            }
        }
    }
    match view {
        Some(rect) => rect,
        None => Rect { min: Point { x: -16384, y: -16384 }, max: Point { x: 16384, y: 16384 } },
    }
}

/// Take the gesture further, and show its consequence: the two are one act, so the preview can
/// never lag the state.
pub fn update(mode: &mut Option<GradientUi>, ui: GradientUi, current: Option<Ramp>) -> (command:
    ViewCommand)
    ensures
        *final(mode) == Some(ui),
        command == ui.picture(current),
{
    *mode = Some(ui);
    show_axis(&ui, current)
}

/// The gesture after a pick in the library: a matte takes the ramp that was picked.
pub open spec fn picked(ui: GradientUi, current: Option<Ramp>) -> GradientUi {
    match (ui.target, current) {
        (GradientTarget::Matte { layer, .. }, Some(ramp)) => GradientUi {
            target: GradientTarget::Matte { layer, gradient: Some(ramp) },
            ..ui
        },
        _ => ui,
    }
}

/// Show the gesture in hand anew, if there is one: how a pick in the library reaches the canvas.
pub fn refresh(mode: &mut Option<GradientUi>, current: Option<Ramp>) -> (command: Option<
    ViewCommand,
>)
    ensures
        match *old(mode) {
            None => *final(mode) is None && command is None,
            Some(ui) => {
                &&& *final(mode) == Some(picked(ui, current))
                &&& command == Some(picked(ui, current).picture(current))
            },
        },
{
    match *mode {
        None => None,
        Some(ui) => {
            let mut next: GradientUi = ui;
            if let GradientTarget::Matte { layer, .. } = ui.target {
                if let Some(ramp) = current {
                    next.target = GradientTarget::Matte { layer, gradient: Some(ramp) };
                }
            }
            Some(update(mode, next, current))
        },
    }
}

/// A pick shows on the canvas at once, whichever the target: the ramp that was picked is the
/// one in hand.
pub proof fn law_a_pick_is_the_ramp_in_hand(ui: GradientUi, ramp: Ramp)
    ensures
        picked(ui, Some(ramp)).ramp(Some(ramp)) == Some(ramp),
        picked(ui, Some(ramp)).reads() == ui.reads(),
{
}

/// Set the gesture aside for a trace, and hand it to the caller to hold. Its preview goes down
/// with it: a capture samples what the canvas shows, and a fill left standing would be traced
/// as if it were paint.
pub fn suspend(mode: &mut Option<GradientUi>) -> (held: (Option<GradientUi>, Option<ViewCommand>))
    ensures
        *final(mode) is None,
        held.0 == *old(mode),
        held.1 == match *old(mode) {
            Some(ui) => Some(ui.target.dropped()),
            None => None,
        },
{
    match *mode {
        None => (None, None),
        Some(ui) => {
            *mode = None;
            (Some(ui), Some(clear_preview(ui.target)))
        },
    }
}

/// Take the suspended gesture back up, showing it with whatever ramp is in hand now.
pub fn resume_from(mode: &mut Option<GradientUi>, ui: GradientUi, current: Option<Ramp>) -> (command:
    ViewCommand)
    ensures
        *final(mode) == Some(ui),
        command == ui.picture(current),
{
    update(mode, ui, current)
}

/// Leave the mode: lay what is composed, or drop the preview where there is nothing to lay.
pub fn finish(mode: &mut Option<GradientUi>, current: Option<Ramp>) -> (done: Finish)
    ensures
        *final(mode) is None,
        done == match *old(mode) {
            None => Finish::Nothing,
            Some(ui) => match ui.lays(current) {
                Some(laid) => Finish::Commit(laid.edit()),
                None => Finish::Clear(ui.target.dropped()),
            },
        },
{
    match *mode {
        None => Finish::Nothing,
        Some(ui) => {
            *mode = None;
            match compose(&ui, current) {
                Some(laid) => Finish::Commit(laid.commit()),
                None => Finish::Clear(clear_preview(ui.target)),
            }
        },
    }
}

/// What "Done" lays is what the canvas shows, on either target: the showing command and the
/// edit carry one and the same paint for one and the same layer.
pub proof fn law_done_lays_what_is_shown(ui: GradientUi, current: Option<Ramp>)
    requires
        ui.lays(current) is Some,
    ensures
        ui.lays(current)->0 matches Laid::Fill(fill) ==> {
            &&& SelectionFill::read_shown(ui.picture(current)) == Some(Some(fill))
            &&& SelectionFill::read_laid(ui.lays(current)->0.edit()) == Some(fill)
        },
        ui.lays(current)->0 matches Laid::Matte(paint) ==> {
            &&& MatteFinish::read_shown(ui.picture(current)) == Some(Some(paint))
            &&& MatteFinish::read_laid(ui.lays(current)->0.edit()) == Some(paint)
        },
{
    match ui.lays(current)->0 {
        Laid::Fill(fill) => {
            SelectionFill::pair(Some(fill));
        },
        Laid::Matte(paint) => {
            MatteFinish::pair(Some(paint));
        },
    }
}

/// Read the drag already made the other way, rather than losing it.
pub fn read_as(ui: &GradientUi, kind: GradientAxisKind) -> (next: GradientUi)
    ensures
        next == (GradientUi { kind, ..*ui }),
{
    GradientUi { kind, target: ui.target, drag: ui.drag }
}

/// What the chip of a reading says when pointed at.
pub fn kind_title(kind: GradientAxisKind) -> (title: &'static str)
    ensures
        title@ == match kind {
            GradientAxisKind::Linear => {
                "The drag is the ramp: press at its start, release at its end"@
            },
            GradientAxisKind::Radial => {
                "The drag is the reach: press at the centre, release at the rim"@
            },
        },
{
    match kind {
        GradientAxisKind::Linear => "The drag is the ramp: press at its start, release at its end",
        GradientAxisKind::Radial => "The drag is the reach: press at the centre, release at the rim",
    }
}

/// What "Done" says: a drag alone is not enough to have something to lay, since the axis can
/// be composed before any ramp exists to run along it.
pub fn done_title(ui: &GradientUi, current: Option<Ramp>) -> (title: &'static str)
    ensures
        title@ == if ui.ramp(current) is None {
            "No ramp yet \u{2014} pick or trace one from the strip, or leave without laying anything"@
        } else if ui.drag is None {
            "Nothing dragged yet \u{2014} leave without laying anything"@
        } else {
            match ui.target {
                GradientTarget::Fill { .. } => "Lay the gradient (undo takes it back)"@,
                GradientTarget::Matte { .. } => "Keep this paint (undo takes it back)"@,
            }
        },
{
    if ramp_in_hand(ui, current).is_none() {
        "No ramp yet \u{2014} pick or trace one from the strip, or leave without laying anything"
    } else if ui.drag.is_none() {
        "Nothing dragged yet \u{2014} leave without laying anything"
    } else {
        match ui.target {
            GradientTarget::Fill { .. } => "Lay the gradient (undo takes it back)",
            GradientTarget::Matte { .. } => "Keep this paint (undo takes it back)",
        }
    }
}

/// "Done" promises to lay something exactly where the gesture would lay something.
pub proof fn law_done_promises_what_it_lays(ui: GradientUi, current: Option<Ramp>)
    ensures
        ui.lays(current) is Some <==> ui.drag is Some && ui.ramp(current) is Some,
{
}

/// What the strip says when pointed at.
pub fn well_title(ui: &GradientUi, current: Option<Ramp>) -> (title: &'static str)
    ensures
        title@ == if ui.ramp(current) is Some {
            "The ramp being laid \u{2014} click to pick another or trace a new one"@
        } else {
            "No ramp yet \u{2014} click to pick or trace one"@
        },
{
    if ramp_in_hand(ui, current).is_some() {
        "The ramp being laid \u{2014} click to pick another or trace a new one"
    } else {
        "No ramp yet \u{2014} click to pick or trace one"
    }
}

/// The bar to draw, if any: the gesture in hand, or behind it the one that a trace has parked,
/// which is drawn recessed.
pub fn bar(composing: Option<GradientUi>, parked: Option<GradientUi>) -> (bar: Option<
    (GradientUi, bool),
>)
    ensures
        bar == match (composing, parked) {
            (Some(ui), _) => Some((ui, false)),
            (None, Some(ui)) => Some((ui, true)),
            (None, None) => None,
        },
{
    match composing {
        Some(ui) => Some((ui, false)),
        None => match parked {
            Some(ui) => Some((ui, true)),
            None => None,
        },
    }
}

pub fn bar_class(parked: bool) -> (class: &'static str)
    ensures
        class@ == if parked {
            "selection-bar gradient-fill-bar recessed"@
        } else {
            "selection-bar gradient-fill-bar mode-bar"@
        },
{
    if parked {
        "selection-bar gradient-fill-bar recessed"
    } else {
        "selection-bar gradient-fill-bar mode-bar"
    }
}

/// The surface that owns the pointer while a ramp is laid or traced.
pub fn catcher_class(panning: bool) -> (class: &'static str)
    ensures
        class@ == if panning {
            "gradient-catcher pan"@
        } else {
            "gradient-catcher"@
        },
{
    if panning {
        "gradient-catcher pan"
    } else {
        "gradient-catcher"
    }
}

/// What to do, said until there is an axis to explain itself.
pub fn axis_hint(ui: &GradientUi) -> (hint: Option<&'static str>)
    ensures
        hint is Some <==> ui.drag is None,
        hint matches Some(words) ==> words@ == match ui.kind {
            GradientAxisKind::Linear => {
                "Drag the axis: press where the ramp starts, release where it ends."@
            },
            GradientAxisKind::Radial => {
                "Drag the reach: press at the centre, release at the rim."@
            },
        },
{
    if ui.drag.is_some() {
        return None;
    }
    Some(
        match ui.kind {
            GradientAxisKind::Linear => {
                "Drag the axis: press where the ramp starts, release where it ends."
            },
            GradientAxisKind::Radial => "Drag the reach: press at the centre, release at the rim.",
        },
    )
}

// --- the drag that composes the axis ---

/// A press at `p`. Navigation takes the press and the axis stands; otherwise the axis starts
/// over from here.
pub fn press(dragging: &mut bool, ui: &GradientUi, navigating: bool, primary: bool, p: FinePoint) -> (next:
    Option<GradientUi>)
    ensures
        *final(dragging) == if navigating {
            false
        } else if primary {
            true
        } else {
            *old(dragging)
        },
        next == if !navigating && primary {
            Some(GradientUi { drag: Some((p, p)), ..*ui })
        } else {
            None
        },
{
    if navigating {
        *dragging = false;
        None
    } else if primary {
        *dragging = true;
        Some(GradientUi { drag: Some((p, p)), target: ui.target, kind: ui.kind })
    } else {
        None
    }
}

/// The pointer moved to `p`: the far end of the axis follows it.
pub fn follow(dragging: bool, ui: &GradientUi, navigating: bool, p: FinePoint) -> (next: Option<
    GradientUi,
>)
    ensures
        next == match ui.drag {
            Some((from, _)) if dragging && !navigating => Some(
                GradientUi { drag: Some((from, p)), ..*ui },
            ),
            _ => None,
        },
{
    if navigating || !dragging {
        return None;
    }
    match ui.drag {
        Some((from, _)) => Some(
            GradientUi { drag: Some((from, p)), target: ui.target, kind: ui.kind },
        ),
        None => None,
    }
}

/// The pointer was let go, or taken: the drag ends where it stands, unless the release was
/// navigation's own.
pub fn release(dragging: &mut bool, navigations: bool)
    ensures
        *final(dragging) == (navigations && *old(dragging)),
{
    if !navigations {
        *dragging = false;
    }
}

/// A fill lays the library's ramp on the selection, and a matte the ramp it carries on itself:
/// along the drag as it was made, read as it is read, on the layer it was aimed at. Without a drag
/// or a ramp there is nothing to lay, and what is shown is dropped.
pub proof fn law_a_ramp_is_laid_along_its_drag(
    ui: GradientUi,
    current: Option<Ramp>,
    laid: Option<Laid>,
    show: ViewCommand,
)
    requires
        call_ensures(compose, (&ui, current), laid),
        call_ensures(show_axis, (&ui, current), show),
    ensures
        ui.drag is None ==> laid is None,
        ui.target is Fill && current is None ==> laid is None,
        ui.target matches GradientTarget::Matte { gradient: None, .. } ==> laid is None,
        laid is None ==> show == match ui.target {
            GradientTarget::Fill { .. } => ViewCommand::PreviewFill(None),
            GradientTarget::Matte { .. } => ViewCommand::PreviewMattePaint(None),
        },
        ui.drag matches Some((from, to)) ==> {
            let drag = Drag { kind: ui.kind, from, to };
            &&& ui.target matches GradientTarget::Fill { layer } ==> (current matches Some(ramp) ==> {
                let op = FillOp::GradientOfSelection { ramp, drag };
                &&& laid == Some(Laid::Fill(SelectionFill { layer, op }))
                &&& show == ViewCommand::PreviewFill(Some((layer, op)))
            })
            &&& ui.target matches GradientTarget::Matte { layer, gradient: Some(ramp) } ==> {
                let paint = MattePaint::Gradient { ramp, drag };
                &&& laid == Some(Laid::Matte(MatteFinish { layer, paint }))
                &&& show == ViewCommand::PreviewMattePaint(Some((layer, paint)))
            }
        },
{
}

/// What is laid is laid on the layer it was composed for, as one edit.
pub proof fn law_what_is_composed_is_one_edit(laid: Laid, edit: DocCommand)
    requires
        call_ensures(Laid::commit, (laid,), edit),
    ensures
        laid matches Laid::Fill(fill) ==> edit == DocCommand::Fill(fill.layer, fill.op),
        laid matches Laid::Matte(matte) ==> edit == DocCommand::SetMattePaint(
            matte.layer,
            matte.paint,
        ),
{
}

/// A solid matte opens on an upright axis down the middle of its span, from its top to its foot,
/// with the library's ramp. A graded one opens on its own ramp, and a round one's drag runs to the
/// right of its centre by its radius. A fine point counts halves of what a point
/// counts.
pub proof fn law_a_matte_opens_on_what_it_wears(
    layer: LayerId,
    paint: Standing,
    rect: Rect,
    current: Option<Ramp>,
    ui: GradientUi,
)
    requires
        within_reach(paint),
        call_ensures(begin_matte, (layer, paint, rect, current), ui),
    ensures
        ui.drag is Some,
        ui.target matches GradientTarget::Matte { layer: on, gradient } && on == layer && (paint
            is Solid ==> gradient == current) && (paint matches Standing::Gradient { ramp, .. }
            ==> gradient == Some(ramp)),
        paint is Solid ==> {
            let (from, to) = ui.drag->0;
            &&& ui.kind is Linear
            &&& from.x == to.x
            &&& from.x - 2 * rect.min.x == 2 * rect.max.x - from.x
            &&& from.y == 2 * rect.min.y
            &&& to.y == 2 * rect.max.y
        },
        paint matches Standing::Gradient { axis: GradientAxis::Linear { from, to }, .. } ==> ui.kind
            is Linear && ui.drag == Some((from, to)),
        paint matches Standing::Gradient { axis: GradientAxis::Radial { center, radius }, .. } ==> {
            let (from, to) = ui.drag->0;
            &&& ui.kind is Radial
            &&& from == center
            &&& to.x - center.x == radius
            &&& to.y == center.y
        },
{
}

/// A fresh axis spans the matte itself where it has bounds, and else what is in view, and the
/// square about the origin where nothing is.
pub proof fn law_a_fresh_axis_spans_what_it_is_laid_on(
    layers: &Vec<LayerInfo>,
    layer: LayerId,
    view: Option<Rect>,
    rect: Rect,
)
    requires
        call_ensures(default_axis_rect, (layers, layer, view), rect),
    ensures
        ({
            let own = match model::layer_of(layers@, layer) {
                Some(l) => match l.matte {
                    Some(matte) => matte.rect,
                    None => None,
                },
                None => None,
            };
            &&& own is Some ==> own == Some(rect)
            &&& own is None && view is Some ==> view == Some(rect)
            &&& own is None && view is None ==> {
                &&& rect.min.x == -256 * 64 && rect.min.y == -256 * 64
                &&& rect.max.x == 256 * 64 && rect.max.y == 256 * 64
            }
        }),
{
}

/// A pick changes the ramp that a matte carries and nothing else of the gesture, and an empty
/// library takes none away.
pub proof fn law_a_pick_changes_the_ramp_alone(ui: GradientUi, current: Option<Ramp>)
    ensures
        picked(ui, current).kind == ui.kind,
        picked(ui, current).drag == ui.drag,
        ui.target is Fill ==> picked(ui, current) == ui,
        current is None ==> picked(ui, current) == ui,
        ui.target matches GradientTarget::Matte { layer, .. } ==> (current matches Some(ramp)
            ==> picked(ui, current).target == (GradientTarget::Matte { layer, gradient: Some(ramp) })),
{
}

} // verus!
