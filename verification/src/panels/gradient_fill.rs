//! The gradient fill: a ramp through the selection, at the strength and the amount that the
//! brush had when the mode was entered.
//!
//! The mode wants a ramp to start with, and lays the one that the library has in hand when it
//! is left.
use crate::amount::Amount;
use crate::model;
use crate::model::{
    DocCommand, Drag, FillOp, FinePoint, GradientAxisKind, LayerId, LayerInfo, Ramp, ViewCommand,
};
use crate::preview::{Paired, SelectionFill};
use vstd::prelude::*;

verus! {

/// The gesture in hand.
#[derive(Clone, Copy, PartialEq, Eq, Debug)]
pub struct GradientFillUi {
    pub layer: LayerId,
    pub kind: GradientAxisKind,
    pub drag: Option<(FinePoint, FinePoint)>,
    pub opacity: Amount,
    pub height: Amount,
}

impl GradientFillUi {
    /// The fill that the gesture would lay, given the ramp that the library has in hand:
    /// nothing before a drag, or with the library emptied meanwhile.
    pub open spec fn fills(self, current: Option<Ramp>) -> Option<SelectionFill> {
        match (self.drag, current) {
            (Some((from, to)), Some(ramp)) => Some(
                SelectionFill {
                    layer: self.layer,
                    op: FillOp::GradientWash {
                        ramp,
                        drag: Drag { kind: self.kind, from, to },
                        opacity: self.opacity,
                        height: self.height,
                    },
                },
            ),
            _ => None,
        }
    }
}

/// Enter the mode: linear, nothing dragged yet, on the selected layer if it can be painted on
/// and otherwise on the topmost that can. An empty library refuses.
pub fn begin(
    current: Option<Ramp>,
    layers: &Vec<LayerInfo>,
    active: LayerId,
    opacity: Amount,
    height: Amount,
) -> (ui: Option<GradientFillUi>)
    ensures
        ui == match (current, model::target_of(layers@, active)) {
            (Some(_), Some(layer)) => Some(
                GradientFillUi {
                    layer,
                    kind: GradientAxisKind::Linear,
                    drag: None,
                    opacity,
                    height,
                },
            ),
            _ => None,
        },
{
    if current.is_none() {
        return None;
    }
    match model::paint_target(layers, active) {
        None => None,
        Some(layer) => Some(
            GradientFillUi { layer, kind: GradientAxisKind::Linear, drag: None, opacity, height },
        ),
    }
}

/// The fill that the gesture would lay.
pub fn op_of(ui: &GradientFillUi, current: Option<Ramp>) -> (fill: Option<SelectionFill>)
    ensures
        fill == ui.fills(current),
{
    match (ui.drag, current) {
        (Some((from, to)), Some(ramp)) => Some(
            SelectionFill {
                layer: ui.layer,
                op: FillOp::GradientWash {
                    ramp,
                    drag: Drag { kind: ui.kind, from, to },
                    opacity: ui.opacity,
                    height: ui.height,
                },
            },
        ),
        _ => None,
    }
}

/// Take the gesture further, and show its consequence.
pub fn update(mode: &mut Option<GradientFillUi>, ui: GradientFillUi, current: Option<Ramp>) -> (show:
    ViewCommand)
    ensures
        *final(mode) == Some(ui),
        show == SelectionFill::shown(ui.fills(current)),
{
    *mode = Some(ui);
    SelectionFill::to_show(op_of(&ui, current))
}

/// Show the gesture in hand anew, if there is one: how a pick in the library reaches the canvas.
pub fn refresh(mode: &Option<GradientFillUi>, current: Option<Ramp>) -> (show: Option<ViewCommand>)
    ensures
        show == match *mode {
            Some(ui) => Some(SelectionFill::shown(ui.fills(current))),
            None => None,
        },
{
    match mode {
        Some(ui) => Some(SelectionFill::to_show(op_of(ui, current))),
        None => None,
    }
}

/// What leaving the mode comes to.
#[derive(Clone, PartialEq, Eq, Debug)]
pub enum Leave {
    /// Lay the fill, which drops the preview itself.
    Commit(DocCommand),
    /// Drop the preview.
    Clear(ViewCommand),
}

/// Leave the mode: lay the fill, or drop the preview where there is none to lay.
pub fn finish(mode: &mut Option<GradientFillUi>, current: Option<Ramp>) -> (leave: Leave)
    ensures
        *final(mode) is None,
        leave == match *old(mode) {
            Some(ui) => match ui.fills(current) {
                Some(fill) => Leave::Commit(fill.laid()),
                None => Leave::Clear(SelectionFill::shown(None)),
            },
            None => Leave::Clear(SelectionFill::shown(None)),
        },
{
    let leave: Leave = match *mode {
        Some(ui) => match op_of(&ui, current) {
            Some(fill) => Leave::Commit(fill.to_lay()),
            None => Leave::Clear(SelectionFill::to_show(None)),
        },
        None => Leave::Clear(SelectionFill::to_show(None)),
    };
    *mode = None;
    leave
}

/// What "Done" lays is what was last shown.
pub proof fn law_done_lays_what_is_shown(ui: GradientFillUi, current: Option<Ramp>)
    requires
        ui.fills(current) is Some,
    ensures
        SelectionFill::read_shown(SelectionFill::shown(ui.fills(current))) == Some(
            SelectionFill::read_laid(ui.fills(current)->0.laid()),
        ),
        SelectionFill::read_laid(ui.fills(current)->0.laid()) == ui.fills(current),
{
    SelectionFill::pair(ui.fills(current));
}

/// Read the drag already made the other way, rather than losing it.
pub fn read_as(ui: &GradientFillUi, kind: GradientAxisKind) -> (next: GradientFillUi)
    ensures
        next == (GradientFillUi { kind, ..*ui }),
{
    GradientFillUi { kind, layer: ui.layer, drag: ui.drag, opacity: ui.opacity, height: ui.height }
}

pub fn done_title(ui: &GradientFillUi) -> (title: &'static str)
    ensures
        title@ == if ui.drag is Some {
            "Lay the gradient (undo takes it back)"@
        } else {
            "Nothing dragged yet \u{2014} leave without filling"@
        },
{
    if ui.drag.is_some() {
        "Lay the gradient (undo takes it back)"
    } else {
        "Nothing dragged yet \u{2014} leave without filling"
    }
}

/// A press at `p`: navigation takes it, or the axis starts over from here.
pub fn press(
    dragging: &mut bool,
    ui: &GradientFillUi,
    navigating: bool,
    primary: bool,
    p: FinePoint,
) -> (next: Option<GradientFillUi>)
    ensures
        *final(dragging) == if navigating {
            false
        } else if primary {
            true
        } else {
            *old(dragging)
        },
        next == if !navigating && primary {
            Some(GradientFillUi { drag: Some((p, p)), ..*ui })
        } else {
            None
        },
{
    if navigating {
        *dragging = false;
        None
    } else if primary {
        *dragging = true;
        Some(
            GradientFillUi {
                drag: Some((p, p)),
                layer: ui.layer,
                kind: ui.kind,
                opacity: ui.opacity,
                height: ui.height,
            },
        )
    } else {
        None
    }
}

/// The pointer moved to `p`: the far end of the axis follows it.
pub fn follow(dragging: bool, ui: &GradientFillUi, navigating: bool, p: FinePoint) -> (next: Option<
    GradientFillUi,
>)
    ensures
        next == match ui.drag {
            Some((from, _)) if dragging && !navigating => Some(
                GradientFillUi { drag: Some((from, p)), ..*ui },
            ),
            _ => None,
        },
{
    if navigating || !dragging {
        return None;
    }
    match ui.drag {
        Some((from, _)) => Some(
            GradientFillUi {
                drag: Some((from, p)),
                layer: ui.layer,
                kind: ui.kind,
                opacity: ui.opacity,
                height: ui.height,
            },
        ),
        None => None,
    }
}

/// A wash lays the library's ramp along the drag as it was made and is read, on the layer it was
/// entered for, at the strength and the amount it was entered with. Without a drag or a ramp there
/// is none.
pub proof fn law_a_wash_is_laid_along_its_drag(
    ui: GradientFillUi,
    current: Option<Ramp>,
    fill: Option<SelectionFill>,
)
    requires
        call_ensures(op_of, (&ui, current), fill),
    ensures
        fill == ui.fills(current),
        fill is None <==> ui.drag is None || current is None,
        fill matches Some(f) ==> {
            &&& f.layer == ui.layer
            &&& f.op matches FillOp::GradientWash { ramp, drag, opacity, height } && {
                &&& current == Some(ramp)
                &&& ui.drag == Some((drag.from, drag.to))
                &&& drag.kind == ui.kind
                &&& opacity == ui.opacity
                &&& height == ui.height
            }
        },
{
}

} // verus!
