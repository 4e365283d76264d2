//! The Select panel: which shape is drawn, what the shape *does*, and how strongly and how softly
//! it lands.
//!
//! Shapes do not make selections, they make coverage. Four of the five actions are the four ways
//! that coverage can land on the mask, and the fifth lands it on the paint.
use crate::amount::Amount;
use crate::model::{
    DocCommand, FillOp, LayerId, SelectionMode, ShapeAction, Srgb, Tool, ViewCommand,
};
use crate::preview::{Paired, Preview, SelectionOpacity};
use vstd::prelude::*;

verus! {

/// The five answers to what a shape does, in the order of the row.
pub open spec fn actions() -> Seq<ShapeAction> {
    seq![
        ShapeAction::Select(SelectionMode::Replace),
        ShapeAction::Select(SelectionMode::Union),
        ShapeAction::Select(SelectionMode::Subtract),
        ShapeAction::Select(SelectionMode::Intersect),
        ShapeAction::Fill,
    ]
}

/// The row of actions.
pub fn action_row() -> (row: Vec<ShapeAction>)
    ensures
        row@ == actions(),
{
    let mut row: Vec<ShapeAction> = Vec::new();
    row.push(ShapeAction::Select(SelectionMode::Replace));
    row.push(ShapeAction::Select(SelectionMode::Union));
    row.push(ShapeAction::Select(SelectionMode::Subtract));
    row.push(ShapeAction::Select(SelectionMode::Intersect));
    row.push(ShapeAction::Fill);
    assert(row@ =~= actions());
    row
}

/// Every action is on the row, once.
pub proof fn law_every_action_is_on_the_row_once(action: ShapeAction)
    ensures
        exists|i: int| 0 <= i < actions().len() && actions()[i] == action,
        forall|i: int, j: int|
            0 <= i < j < actions().len() ==> #[trigger] actions()[i] != #[trigger] actions()[j],
{
    let row = actions();
    match action {
        ShapeAction::Select(SelectionMode::Replace) => {
            assert(row[0] == action);
        },
        ShapeAction::Select(SelectionMode::Union) => {
            assert(row[1] == action);
        },
        ShapeAction::Select(SelectionMode::Subtract) => {
            assert(row[2] == action);
        },
        ShapeAction::Select(SelectionMode::Intersect) => {
            assert(row[3] == action);
        },
        ShapeAction::Fill => {
            assert(row[4] == action);
        },
    }
}

/// The word on an action's chip, and what it says when pointed at.
pub fn action_chip(action: ShapeAction) -> (chip: (&'static str, &'static str))
    ensures
        chip.0@ == match action {
            ShapeAction::Select(SelectionMode::Replace) => "New"@,
            ShapeAction::Select(SelectionMode::Union) => "Add"@,
            ShapeAction::Select(SelectionMode::Subtract) => "Sub"@,
            ShapeAction::Select(SelectionMode::Intersect) => "Isect"@,
            ShapeAction::Fill => "Fill"@,
        },
        chip.1@ == match action {
            ShapeAction::Select(SelectionMode::Replace) => {
                "Select this region, replacing the current selection"@
            },
            ShapeAction::Select(SelectionMode::Union) => {
                "Add this region to the selection (or hold shift). With nothing \n             selected, this selects just the region"@
            },
            ShapeAction::Select(SelectionMode::Subtract) => {
                "Cut this region out of the selection (or hold alt)"@
            },
            ShapeAction::Select(SelectionMode::Intersect) => {
                "Keep only the overlap with the selection (or hold shift+alt)"@
            },
            ShapeAction::Fill => {
                "Fill this region with the brush's paint instead of selecting it. Stays armed, so you can keep blocking in"@
            },
        },
{
    match action {
        ShapeAction::Select(SelectionMode::Replace) => {
            ("New", "Select this region, replacing the current selection")
        },
        ShapeAction::Select(SelectionMode::Union) => {
            ("Add", "Add this region to the selection (or hold shift). With nothing \n             selected, this selects just the region")
        },
        ShapeAction::Select(SelectionMode::Subtract) => {
            ("Sub", "Cut this region out of the selection (or hold alt)")
        },
        ShapeAction::Select(SelectionMode::Intersect) => {
            ("Isect", "Keep only the overlap with the selection (or hold shift+alt)")
        },
        ShapeAction::Fill => {
            ("Fill", "Fill this region with the brush's paint instead of selecting it. Stays armed, so you can keep blocking in")
        },
    }
}

/// How strongly the coverage lands: under a fill it is the fill's own strength,
/// chosen up front, and otherwise the whole mask's, which reaches a region already drawn.
pub fn strength(action: ShapeAction, fill: Amount, mask: Amount) -> (opacity: Amount)
    ensures
        opacity == if action == ShapeAction::Fill {
            fill
        } else {
            mask
        },
{
    if action == ShapeAction::Fill {
        fill
    } else {
        mask
    }
}

/// One sample of a drag of the strength: set, for a fill, and shown, for the mask.
pub fn dim(action: ShapeAction, dimming: &mut Preview<SelectionOpacity>, opacity: Amount) -> (command:
    ViewCommand)
    ensures
        action == ShapeAction::Fill ==> {
            &&& command == ViewCommand::SetShapeOpacity(opacity)
            &&& *final(dimming) == *old(dimming)
        },
        action != ShapeAction::Fill ==> {
            &&& command == SelectionOpacity::shown(Some(SelectionOpacity { opacity }))
            &&& final(dimming).pending == Some(SelectionOpacity { opacity })
        },
{
    if action == ShapeAction::Fill {
        ViewCommand::SetShapeOpacity(opacity)
    } else {
        dimming.during(SelectionOpacity { opacity })
    }
}

/// The end of a drag of the strength: the mask's is laid down, once, and a fill's has nothing to
/// lay.
pub fn dim_settle(action: ShapeAction, dimming: &mut Preview<SelectionOpacity>) -> (edit: Option<
    DocCommand,
>)
    ensures
        action == ShapeAction::Fill ==> edit is None && *final(dimming) == *old(dimming),
        action != ShapeAction::Fill ==> {
            &&& final(dimming).pending is None
            &&& edit == match old(dimming).pending {
                Some(value) => Some(DocCommand::SetSelectionOpacity(value.opacity)),
                None => None,
            }
        },
{
    if action == ShapeAction::Fill {
        None
    } else {
        dimming.settle()
    }
}

/// The edge's softness, in pixels.
pub fn feather(softness: Amount) -> (command: ViewCommand)
    ensures
        command == ViewCommand::SetSelectionFeather(softness),
{
    ViewCommand::SetSelectionFeather(softness)
}

/// Fill whatever is selected, on the active layer, with the paint in hand; nothing where there
/// is no document. How far it covers is not asked: the selection's own coverage answers it.
pub fn fill_selection(active: Option<LayerId>, color: Srgb) -> (edit: Option<DocCommand>)
    ensures
        edit == match active {
            Some(layer) => Some(DocCommand::Fill(layer, FillOp::OfSelection(color))),
            None => None,
        },
{
    match active {
        Some(layer) => Some(DocCommand::Fill(layer, FillOp::OfSelection(color))),
        None => None,
    }
}

/// The way of landing on the selection that a gesture's held keys ask for, or none to keep the
/// panel's own.
pub fn modifier_mode(shift: bool, alt: bool) -> (mode: Option<SelectionMode>)
    ensures
        mode == if shift && alt {
            Some(SelectionMode::Intersect)
        } else if shift {
            Some(SelectionMode::Union)
        } else if alt {
            Some(SelectionMode::Subtract)
        } else {
            None
        },
{
    match (shift, alt) {
        (true, true) => Some(SelectionMode::Intersect),
        (true, false) => Some(SelectionMode::Union),
        (false, true) => Some(SelectionMode::Subtract),
        (false, false) => None,
    }
}

/// The shapes that a region is drawn as, one to a chip.
#[derive(Clone, Copy, PartialEq, Eq, Structural, Debug)]
pub enum ShapeChip {
    Rect,
    Ellipse,
    Lasso,
}

impl ShapeChip {
    /// The tool that draws the shape.
    pub open spec fn draws(self) -> Tool {
        match self {
            ShapeChip::Rect => Tool::SelectRect,
            ShapeChip::Ellipse => Tool::SelectEllipse,
            ShapeChip::Lasso => Tool::SelectLasso,
        }
    }

    pub fn tool(self) -> (tool: Tool)
        ensures
            tool == self.draws(),
    {
        match self {
            ShapeChip::Rect => Tool::SelectRect,
            ShapeChip::Ellipse => Tool::SelectEllipse,
            ShapeChip::Lasso => Tool::SelectLasso,
        }
    }
}

/// What a pick of an action asks for: the setting, and the tool to hold from then on.
#[derive(Clone, Copy, PartialEq, Eq, Debug)]
pub struct Picked {
    pub set: ViewCommand,
    pub arm: Tool,
}

/// Pick what the next shape does. Every answer, Fill included, is about a region that has not
/// been drawn yet, so the pick also arms the tool to draw it with. Which of the three that is, is
/// the chips' question and not this row's.
pub fn pick_action(action: ShapeAction, chip: ShapeChip) -> (picked: Picked)
    ensures
        picked.set == ViewCommand::SetShapeAction(action),
        picked.arm == chip.draws(),
        draws_shapes(picked.arm),
{
    Picked { set: ViewCommand::SetShapeAction(action), arm: chip.tool() }
}

/// The tool that the next gesture will use: the brush where there is no document to ask.
pub fn current_tool(tool: Option<Tool>) -> (current: Tool)
    ensures
        current == match tool {
            Some(tool) => tool,
            None => Tool::Brush,
        },
{
    match tool {
        Some(tool) => tool,
        None => Tool::Brush,
    }
}

/// What the next shape is set to do: `first` is what a fresh document starts on.
pub fn current_action(action: Option<ShapeAction>, first: ShapeAction) -> (current: ShapeAction)
    ensures
        current == match action {
            Some(action) => action,
            None => first,
        },
{
    match action {
        Some(action) => action,
        None => first,
    }
}

/// Whether a tool draws a shape.
pub open spec fn draws_shapes(tool: Tool) -> bool {
    tool != Tool::Brush
}

pub fn is_selection(tool: Tool) -> (yes: bool)
    ensures
        yes == draws_shapes(tool),
{
    tool != Tool::Brush
}

/// The bar of the commands that act on a whole selection: there is one exactly while there is a
/// selection, and it recedes behind the bar of whatever is being composed.
pub fn bar(selected: bool, composing: bool) -> (class: Option<&'static str>)
    ensures
        class is Some <==> selected,
        class matches Some(words) ==> words@ == if composing {
            "selection-bar recessed"@
        } else {
            "selection-bar"@
        },
{
    if !selected {
        None
    } else if composing {
        Some("selection-bar recessed")
    } else {
        Some("selection-bar")
    }
}

/// Each chip arms the tool of its own shape, and every tool but the brush draws one.
pub proof fn law_a_chip_arms_the_tool_of_its_shape(chip: ShapeChip, tool: Tool, any: Tool, yes: bool)
    requires
        call_ensures(ShapeChip::tool, (chip,), tool),
        call_ensures(is_selection, (any,), yes),
    ensures
        tool == chip.draws(),
        chip is Rect <==> tool is SelectRect,
        chip is Ellipse <==> tool is SelectEllipse,
        chip is Lasso <==> tool is SelectLasso,
        yes == draws_shapes(any),
        yes <==> any is SelectRect || any is SelectEllipse || any is SelectLasso,
{
}

/// The row leads with a new selection and ends with a fill, with what adds before what takes away.
pub proof fn law_the_row_leads_with_a_new_selection()
    ensures
        actions().len() == 5,
        actions()[0] == ShapeAction::Select(SelectionMode::Replace),
        actions()[1] == ShapeAction::Select(SelectionMode::Union),
        actions()[2] == ShapeAction::Select(SelectionMode::Subtract),
        actions()[3] == ShapeAction::Select(SelectionMode::Intersect),
        actions()[4] == ShapeAction::Fill,
{
}

} // verus!
