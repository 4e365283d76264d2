//! The eyedropper's options, in a bar that is up only while the eyedropper's chord is held.
//!
//! It goes away again the moment the drag starts, because from then on the thing to look at is
//! the canvas and the colour coming off it.
use crate::model::Tool;
use crate::panels::select;
use crate::pick::PickScope;
use vstd::prelude::*;

verus! {

/// What the hand is doing.
#[derive(Clone, Copy, PartialEq, Eq, Structural, Debug)]
pub struct Hand {
    /// The held keys are those of the pick.
    pub chord: bool,
    /// A pick is under way, which leaves the canvas alone.
    pub picking: bool,
    /// The canvas is in hand: a stroke, a pan.
    pub canvas_active: bool,
    /// The canvas is about to be panned.
    pub space_down: bool,
    pub tool: Tool,
}

/// The bar is up while the pick is armed and not yet in use: a chord pressed in the middle of a
/// stroke must not pop a bar up over the painting.
pub fn armed(hand: Hand) -> (up: bool)
    ensures
        up == (hand.chord && !hand.picking && !hand.canvas_active && !hand.space_down
            && !select::draws_shapes(hand.tool)),
{
    hand.chord && !hand.picking && !hand.canvas_active && !hand.space_down && !select::is_selection(
        hand.tool,
    )
}

/// How far a sample sees, in the order of the row: by how much each lets in.
pub open spec fn reaches() -> Seq<PickScope> {
    seq![PickScope::ThisLayer, PickScope::AndBelow, PickScope::AllLayers]
}

pub fn sources() -> (row: Vec<PickScope>)
    ensures
        row@ == reaches(),
{
    let mut row: Vec<PickScope> = Vec::new();
    row.push(PickScope::ThisLayer);
    row.push(PickScope::AndBelow);
    row.push(PickScope::AllLayers);
    assert(row@ =~= reaches());
    row
}

/// The word on the chip of a reach, and what it says when pointed at.
pub fn source_chip(scope: PickScope) -> (chip: (&'static str, &'static str))
    ensures
        chip.0@ == match scope {
            PickScope::ThisLayer => "This layer"@,
            PickScope::AndBelow => "+ Below"@,
            PickScope::AllLayers => "All layers"@,
        },
        chip.1@ == match scope {
            PickScope::ThisLayer => {
                "Sample the selected layer alone, ignoring anything over or under it"@
            },
            PickScope::AndBelow => {
                "Sample the selected layer and everything beneath it \u{2014} what the canvas would show with the layers above switched off"@
            },
            PickScope::AllLayers => {
                "Sample every visible layer \u{2014} the color the canvas shows"@
            },
        },
{
    match scope {
        PickScope::ThisLayer => {
            ("This layer", "Sample the selected layer alone, ignoring anything over or under it")
        },
        PickScope::AndBelow => {
            ("+ Below", "Sample the selected layer and everything beneath it \u{2014} what the canvas would show with the layers above switched off")
        },
        PickScope::AllLayers => {
            ("All layers", "Sample every visible layer \u{2014} the color the canvas shows")
        },
    }
}

/// The row of reaches goes from the one that lets the least in to the one that lets the most in.
pub proof fn law_the_reaches_widen_along_the_row()
    ensures
        reaches().len() == 3,
        reaches()[0] == PickScope::ThisLayer,
        reaches()[1] == PickScope::AndBelow,
        reaches()[2] == PickScope::AllLayers,
{
}

} // verus!
