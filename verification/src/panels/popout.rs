//! Where a panel's pop-out is drawn.
//!
//! The stack of panels clips whatever is flown out of one of its rows, so a pop-out is mounted at
//! the root instead and *placed*: the row it belongs to is measured, and the surface is stood
//! beside it.
use crate::amount::{Amount, Places};
use crate::platform::page::ElementBox;
use vstd::prelude::*;

verus! {

/// The surfaces that a control can fly out.
#[derive(Clone, Copy, PartialEq, Eq, Structural, Debug)]
pub enum PopoutId {
    SubstrateColor,
    SubstrateGallery,
    VisibilityMenu,
    Parcel,
    GradientLibrary,
}

impl PopoutId {
    /// It flies out of the panel stack; the others are drawn where they are opened.
    pub open spec fn of_the_stack(self) -> bool {
        self == PopoutId::SubstrateColor || self == PopoutId::SubstrateGallery
    }

    pub fn in_stack(self) -> (yes: bool)
        ensures
            yes == self.of_the_stack(),
    {
        matches!(self, PopoutId::SubstrateColor | PopoutId::SubstrateGallery)
    }
}

/// What is to be done about the pop-out.
#[derive(Clone, Copy, PartialEq, Eq, Structural, Debug)]
pub enum Placing {
    /// Close it.
    Close,
    /// Nothing of the stack's is open: forget where one was.
    Unplace,
    /// Keep this one beside its row.
    Follow(PopoutId),
}

/// Place the open pop-out. A gesture on the canvas closes it: it stands over the painting, and
/// the press that says so is a stroke, which catching would eat.
pub fn placing(open: Option<PopoutId>, canvas_active: bool) -> (placing: Placing)
    ensures
        placing == match open {
            Some(id) if id.of_the_stack() => if canvas_active {
                Placing::Close
            } else {
                Placing::Follow(id)
            },
            _ => Placing::Unplace,
        },
{
    match open {
        Some(id) if id.in_stack() => if canvas_active {
            Placing::Close
        } else {
            Placing::Follow(id)
        },
        _ => Placing::Unplace,
    }
}

/// Which way a pop-out grows out of its row.
#[derive(Clone, Copy, PartialEq, Eq, Structural, Debug)]
pub enum Grow {
    /// Down from the row's top.
    Down,
    /// Up from its bottom.
    Up,
}

/// Down or up, whichever the window has more of, and down where they are the same.
pub fn grows(viewport_height: i32, at: &ElementBox) -> (grow: Grow)
    ensures
        grow == if viewport_height - at.top >= at.top + at.height {
            Grow::Down
        } else {
            Grow::Up
        },
{
    if viewport_height as i64 - at.top as i64 >= at.bottom() {
        Grow::Down
    } else {
        Grow::Up
    }
}

/// The edge of its row that a pop-out stands at, in layout units: the one that it grows away from.
pub fn edge(grow: Grow, at: &ElementBox) -> (y: i64)
    ensures
        y == match grow {
            Grow::Down => at.top as int,
            Grow::Up => at.top + at.height,
        },
{
    match grow {
        Grow::Down => at.top as i64,
        Grow::Up => at.bottom(),
    }
}

/// Where a pop-out stands, as a style: at that edge, and pulled up by its own height where it
/// grows up. `room` caps what is left that way, so that the surface scrolls inside the cap rather
/// than running off the screen.
pub fn place(grow: Grow, edge: Amount, room: &str) -> (style: String)
    ensures
        style@ == "top: "@ + edge.written(Places::One, false) + "px; "@ + (match grow {
            Grow::Down => Seq::empty(),
            Grow::Up => "transform: translateY(-100%); "@,
        }) + room@,
{
    let mut style: String = "top: ".to_owned();
    style.append(edge.fixed(Places::One, false).as_str());
    style.append("px; ");
    let ghost stood = style@;
    match grow {
        Grow::Down => {
            assert(stood + Seq::<char>::empty() =~= stood);
        },
        Grow::Up => {
            style.append("transform: translateY(-100%); ");
        },
    }
    style.append(room);
    style
}

/// The row that a pop-out belongs to, and nothing while it is not showing: a row scrolled out of
/// the stack still has a box. Overlap rather than containment, or a surface would flicker through
/// every scroll that passes it.
pub fn showing_row(row: Option<ElementBox>, stack: Option<ElementBox>) -> (showing: Option<ElementBox>)
    ensures
        showing == match (row, stack) {
            (Some(row), Some(stack)) if row.top + row.height > stack.top && row.top < stack.top
                + stack.height => Some(row),
            _ => None,
        },
{
    match (row, stack) {
        (Some(row), Some(stack)) => if row.bottom() > stack.top as i64 && (row.top as i64)
            < stack.bottom() {
            Some(row)
        } else {
            None
        },
        _ => None,
    }
}

/// The two surfaces of the panel stack are followed, and closed by a gesture on the canvas. The
/// others are drawn where they are opened, and there is nothing to place.
pub proof fn law_only_the_stack_s_own_surfaces_are_placed(
    id: PopoutId,
    canvas_active: bool,
    placed: Placing,
)
    requires
        call_ensures(placing, (Some(id), canvas_active), placed),
    ensures
        id is SubstrateColor || id is SubstrateGallery ==> placed == if canvas_active {
            Placing::Close
        } else {
            Placing::Follow(id)
        },
        id is VisibilityMenu || id is Parcel || id is GradientLibrary ==> placed == Placing::Unplace,
{
}

/// A pop-out grows to the side that has the more room, measured from the edge it stands at.
pub proof fn law_a_popout_grows_where_there_is_more_room(
    viewport_height: i32,
    at: ElementBox,
    grow: Grow,
    y: i64,
)
    requires
        call_ensures(grows, (viewport_height, &at), grow),
        call_ensures(edge, (grow, &at), y),
    ensures
        grow is Down ==> y == at.top && viewport_height - y >= at.top + at.height,
        grow is Up ==> y == at.top + at.height && y > viewport_height - at.top,
{
}

} // verus!
