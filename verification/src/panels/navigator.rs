//! The Navigator: a miniature of the whole piece, with the viewport marked on it.
//!
//! The miniature is a picture of the *committed* document, drawn anew when that changes and not
//! otherwise, since one drawing composites every tile there is. A short delay collapses a burst of
//! edits, and a gesture in hand is waited out.
use crate::model::LayerId;
use crate::amount::{Amount, At};
use vstd::prelude::*;

verus! {

/// The largest miniature.
pub const MAX_WIDTH: u32 = 252;

pub const MAX_HEIGHT: u32 = 176;

/// How long a change has to stop arriving before the miniature is drawn anew, in milliseconds.
pub const SETTLE_MS: i32 = 180;

/// What the miniature is a picture of: the revision of the document and the frame that crops it,
/// or nothing where there is nothing painted and no frame. What would be drawn then is the
/// viewport, presented as the piece and frozen where it was drawn.
pub fn subject(revision: Option<u64>, frame: Option<LayerId>, painted: bool) -> (subject: Option<
    (u64, Option<LayerId>),
>)
    ensures
        subject == match revision {
            Some(revision) if frame is Some || painted => Some((revision, frame)),
            _ => None,
        },
{
    match revision {
        None => None,
        Some(revision) => if frame.is_some() || painted {
            Some((revision, frame))
        } else {
            None
        },
    }
}

/// Which drawing is the current one: a burst of edits asks for several, and each stands down
/// where a later one was asked for meanwhile.
#[derive(Clone, Copy, PartialEq, Eq, Structural, Debug)]
pub struct Debounce {
    pub ticket: u64,
}

/// What a drawing does when its delay is over.
#[derive(Clone, Copy, PartialEq, Eq, Structural, Debug)]
pub enum Settled {
    /// A later change has asked for one.
    Superseded,
    /// The canvas is in hand: wait again.
    Wait,
    Draw,
}

impl Debounce {
    /// What the drawing with ticket `mine` does when its delay is over.
    pub open spec fn outcome(self, mine: u64, canvas_active: bool) -> Settled {
        if self.ticket != mine {
            Settled::Superseded
        } else if canvas_active {
            Settled::Wait
        } else {
            Settled::Draw
        }
    }

    /// Ask for a drawing, and take its ticket.
    pub fn ask(&mut self) -> (mine: u64)
        requires
            old(self).ticket < u64::MAX,
        ensures
            mine == old(self).ticket + 1,
            final(self).ticket == mine,
    {
        self.ticket = self.ticket + 1;
        self.ticket
    }

    /// The delay of the drawing with ticket `mine` is over.
    pub fn settled(&self, mine: u64, canvas_active: bool) -> (settled: Settled)
        ensures
            settled == self.outcome(mine, canvas_active),
    {
        if self.ticket != mine {
            Settled::Superseded
        } else if canvas_active {
            Settled::Wait
        } else {
            Settled::Draw
        }
    }
}

/// Of the drawings that a burst asked for, only the last is drawn, and it is drawn as soon as the
/// canvas is not in hand.
pub proof fn law_only_the_last_of_a_burst_is_drawn(last: Debounce, earlier: u64, active: bool)
    requires
        earlier < last.ticket,
    ensures
        last.outcome(earlier, active) == Settled::Superseded,
        last.outcome(last.ticket, active) == Settled::Draw <==> !active,
{
}

/// The buttons of a pointer.
#[derive(Clone, Copy, PartialEq, Eq, Structural, Debug)]
pub enum Button {
    Primary,
    Secondary,
    Other,
}

/// What a press on the miniature started, until its release.
#[derive(Clone, Copy, PartialEq, Eq, Structural, Debug)]
pub enum NavDrag {
    /// The view follows the pointer around the piece.
    Center,
    /// The drag says which way is up, measured *from* the press, so that a place of the pointer
    /// always means the same angle.
    Turn { from: At, was: Amount },
}

/// What a pointer event on the miniature asks for.
#[derive(Clone, Copy, PartialEq, Eq, Structural, Debug)]
pub enum NavDeed {
    Nothing,
    /// Show what is under the pointer.
    CenterHere,
    /// Turn the canvas, by the vector from the press to here, having started at this angle.
    TurnBy { from: At, to: At, was: Amount },
}

/// A press: the first button goes there at once, the second says nothing until it has been
/// dragged somewhere, since a point has no direction.
pub fn press(drag: &mut Option<NavDrag>, button: Button, at: At, angle: Amount) -> (deed: NavDeed)
    ensures
        match button {
            Button::Primary => deed == NavDeed::CenterHere && *final(drag) == Some(NavDrag::Center),
            Button::Secondary => deed == NavDeed::Nothing && *final(drag) == Some(
                NavDrag::Turn { from: at, was: angle },
            ),
            Button::Other => deed == NavDeed::Nothing && *final(drag) == *old(drag),
        },
{
    match button {
        Button::Primary => {
            *drag = Some(NavDrag::Center);
            NavDeed::CenterHere
        },
        Button::Secondary => {
            *drag = Some(NavDrag::Turn { from: at, was: angle });
            NavDeed::Nothing
        },
        Button::Other => NavDeed::Nothing,
    }
}

/// The pointer moved.
pub fn follow(drag: Option<NavDrag>, at: At) -> (deed: NavDeed)
    ensures
        deed == match drag {
            None => NavDeed::Nothing,
            Some(NavDrag::Center) => NavDeed::CenterHere,
            Some(NavDrag::Turn { from, was }) => NavDeed::TurnBy { from, to: at, was },
        },
{
    match drag {
        None => NavDeed::Nothing,
        Some(NavDrag::Center) => NavDeed::CenterHere,
        Some(NavDrag::Turn { from, was }) => NavDeed::TurnBy { from, to: at, was },
    }
}

/// The pointer was let go, or taken.
pub fn release(drag: &mut Option<NavDrag>)
    ensures
        *final(drag) is None,
{
    *drag = None;
}

} // verus!
