//! Which gesture a canvas's pointer event belongs to once a second pointer is down.
//!
//! A canvas holds at most one gesture. A [`Holder`] is built from the gesture's own record
//! of its pointer on every event, so nothing here keeps a copy that could disagree with it.
use vstd::prelude::*;

verus! {

/// What kind of device a pointer is.
#[derive(Clone, Copy, PartialEq, Eq, Structural, Debug)]
pub enum PointerKind {
    Mouse,
    Pen,
    Touch,
}

/// What a lift leaves behind.
#[derive(Clone, Copy, PartialEq, Eq, Structural, Debug)]
pub enum Lift {
    /// Something is still down.
    Continuing,
    /// The gesture is over; `tap` is how many fingers tapped, if it was a tap.
    Ended { tap: Option<u32> },
}

/// The pointer that pressed a gesture. The kind rides with the id because a touch
/// contact, or a pen back in range, can return with a new id after a lost release.
#[derive(Clone, Copy, PartialEq, Eq, Structural, Debug)]
pub struct Pointer {
    pub id: i32,
    pub kind: PointerKind,
}

/// The canvas gestures a single pointer holds.
#[derive(Clone, Copy, PartialEq, Eq, Structural, Debug)]
pub enum Gesture {
    /// A middle-drag or a space-drag moving the view.
    ViewDrag,
    /// The brush-tuning drag.
    Tune,
    /// The layer carry, until its release. One awaiting its readback holds nothing.
    Carry,
    /// The eyedropper, from the chord's press or a finger's hold.
    Pick,
    /// A stroke or a marquee, or a finger's press held in front of one.
    Paint,
}

/// What holds the canvas.
#[derive(Clone, Copy, PartialEq, Eq, Structural, Debug)]
pub enum Holder {
    /// Fingers navigating, from the second landing to the last lift. Every finger down
    /// is the pinch's.
    Pinch,
    Gesture(Gesture, Pointer),
}

/// What a press asks to open.
#[derive(Clone, Copy, PartialEq, Eq, Structural, Debug)]
pub enum Opens {
    /// A finger making a pair with the fingers already down.
    Pinch,
    Gesture(Gesture),
}

/// Where a move goes.
#[derive(Clone, Copy, PartialEq, Eq, Structural, Debug)]
pub enum Moves {
    /// The holder's own pointer: its gesture advances.
    Holder,
    /// Another pointer under a gesture that does not yield: not even a hover or the
    /// cursor peers see.
    Ignored,
    /// Nothing shuts it out, so paint or the hover decides.
    Free,
}

/// A lift that ends a gesture and taps nothing.
pub open spec fn ended() -> Lift {
    Lift::Ended { tap: None }
}

impl Holder {
    /// The pointer is the holder's: any finger under a pinch, else the one that pressed.
    pub open spec fn owns(self, pointer: Pointer) -> bool {
        match self {
            Holder::Pinch => pointer.kind == PointerKind::Touch,
            Holder::Gesture(_, by) => by.id == pointer.id,
        }
    }

    /// The kind of pointer that holds.
    pub open spec fn held_by(self) -> PointerKind {
        match self {
            Holder::Pinch => PointerKind::Touch,
            Holder::Gesture(_, by) => by.kind,
        }
    }

    /// The holder is a stroke, which any press may take the canvas from.
    pub open spec fn gives_way(self) -> bool {
        self matches Holder::Gesture(Gesture::Paint, _)
    }

    pub fn holds(self, pointer: Pointer) -> (held: bool)
        ensures
            held == self.owns(pointer),
    {
        match self {
            Holder::Pinch => pointer.kind == PointerKind::Touch,
            Holder::Gesture(_, by) => by.id == pointer.id,
        }
    }

    pub fn kind(self) -> (kind: PointerKind)
        ensures
            kind == self.held_by(),
    {
        match self {
            Holder::Pinch => PointerKind::Touch,
            Holder::Gesture(_, by) => by.kind,
        }
    }

    /// Whether any press may take the canvas from it. Only paint: a finger's stroke is
    /// the opening half of a pinch, and a chord pressed over a stroke means the chord.
    pub fn yields(self) -> (yields: bool)
        ensures
            yields == self.gives_way(),
    {
        matches!(self, Holder::Gesture(Gesture::Paint, _))
    }
}

/// A press of `pointer` shows that the holder's release never arrived: the pointer that
/// pressed the gesture presses again, or a primary pointer of the holder's kind presses,
/// which says no other of that kind is down.
pub open spec fn shows_lost_release(holder: Option<Holder>, pointer: Pointer, primary: bool) -> bool {
    match holder {
        None => false,
        Some(held) => {
            ||| held is Gesture && held.owns(pointer)
            ||| primary && pointer.kind == held.held_by()
        },
    }
}

/// A press may open `opens` under `holder`: the canvas is free, or held by paint, or a
/// pinch is asked for and held.
pub open spec fn lets_in(holder: Option<Holder>, opens: Opens) -> bool {
    match holder {
        None => true,
        Some(held) => held.gives_way() || held is Pinch && opens is Pinch,
    }
}

/// Where a move of `pointer` goes under `holder`.
pub open spec fn destination(holder: Option<Holder>, pointer: Pointer) -> Moves {
    match holder {
        None => Moves::Free,
        Some(held) => if held.owns(pointer) {
            Moves::Holder
        } else if held.gives_way() {
            Moves::Free
        } else {
            Moves::Ignored
        },
    }
}

/// What a release of `pointer` under `holder` comes to, the finger set having said
/// `fingers`.
pub open spec fn after_release(
    holder: Option<Holder>,
    pointer: Pointer,
    fingers: Option<Lift>,
) -> Lift {
    match holder {
        None => if fingers == Some(Lift::Continuing) {
            Lift::Continuing
        } else {
            ended()
        },
        Some(held) => if !held.owns(pointer) {
            Lift::Continuing
        } else if held is Pinch && fingers is Some {
            fingers->0
        } else {
            ended()
        },
    }
}

/// Whether a press of `pointer` proves the holder's release never arrived, so the
/// holder must be put down before the press is read.
///
/// The holder's own pointer cannot press while down, and a **primary** pointer means
/// no other of its kind is down.
pub fn release_lost(holder: Option<Holder>, pointer: Pointer, primary: bool) -> (lost: bool)
    ensures
        lost == shows_lost_release(holder, pointer, primary),
{
    match holder {
        None => false,
        Some(held) => {
            let pressed_again: bool = match held {
                Holder::Pinch => false,
                Holder::Gesture(_, by) => by.id == pointer.id,
            };
            pressed_again || primary && pointer.kind == held.kind()
        },
    }
}

/// Whether a press may open `opens` while `holder` holds the canvas.
///
/// Paint yields to anything, and a pinch admits only a further finger. Every other
/// gesture refuses a second press, even of the same kind, since a takeover would strand
/// the first pointer's record.
pub fn admits(holder: Option<Holder>, opens: Opens) -> (admitted: bool)
    ensures
        admitted == lets_in(holder, opens),
{
    match holder {
        None => true,
        Some(held) => if held.yields() {
            true
        } else {
            match held {
                Holder::Pinch => matches!(opens, Opens::Pinch),
                Holder::Gesture(_, _) => false,
            }
        },
    }
}

/// Whose a move of `pointer` is while `holder` holds the canvas.
pub fn moved(holder: Option<Holder>, pointer: Pointer) -> (moves: Moves)
    ensures
        moves == destination(holder, pointer),
{
    match holder {
        None => Moves::Free,
        Some(held) => if held.holds(pointer) {
            Moves::Holder
        } else if held.yields() {
            Moves::Free
        } else {
            Moves::Ignored
        },
    }
}

/// What a release or cancel of `pointer` does, `holder` being what held the canvas
/// **before** it, and `fingers` what the finger set said about it (`None` for a pointer
/// that is not a finger).
///
/// A one-pointer gesture ends on its own pointer's release alone. Only a pinch is ended
/// by the finger count and carries a tap: a refused pair means nothing by lifting.
pub fn released(holder: Option<Holder>, pointer: Pointer, fingers: Option<Lift>) -> (lift: Lift)
    ensures
        lift == after_release(holder, pointer, fingers),
{
    match holder {
        Some(held) => if !held.holds(pointer) {
            Lift::Continuing
        } else {
            match (held, fingers) {
                (Holder::Pinch, Some(said)) => said,
                _ => Lift::Ended { tap: None },
            }
        },
        // Nothing to end, and no tail to run while a hand is still on the glass.
        None => match fingers {
            Some(Lift::Continuing) => Lift::Continuing,
            _ => Lift::Ended { tap: None },
        },
    }
}

/// One pointer alone is never refused: on a free canvas any press opens, loses no
/// release, moves freely, and its release ends unless a finger is still down.
pub proof fn law_one_pointer_alone_is_never_refused(
    pointer: Pointer,
    primary: bool,
    opens: Opens,
    fingers: Option<Lift>,
)
    ensures
        !shows_lost_release(None, pointer, primary),
        lets_in(None, opens),
        destination(None, pointer) == Moves::Free,
        fingers != Some(Lift::Continuing) ==> after_release(None, pointer, fingers) == ended(),
{
}

/// A gesture's own pointer moves it and its release ends it, whatever the finger set
/// says and whichever gesture it is.
pub proof fn law_holder_release_ends_its_gesture(
    gesture: Gesture,
    by: Pointer,
    pointer: Pointer,
    fingers: Option<Lift>,
)
    requires
        pointer.id == by.id,
    ensures
        destination(Some(Holder::Gesture(gesture, by)), pointer) == Moves::Holder,
        after_release(Some(Holder::Gesture(gesture, by)), pointer, fingers) == ended(),
{
}

/// A gesture's own pointer pressing again always shows a lost release, primary or not.
pub proof fn law_second_press_of_the_holder_shows_a_lost_release(
    gesture: Gesture,
    by: Pointer,
    pointer: Pointer,
    primary: bool,
)
    requires
        pointer.id == by.id,
    ensures
        shows_lost_release(Some(Holder::Gesture(gesture, by)), pointer, primary),
{
}

/// A press that is not primary loses no release of another pointer: a second finger
/// under a finger is refused rather than taken for the first one's return.
pub proof fn law_a_further_pointer_loses_no_release(gesture: Gesture, by: Pointer, pointer: Pointer)
    requires
        pointer.id != by.id,
    ensures
        !shows_lost_release(Some(Holder::Gesture(gesture, by)), pointer, false),
        !shows_lost_release(Some(Holder::Pinch), pointer, false),
{
}

/// Paint gives the canvas to every press and leaves every other pointer's move free.
pub proof fn law_paint_yields_to_every_press(by: Pointer, opens: Opens, other: Pointer)
    requires
        other.id != by.id,
    ensures
        lets_in(Some(Holder::Gesture(Gesture::Paint, by)), opens),
        destination(Some(Holder::Gesture(Gesture::Paint, by)), other) == Moves::Free,
{
}

/// A pinch admits a further finger and nothing else, and ignores every pointer that is
/// not a finger, whose release leaves it going.
pub proof fn law_pinch_admits_only_a_further_finger(
    opens: Opens,
    pointer: Pointer,
    fingers: Option<Lift>,
)
    ensures
        lets_in(Some(Holder::Pinch), opens) == (opens == Opens::Pinch),
        pointer.kind == PointerKind::Touch ==> destination(Some(Holder::Pinch), pointer)
            == Moves::Holder,
        pointer.kind != PointerKind::Touch ==> {
            &&& destination(Some(Holder::Pinch), pointer) == Moves::Ignored
            &&& after_release(Some(Holder::Pinch), pointer, fingers) == Lift::Continuing
        },
{
}

/// Every gesture but paint refuses every second press, ignores every other pointer's
/// moves, and outlives every other pointer's release.
pub proof fn law_other_gestures_refuse_every_second_press(
    gesture: Gesture,
    by: Pointer,
    opens: Opens,
    other: Pointer,
    fingers: Option<Lift>,
)
    requires
        gesture != Gesture::Paint,
        other.id != by.id,
    ensures
        !lets_in(Some(Holder::Gesture(gesture, by)), opens),
        destination(Some(Holder::Gesture(gesture, by)), other) == Moves::Ignored,
        after_release(Some(Holder::Gesture(gesture, by)), other, fingers) == Lift::Continuing,
{
}

/// Only a pinch carries a tap: a release under anything else ends with none.
pub proof fn law_only_a_pinch_carries_a_tap(
    holder: Option<Holder>,
    pointer: Pointer,
    fingers: Option<Lift>,
)
    requires
        after_release(holder, pointer, fingers) matches Lift::Ended { tap: Some(_) },
    ensures
        holder == Some(Holder::Pinch),
        pointer.kind == PointerKind::Touch,
        fingers == Some(after_release(holder, pointer, fingers)),
{
}

/// A primary press shows a lost release of any pointer of its own kind, and of no other but the
/// one that pressed: a second pen is the first one back, a pen over a finger is not.
pub proof fn law_a_primary_press_is_the_only_one_of_its_kind(
    gesture: Gesture,
    by: Pointer,
    pointer: Pointer,
)
    ensures
        shows_lost_release(Some(Holder::Gesture(gesture, by)), pointer, true) <==> (pointer.kind
            == by.kind || pointer.id == by.id),
        shows_lost_release(Some(Holder::Pinch), pointer, true) <==> pointer.kind
            == PointerKind::Touch,
{
}

/// A finger lifted from a pinch leaves what the finger set says, tap and all, and ends it where
/// the set says nothing.
pub proof fn law_a_pinch_ends_by_the_count_of_its_fingers(pointer: Pointer, said: Lift)
    requires
        pointer.kind == PointerKind::Touch,
    ensures
        after_release(Some(Holder::Pinch), pointer, Some(said)) == said,
        after_release(Some(Holder::Pinch), pointer, None) == (Lift::Ended { tap: None }),
{
}

/// A stroke outlives every other pointer's release, and a free canvas is not done with while a
/// hand is still on the glass.
pub proof fn law_a_release_that_is_not_the_last_goes_on(
    gesture: Gesture,
    by: Pointer,
    other: Pointer,
    fingers: Option<Lift>,
)
    requires
        other.id != by.id,
    ensures
        after_release(Some(Holder::Gesture(gesture, by)), other, fingers) == Lift::Continuing,
        after_release(None, other, Some(Lift::Continuing)) == Lift::Continuing,
        fingers != Some(Lift::Continuing) ==> after_release(None, other, fingers) == (Lift::Ended {
            tap: None,
        }),
{
}

/// The decisions on a press, a move and a release are those that these laws speak of.
pub proof fn law_the_canvas_decides_by_its_holder(
    holder: Option<Holder>,
    pointer: Pointer,
    primary: bool,
    opens: Opens,
    fingers: Option<Lift>,
    lost: bool,
    admitted: bool,
    moves: Moves,
    lift: Lift,
)
    requires
        call_ensures(release_lost, (holder, pointer, primary), lost),
        call_ensures(admits, (holder, opens), admitted),
        call_ensures(moved, (holder, pointer), moves),
        call_ensures(released, (holder, pointer, fingers), lift),
    ensures
        lost == shows_lost_release(holder, pointer, primary),
        admitted == lets_in(holder, opens),
        moves == destination(holder, pointer),
        lift == after_release(holder, pointer, fingers),
        moves is Holder ==> lift is Ended || holder == Some(Holder::Pinch),
        moves is Ignored ==> lift is Continuing && (admitted ==> holder == Some(Holder::Pinch)),
{
}

} // verus!
