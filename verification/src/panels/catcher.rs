//! The surface that owns the pointer while something is being composed on the canvas.
//!
//! A press takes hold of whatever is under it, and what it took hold of is settled then:
//! crossing a boundary in the middle of a drag must not change what the hand is doing.
//! Navigation still works over the surface, and a press that becomes navigation ends a drag
//! where it stands.
use vstd::prelude::*;

verus! {

/// What a pointer event comes to.
#[derive(Clone, Copy, PartialEq, Eq, Structural, Debug)]
pub enum Caught<R> {
    /// Nothing.
    Ignore,
    /// A drag has begun: the pointer is to be held.
    Capture,
    /// The drag that took hold of this follows the pointer.
    Pull(R),
}

/// The drag in flight, by what it took hold of, and what the pointer is over while there is
/// none.
#[derive(Clone, Copy, PartialEq, Eq, Structural, Debug)]
pub struct Catcher<R> {
    pub drag: Option<R>,
    pub hover: Option<R>,
}

impl<R: Copy> Catcher<R> {
    /// What a drag in flight comes to as the pointer moves.
    pub open spec fn pulls(self, navigating: bool) -> Caught<R> {
        match self.drag {
            Some(held) if !navigating => Caught::Pull(held),
            _ => Caught::Ignore,
        }
    }

    /// No drag, and nothing under the pointer.
    pub fn idle() -> (catcher: Self)
        ensures
            catcher.drag is None,
            catcher.hover is None,
    {
        Catcher { drag: None, hover: None }
    }

    /// A press on `under`, `navigating` being whether it became navigation instead: a
    /// second finger, the middle button.
    pub fn press(&mut self, navigating: bool, primary: bool, under: R) -> (caught: Caught<R>)
        ensures
            final(self).hover == old(self).hover,
            final(self).drag == if navigating {
                None
            } else if primary {
                Some(under)
            } else {
                old(self).drag
            },
            caught == if !navigating && primary {
                Caught::<R>::Capture
            } else {
                Caught::<R>::Ignore
            },
    {
        if navigating {
            self.drag = None;
            Caught::Ignore
        } else if primary {
            self.drag = Some(under);
            Caught::Capture
        } else {
            Caught::Ignore
        }
    }

    /// The pointer moved, and is over `under`.
    pub fn follow(&mut self, navigating: bool, under: R) -> (caught: Caught<R>)
        ensures
            final(self).drag == old(self).drag,
            final(self).hover == if navigating || old(self).drag is Some {
                old(self).hover
            } else {
                Some(under)
            },
            caught == old(self).pulls(navigating),
    {
        if navigating {
            return Caught::Ignore;
        }
        match self.drag {
            Some(held) => Caught::Pull(held),
            None => {
                self.hover = Some(under);
                Caught::Ignore
            },
        }
    }

    /// The pointer was let go: the drag follows it one last time and ends. A release that
    /// was navigation's own (fingers still on the glass) changes nothing.
    pub fn release(&mut self, navigations: bool, navigating: bool, under: R) -> (caught: Caught<R>)
        ensures
            navigations ==> caught == Caught::<R>::Ignore && *final(self) == *old(self),
            !navigations ==> {
                &&& caught == old(self).pulls(navigating)
                &&& final(self).drag is None
                &&& final(self).hover == if navigating || old(self).drag is Some {
                    old(self).hover
                } else {
                    Some(under)
                }
            },
    {
        if navigations {
            return Caught::Ignore;
        }
        let caught = self.follow(navigating, under);
        self.drag = None;
        caught
    }

    /// The browser took the pointer: the drag ends where it stands.
    pub fn cancel(&mut self, navigations: bool)
        ensures
            final(self).hover == old(self).hover,
            final(self).drag == if navigations {
                old(self).drag
            } else {
                None
            },
    {
        if !navigations {
            self.drag = None;
        }
    }
}

/// What a drag took hold of is what it pulls until it ends, and while the canvas is being
/// navigated it pulls nothing. Without a drag there is nothing to pull.
pub proof fn law_a_drag_pulls_what_it_took_hold_of<R: Copy>(catcher: Catcher<R>, held: R)
    ensures
        catcher.drag == Some(held) ==> catcher.pulls(false) == Caught::Pull(held),
        catcher.pulls(true) == Caught::<R>::Ignore,
        catcher.drag is None ==> catcher.pulls(false) == Caught::<R>::Ignore,
{
}

} // verus!
