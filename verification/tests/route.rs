//! A canvas in miniature, asking which gesture each pointer event belongs to.
use stark_ui::route::{
    admits, moved, release_lost, released, Gesture, Holder, Lift, Moves, Opens, Pointer, PointerKind,
};

const MOUSE: Pointer = Pointer {
    id: 1,
    kind: PointerKind::Mouse,
};
const PEN: Pointer = Pointer {
    id: 2,
    kind: PointerKind::Pen,
};

const fn finger(id: i32) -> Pointer {
    Pointer {
        id,
        kind: PointerKind::Touch,
    }
}

const ENDED: Lift = Lift::Ended { tap: None };

/// How long a pair may rest and still be a tap, in seconds.
const TAP_TIME: f64 = 0.25;

/// The fingers on the glass, and whether they are navigating.
#[derive(Default)]
struct Touch {
    fingers: Vec<i32>,
    most: u32,
    began: f64,
    pinching: bool,
    spoiled: bool,
}

impl Touch {
    fn is_pinching(&self) -> bool {
        self.pinching
    }

    /// Whether the finger makes a pair with the fingers already down.
    fn finger_down(&mut self, id: i32, primary: bool, now: f64) -> bool {
        if primary {
            self.fingers.clear();
        }
        if self.fingers.is_empty() {
            self.most = 0;
            self.began = now;
            self.pinching = false;
            self.spoiled = false;
        }
        self.fingers.push(id);
        self.most = self.most.max(self.fingers.len() as u32);
        self.fingers.len() >= 2
    }

    fn pinch(&mut self) {
        self.pinching = true;
    }

    /// Put the navigation down. What the fingers still down do is no longer a tap.
    fn stop(&mut self) {
        self.pinching = false;
        self.spoiled = !self.fingers.is_empty();
    }

    fn finger_up(&mut self, id: i32, now: f64) -> Lift {
        self.fingers.retain(|&f| f != id);
        if !self.fingers.is_empty() {
            return Lift::Continuing;
        }
        let tapped = !self.spoiled && self.most >= 2 && now - self.began <= TAP_TIME;
        self.pinching = false;
        Lift::Ended {
            tap: if tapped { Some(self.most) } else { None },
        }
    }
}

/// What a press's button and modifiers ask for.
#[derive(Clone, Copy, Debug)]
enum Chord {
    Plain,
    ViewDrag,
    Tune,
    Carry,
    Pick,
}

const CHORDS: [Chord; 5] = [
    Chord::Plain,
    Chord::ViewDrag,
    Chord::Tune,
    Chord::Carry,
    Chord::Pick,
];

impl Chord {
    fn gesture(self) -> Gesture {
        match self {
            Chord::Plain => Gesture::Paint,
            Chord::ViewDrag => Gesture::ViewDrag,
            Chord::Tune => Gesture::Tune,
            Chord::Carry => Gesture::Carry,
            Chord::Pick => Gesture::Pick,
        }
    }
}

#[derive(Default)]
struct Canvas {
    one: Option<(Gesture, Pointer)>,
    touch: Touch,
    now: f64,
}

impl Canvas {
    fn holder(&self) -> Option<Holder> {
        match self.one {
            Some((gesture, by)) => Some(Holder::Gesture(gesture, by)),
            None => self.touch.is_pinching().then_some(Holder::Pinch),
        }
    }

    fn put_down(&mut self) {
        self.one = None;
        self.touch.stop();
    }

    fn press(&mut self, pointer: Pointer, primary: bool, chord: Chord) -> Option<Opens> {
        if release_lost(self.holder(), pointer, primary) {
            self.put_down();
        }
        if pointer.kind == PointerKind::Touch
            && self.touch.finger_down(pointer.id, primary, self.now)
            && admits(self.holder(), Opens::Pinch)
        {
            self.one = None;
            self.touch.pinch();
            return Some(Opens::Pinch);
        }
        let opened = [chord.gesture(), Gesture::Paint]
            .into_iter()
            .find(|&gesture| admits(self.holder(), Opens::Gesture(gesture)))?;
        self.one = Some((opened, pointer));
        Some(Opens::Gesture(opened))
    }

    fn moves(&self, pointer: Pointer) -> Moves {
        moved(self.holder(), pointer)
    }

    fn release(&mut self, pointer: Pointer) -> Lift {
        let holder = self.holder();
        let fingers = if pointer.kind == PointerKind::Touch {
            Some(self.touch.finger_up(pointer.id, self.now))
        } else {
            None
        };
        let lift = released(holder, pointer, fingers);
        if lift != Lift::Continuing {
            self.put_down();
        }
        lift
    }
}

/// Opened by `pointer` alone on an empty canvas.
fn holding(gesture: Gesture, pointer: Pointer) -> Canvas {
    let mut canvas = Canvas::default();
    let chord = CHORDS
        .into_iter()
        .find(|c| c.gesture() == gesture)
        .expect("every gesture has a chord");
    assert_eq!(
        canvas.press(pointer, true, chord),
        Some(Opens::Gesture(gesture))
    );
    canvas
}

#[test]
fn one_pointer_alone_presses_moves_and_releases_as_it_always_did() {
    for pointer in [MOUSE, PEN, finger(5)] {
        for chord in CHORDS {
            let mut canvas = Canvas::default();
            let opened = Opens::Gesture(chord.gesture());
            assert_eq!(canvas.press(pointer, true, chord), Some(opened));
            assert_eq!(
                canvas.moves(pointer),
                Moves::Holder,
                "{pointer:?} {chord:?}"
            );
            assert_eq!(canvas.release(pointer), ENDED, "{pointer:?} {chord:?}");
            assert_eq!(canvas.holder(), None);
            assert_eq!(canvas.moves(pointer), Moves::Free, "a hover again");
        }
    }
}

#[test]
fn a_quick_still_pair_is_a_pinch_that_lifts_as_a_tap() {
    let mut canvas = Canvas::default();
    let paint = Some(Opens::Gesture(Gesture::Paint));
    assert_eq!(canvas.press(finger(5), true, Chord::Plain), paint);
    assert_eq!(
        canvas.press(finger(6), false, Chord::Plain),
        Some(Opens::Pinch)
    );
    assert_eq!(
        canvas.press(finger(7), false, Chord::Plain),
        Some(Opens::Pinch)
    );
    canvas.now = TAP_TIME * 0.5;
    assert_eq!(canvas.release(finger(6)), Lift::Continuing);
    assert_eq!(canvas.release(finger(5)), Lift::Continuing);
    assert_eq!(canvas.release(finger(7)), Lift::Ended { tap: Some(3) });
}

#[test]
fn a_one_pointer_gesture_refuses_every_second_press_and_its_release_still_ends_it() {
    for held in [
        Gesture::ViewDrag,
        Gesture::Tune,
        Gesture::Carry,
        Gesture::Pick,
    ] {
        for (by, second) in [
            (MOUSE, PEN),
            (MOUSE, finger(5)),
            (PEN, MOUSE),
            (PEN, finger(5)),
        ] {
            for chord in CHORDS {
                let mut canvas = holding(held, by);
                let before = canvas.holder();
                assert_eq!(
                    canvas.press(second, true, chord),
                    None,
                    "{held:?} {chord:?}"
                );
                assert_eq!(canvas.holder(), before, "{held:?} kept under {chord:?}");
                assert_eq!(canvas.moves(second), Moves::Ignored);
                assert_eq!(canvas.release(second), Lift::Continuing);
                assert_eq!(canvas.release(by), ENDED);
            }
        }
    }
}

#[test]
fn paint_yields_to_every_press() {
    for chord in [Chord::ViewDrag, Chord::Tune, Chord::Carry, Chord::Pick] {
        let mut canvas = holding(Gesture::Paint, PEN);
        let opened = Opens::Gesture(chord.gesture());
        assert_eq!(canvas.press(MOUSE, true, chord), Some(opened));
        assert_eq!(canvas.release(PEN), Lift::Continuing, "the stroke went");
        assert_eq!(canvas.release(MOUSE), ENDED);
    }
}

#[test]
fn a_pinch_admits_a_finger_joining_it_and_nothing_else() {
    let mut canvas = holding(Gesture::Paint, finger(5));
    assert_eq!(
        canvas.press(finger(6), false, Chord::Plain),
        Some(Opens::Pinch)
    );
    for pointer in [MOUSE, PEN] {
        for chord in CHORDS {
            assert_eq!(canvas.press(pointer, true, chord), None, "{chord:?}");
            assert_eq!(canvas.moves(pointer), Moves::Ignored);
            assert_eq!(canvas.release(pointer), Lift::Continuing);
        }
    }
    assert_eq!(
        canvas.press(finger(7), false, Chord::Tune),
        Some(Opens::Pinch)
    );
    assert_eq!(canvas.moves(finger(7)), Moves::Holder);
}

/// A refused palm's count must not veto the holder's own release.
#[test]
fn the_holders_release_ends_its_gesture_past_a_resting_palm() {
    for held in [Gesture::Tune, Gesture::Carry] {
        let mut canvas = holding(held, finger(5));
        assert_eq!(canvas.press(finger(6), false, Chord::Plain), None);
        assert_eq!(canvas.moves(finger(6)), Moves::Ignored);
        assert_eq!(canvas.release(finger(5)), ENDED, "{held:?}");
        assert_eq!(canvas.release(finger(6)), ENDED, "no tap");
        assert_eq!(
            canvas.press(finger(7), true, Chord::Plain),
            Some(Opens::Gesture(Gesture::Paint)),
            "{held:?} left the canvas free"
        );
    }
}

#[test]
fn a_pair_of_fingers_cannot_take_over_a_view_drag() {
    let mut canvas = holding(Gesture::ViewDrag, MOUSE);
    assert_eq!(canvas.press(finger(5), true, Chord::Plain), None);
    assert_eq!(canvas.press(finger(6), false, Chord::Plain), None);
    assert_eq!(canvas.moves(MOUSE), Moves::Holder);
    assert_eq!(canvas.moves(finger(6)), Moves::Ignored);
    assert_eq!(canvas.release(MOUSE), ENDED);
    assert_eq!(canvas.moves(MOUSE), Moves::Free, "a hover, not a pan");
}

#[test]
fn a_palm_under_a_held_chord_opens_nothing() {
    for chord in [Chord::Tune, Chord::Carry, Chord::Pick] {
        let mut canvas = holding(chord.gesture(), MOUSE);
        assert_eq!(canvas.press(finger(5), true, chord), None);
        assert_eq!(
            canvas.holder(),
            Some(Holder::Gesture(chord.gesture(), MOUSE))
        );
    }
}

/// A touch, and a pen re-identified after leaving range, come back with a new id.
#[test]
fn a_release_lost_by_each_kind_of_pointer_is_recovered_by_its_next_press() {
    let paint = Some(Opens::Gesture(Gesture::Paint));
    let returning = [
        (MOUSE, MOUSE),
        (PEN, Pointer { id: 3, ..PEN }),
        (finger(5), finger(8)),
    ];
    for (by, next) in returning {
        for held in [
            Gesture::ViewDrag,
            Gesture::Tune,
            Gesture::Carry,
            Gesture::Pick,
            Gesture::Paint,
        ] {
            let mut canvas = holding(held, by);
            assert_eq!(
                canvas.press(next, true, Chord::Plain),
                paint,
                "{by:?} {held:?}"
            );
            assert_eq!(canvas.holder(), Some(Holder::Gesture(Gesture::Paint, next)));
        }
    }

    let mut pinch = holding(Gesture::Paint, finger(5));
    assert_eq!(
        pinch.press(finger(6), false, Chord::Plain),
        Some(Opens::Pinch)
    );
    assert_eq!(
        pinch.press(finger(9), true, Chord::Plain),
        paint,
        "a lone finger"
    );
}

#[test]
fn a_second_finger_under_a_finger_is_refused_rather_than_taken_for_a_lost_release() {
    let mut canvas = holding(Gesture::Tune, finger(5));
    assert_eq!(canvas.press(finger(6), false, Chord::Tune), None);
    assert_eq!(
        canvas.holder(),
        Some(Holder::Gesture(Gesture::Tune, finger(5)))
    );
}

#[test]
fn a_pair_refused_under_a_carry_is_no_tap_when_the_carry_ends() {
    let mut canvas = holding(Gesture::Carry, MOUSE);
    assert_eq!(canvas.press(finger(5), true, Chord::Plain), None);
    assert_eq!(canvas.press(finger(6), false, Chord::Plain), None);
    assert_eq!(canvas.release(MOUSE), ENDED);
    canvas.now = TAP_TIME * 0.5;
    assert_eq!(canvas.release(finger(5)), Lift::Continuing);
    assert_eq!(canvas.release(finger(6)), ENDED);
}

#[test]
fn a_pinch_begun_by_a_finger_that_rested_under_a_gesture_is_no_tap() {
    let mut canvas = holding(Gesture::Carry, MOUSE);
    assert_eq!(canvas.press(finger(5), true, Chord::Plain), None);
    assert_eq!(canvas.release(MOUSE), ENDED);
    assert_eq!(
        canvas.press(finger(6), false, Chord::Plain),
        Some(Opens::Pinch)
    );
    canvas.now = TAP_TIME * 0.5;
    assert_eq!(canvas.release(finger(5)), Lift::Continuing);
    assert_eq!(canvas.release(finger(6)), ENDED);
}

#[test]
fn a_refused_pair_then_the_holders_release_leaves_the_canvas_free() {
    let mut canvas = holding(Gesture::Tune, PEN);
    assert_eq!(canvas.press(finger(5), true, Chord::Plain), None);
    assert_eq!(canvas.press(finger(6), false, Chord::Plain), None);
    assert_eq!(canvas.release(PEN), ENDED);
    assert_eq!(
        canvas.release(finger(6)),
        Lift::Continuing,
        "a hand still down"
    );
    assert_eq!(canvas.release(finger(5)), ENDED);
    assert_eq!(
        canvas.press(PEN, true, Chord::Plain),
        Some(Opens::Gesture(Gesture::Paint))
    );
}

#[test]
fn a_pick_keeps_the_canvas_past_a_palm() {
    let mut canvas = holding(Gesture::Pick, PEN);
    assert_eq!(canvas.press(finger(5), true, Chord::Pick), None);
    assert_eq!(canvas.press(finger(6), false, Chord::Plain), None);
    assert_eq!(canvas.moves(finger(5)), Moves::Ignored);
    assert_eq!(canvas.moves(PEN), Moves::Holder);
    assert_eq!(canvas.release(finger(5)), Lift::Continuing);
    assert_eq!(canvas.holder(), Some(Holder::Gesture(Gesture::Pick, PEN)));
    assert_eq!(canvas.release(PEN), ENDED);
}

#[test]
fn under_a_stroke_another_pointer_moves_freely_for_paint_to_judge() {
    let canvas = holding(Gesture::Paint, PEN);
    assert_eq!(canvas.moves(PEN), Moves::Holder);
    assert_eq!(canvas.moves(finger(5)), Moves::Free);
}

#[test]
fn only_a_pinch_carries_a_tap() {
    let tapped = Some(Lift::Ended { tap: Some(2) });
    assert_eq!(released(Some(Holder::Pinch), finger(5), tapped), tapped.unwrap());
    assert_eq!(released(Some(Holder::Pinch), finger(5), None), ENDED);
    assert_eq!(released(None, finger(5), tapped), ENDED);
    let carry = Some(Holder::Gesture(Gesture::Carry, finger(5)));
    assert_eq!(released(carry, finger(5), tapped), ENDED);
    assert_eq!(released(carry, finger(6), tapped), Lift::Continuing);
}
