//! Rows of a list carried past one another. Lengths are in 64ths of a pixel.
use stark_ui::reorder::{claimed, Extent, Grab, Motion, RowBox, Slide, GRAB_SLOP, PX};

const H: i32 = 20 * PX;
const GAP: i32 = 8 * PX;
const STEP: i32 = H + GAP;
const FIRST: i32 = 100 * PX;

fn boxes(n: usize) -> Vec<Extent> {
    (0..n)
        .map(|i| Extent {
            top: FIRST + i as i32 * STEP,
            height: H,
        })
        .collect()
}

fn step(rows: i64) -> i64 {
    rows * STEP as i64
}

/// One row moved down past its neighbours, a row at a time.
#[test]
fn a_row_yields_when_the_leading_edge_passes_its_centre() {
    let b = boxes(4);
    for (dy, gap) in [(0, 0), (step(1), 1), (step(2), 2), (step(9), 3)] {
        let s = Slide::resolve(&b, (0, 0), dy).expect("resolves");
        assert_eq!(s.gap, gap, "{dy} down");
    }
}

/// And up, where the *top* edge is what leads.
#[test]
fn dragging_up_leads_with_the_top_edge() {
    let b = boxes(4);
    for (dy, gap) in [(0, 3), (step(-1), 2), (step(-2), 1), (step(-9), 0)] {
        let s = Slide::resolve(&b, (3, 3), dy).expect("resolves");
        assert_eq!(s.gap, gap, "{dy} up");
    }
}

#[test]
fn the_slot_is_the_size_of_what_goes_into_it() {
    let b = boxes(5);
    let one = Slide::resolve(&b, (0, 0), step(1)).expect("resolves");
    let three = Slide::resolve(&b, (0, 2), step(3)).expect("resolves");
    assert_eq!(one.step, step(1));
    assert_eq!(three.step, step(3));
}

#[test]
fn only_the_rows_the_block_crossed_slide() {
    let b = boxes(4);
    let s = Slide::resolve(&b, (0, 0), step(2)).expect("resolves");
    assert_eq!(s.gap, 2);
    assert_eq!(s.motion(0, (0, 3520)).shift, (0, 3520), "the block itself");
    assert!(s.motion(0, (0, 3520)).lifted);
    assert_eq!(s.motion(1, (0, 0)).shift, (0, -s.step), "closed up");
    assert_eq!(s.motion(2, (0, 0)).shift, (0, -s.step), "closed up");
    assert_eq!(s.motion(3, (0, 0)).shift, (0, 0), "never crossed");
}

#[test]
fn a_press_becomes_a_drag_once_and_stays_one() {
    let mut g = Grab::begin("a", Vec::<RowBox>::new(), (0, 0));
    assert!(!g.live());
    g.track((0, GRAB_SLOP), true);
    assert!(!g.live(), "the slop itself is still a click");
    g.track((0, GRAB_SLOP + PX), true);
    assert!(g.live());
    g.track((0, 0), true);
    assert!(g.live(), "back where it started is still a drag");
}

#[test]
fn a_spent_grab_is_not_re_armed_by_the_hover_behind_it() {
    let mut g = Grab::begin("a", Vec::<RowBox>::new(), (0, 0));
    g.track((0, 8 * GRAB_SLOP), true);
    assert!(g.live());
    g.spend();
    for at in [(0, 8 * GRAB_SLOP), (30 * PX, 200 * PX)] {
        g.track(at, false);
        assert!(!g.live(), "a hover at {at:?} woke a spent grab");
        g.track(at, true);
        assert!(!g.live(), "a press at {at:?} woke a spent grab");
    }
    assert!(g.over(), "and it is still the receipt the click needs");
}

#[test]
fn a_move_with_nothing_held_ends_the_gesture() {
    let mut g = Grab::begin("a", Vec::<RowBox>::new(), (0, 0));
    g.track((0, 8 * GRAB_SLOP), true);
    assert!(g.live());
    g.track((0, 9 * GRAB_SLOP), false);
    assert!(!g.live(), "the press is not down, so there is no drag");
    assert!(g.over());
}

#[test]
fn an_unmeasured_row_abandons_the_gesture() {
    let measured: Vec<RowBox> = vec![
        ("a".to_string(), 0, H).into(),
        ("b".to_string(), STEP, H).into(),
    ];
    let g = Grab::begin("a", measured, (0, 0));
    let keys = |ks: &[&str]| ks.iter().map(|s| s.to_string()).collect::<Vec<_>>();
    assert_eq!(g.resolve(&keys(&["a", "b"])).map(|(i, _)| i), Some(0));
    assert!(g.resolve(&keys(&["a", "b", "c"])).is_none(), "c has no box");
    assert!(
        g.resolve(&keys(&["b"])).is_none(),
        "the grabbed row is gone"
    );
}

#[test]
fn a_resting_row_still_states_its_transform() {
    let css = Motion::default().css();
    assert!(css.contains("translate(0px, 0px)"), "{css}");
    assert!(css.contains("transition: none"), "{css}");
}

#[test]
fn a_block_dragged_up_takes_the_rows_it_passed_with_it() {
    let b = boxes(5);
    let s = Slide::resolve(&b, (2, 3), step(-2)).expect("resolves");
    assert_eq!(s.gap, 0);
    assert_eq!(s.step, step(2));
    assert_eq!(s.motion(0, (0, 0)).shift, (0, s.step), "opened");
    assert_eq!(s.motion(1, (0, 0)).shift, (0, s.step), "opened");
    assert!(s.motion(2, (0, -2560)).lifted);
    assert!(s.motion(3, (0, -2560)).lifted);
    assert_eq!(s.motion(4, (0, 0)).shift, (0, 0), "never crossed");
}

/// The two halves of a slide have to describe the same list.
#[test]
fn what_the_shifts_draw_is_the_order_the_gap_commits() {
    for n in 1..=6usize {
        let b = boxes(n);
        for start in 0..n {
            for end in start..n {
                for k in -(n as i64)..=(n as i64) {
                    let dy = step(k);
                    let s = Slide::resolve(&b, (start, end), dy).expect("resolves");

                    let mut drawn: Vec<(usize, i64)> = (0..n)
                        .map(|i| {
                            let m = s.motion(i, (0, dy));
                            (i, b[i].top as i64 + m.shift.1)
                        })
                        .collect();
                    drawn.sort_by_key(|row| row.1);
                    let drawn: Vec<usize> = drawn.into_iter().map(|(i, _)| i).collect();

                    let mut rest: Vec<usize> = (0..n).filter(|i| *i < start || *i > end).collect();
                    let block: Vec<usize> = (start..=end).collect();
                    let mut committed = rest.split_off(s.gap);
                    let mut landed = rest;
                    landed.extend(block);
                    landed.append(&mut committed);

                    assert_eq!(drawn, landed, "n={n} block=({start},{end}) dy={k} rows");
                }
            }
        }
    }
}

#[test]
fn a_block_outside_the_list_does_not_resolve() {
    let b = boxes(3);
    assert!(Slide::resolve(&b, (0, 3), 0).is_none());
    assert!(Slide::resolve(&b, (2, 1), 0).is_none());
    assert!(Slide::resolve(&[], (0, 0), 0).is_none());
}

#[test]
fn no_travel_is_inert_and_either_end_can_be_reached() {
    let b = boxes(5);
    let still = Slide::resolve(&b, (1, 2), 0).unwrap();
    assert!(still.inert());
    assert_eq!(Slide::resolve(&b, (1, 2), step(40)).unwrap().gap, 3);
    assert_eq!(Slide::resolve(&b, (1, 2), step(-40)).unwrap().gap, 0);
}

#[test]
fn a_row_eases_and_a_lifted_one_does_not() {
    let b = boxes(3);
    let s = Slide::resolve(&b, (0, 0), step(1)).unwrap();
    let lifted = s.motion(0, (-96, 32));
    assert_eq!(
        lifted.css(),
        "transform: translate(-1.5px, 0.5px); transition: none;"
    );
    assert_eq!(lifted.class(), " dragging");
    let eased = s.motion(1, (0, 0)).css();
    assert!(eased.starts_with("transform: translate(0px, -28px); transition: transform 180ms"), "{eased}");
    assert_eq!(s.motion(1, (0, 0)).class(), "");
}

#[test]
fn a_click_behind_a_drop_belongs_to_the_drag() {
    let mut none: Option<Grab> = None;
    assert!(!claimed(&mut none));
    let mut grab = Some(Grab::begin("a", Vec::new(), (5, 7)));
    assert!(!claimed(&mut grab), "a press that is still a click");
    assert!(grab.is_none(), "the next press starts clean");
    let mut grab = Some(Grab::begin("a", Vec::new(), (5, 7)));
    if let Some(g) = grab.as_mut() {
        g.track((5, 7 + 8 * GRAB_SLOP), true);
        assert_eq!(g.delta(), (0, 8 * GRAB_SLOP as i64));
        g.spend();
    }
    assert!(claimed(&mut grab), "the drop's own click");
    assert!(grab.is_none());
}

/// Rows that have no height yet, on top of one another or spaced out, sort into the order that
/// is committed: by where they are drawn, and by where they were where that is one place.
#[test]
fn rows_of_no_height_are_drawn_in_the_order_they_commit() {
    for spacing in [0, GAP] {
        let b: Vec<Extent> = (0..5)
            .map(|i| Extent { top: FIRST + i * spacing, height: 0 })
            .collect();
        for block in [(0, 0), (1, 2), (3, 4)] {
            for dy in [-5 * i64::from(GAP), -64, -1, 0, 1, 64, 5 * i64::from(GAP)] {
                let s = Slide::resolve(&b, block, dy).expect("resolves");
                let mut drawn: Vec<(i64, usize)> = (0..b.len())
                    .map(|i| (i64::from(b[i].top) + s.motion(i, (0, dy)).shift.1, i))
                    .collect();
                drawn.sort_unstable();
                let mut order: Vec<usize> =
                    (0..b.len()).filter(|i| *i < block.0 || *i > block.1).collect();
                for (at, row) in (block.0..=block.1).enumerate() {
                    order.insert(s.gap + at, row);
                }
                let sorted: Vec<usize> = drawn.iter().map(|(_, i)| *i).collect();
                assert_eq!(sorted, order, "{spacing} apart, {block:?} by {dy}");
            }
        }
    }
}

#[test]
fn a_block_taken_further_never_lands_sooner() {
    let b = boxes(5);
    let mut last = 0;
    for dy in (-300 * i64::from(PX)..300 * i64::from(PX)).step_by(97) {
        let gap = Slide::resolve(&b, (1, 2), dy).expect("resolves").gap;
        assert!(gap >= last, "{dy}");
        last = gap;
    }
    assert_eq!(last, 3);
}
