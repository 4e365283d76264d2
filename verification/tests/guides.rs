//! The guides panel, and the handles of the guide being shaped.
use stark_ui::amount::Amount;
use stark_ui::panels::guides::{
    axis_css, axis_name, catcher_class, cursor, deed, guide_label, held_axes, landing, moved,
    pair_axes, row_motion, Camera, Deed, Guide, GuideEdit, GuideRegion, Handles, Lens, Pose, Ring,
    Roster, Three,
};
use stark_ui::reorder::{Extent, Grab, RowBox, Slide, PX};

fn n(v: f32) -> Amount {
    Amount { bits: v.to_bits() }
}

/// Half the turn of the default guide, two-point at 30 degrees: where its two upright horizons
/// are, at a focal length of 900 about the origin. The level one is the line `y = 0`.
const FOCAL: f32 = 900.0;

struct View {
    drawn: [bool; 3],
}

impl View {
    fn x_at(&self) -> f32 {
        FOCAL * 30f32.to_radians().tan()
    }

    fn z_at(&self) -> f32 {
        -FOCAL / 30f32.to_radians().tan()
    }

    fn at(&self, x: f32, y: f32, zoom: f32) -> GuideRegion {
        let from = |d: f32| (d.abs() * zoom).to_bits();
        let horizon = |n: usize, d: f32| if self.drawn[n] { Some(from(d)) } else { None };
        Handles {
            center: from(x.hypot(y)),
            inner: Ring {
                error: from(x.hypot(y) - FOCAL),
                factor: 1.0f32.to_bits(),
            },
            outer: None,
            horizons: [
                horizon(0, x - self.x_at()),
                horizon(1, y),
                horizon(2, x - self.z_at()),
            ],
        }
        .at()
    }
}

fn focal() -> GuideRegion {
    GuideRegion::Focal(1.0f32.to_bits())
}

const ALL: View = View {
    drawn: [true, true, true],
};

#[test]
fn a_press_on_a_horizon_grabs_the_axis_it_turns_about() {
    assert_eq!(ALL.at(ALL.x_at(), 400.0, 1.0), GuideRegion::Horizon(0));
    assert_eq!(ALL.at(300.0, 0.0, 1.0), GuideRegion::Horizon(1));
    assert_eq!(ALL.at(ALL.z_at(), 500.0, 1.0), GuideRegion::Horizon(2));
}

#[test]
fn the_other_regions_survive_the_horizons() {
    assert_eq!(ALL.at(4.0, -3.0, 1.0), GuideRegion::Center);
    assert_eq!(ALL.at(0.0, FOCAL, 1.0), focal());
    assert_eq!(ALL.at(100.0, 300.0, 1.0), GuideRegion::Orbit);

    let near = (ALL.x_at() + 50.0, 400.0);
    assert_eq!(
        ALL.at(near.0, near.1, 1.0),
        GuideRegion::Orbit,
        "50px is a miss"
    );
    assert_eq!(
        ALL.at(near.0, near.1, 0.1),
        GuideRegion::Horizon(0),
        "and 5 screen px is a hit"
    );
}

#[test]
fn the_nearer_handle_wins_and_a_tie_goes_to_the_ring() {
    assert_eq!(ALL.at(FOCAL, 0.0, 1.0), focal(), "a dead tie is the lens");
    assert_eq!(ALL.at(FOCAL + 8.0, 2.0, 1.0), GuideRegion::Horizon(1));
    assert_eq!(ALL.at(FOCAL, 4.0, 1.0), focal());
}

#[test]
fn an_undrawn_horizon_cannot_be_grabbed() {
    let view = View {
        drawn: [false, true, true],
    };
    assert_eq!(view.at(view.x_at(), 400.0, 1.0), GuideRegion::Orbit);
    assert_eq!(view.at(300.0, 0.0, 1.0), GuideRegion::Horizon(1));
}

#[test]
fn the_index_remap_agrees_with_the_move_it_describes() {
    for n in 1..7usize {
        let list: Vec<usize> = (0..n).collect();
        for from in 0..n {
            for to in 0..n {
                let mut after = list.clone();
                let guide = after.remove(from);
                after.insert(to, guide);
                for i in 0..n {
                    assert_eq!(
                        after[moved(i, from, to)],
                        i,
                        "n={n} from={from} to={to}: guide {i} is not where it was sent"
                    );
                }
            }
        }
    }
}

#[test]
fn a_row_lands_where_it_was_dropped() {
    const H: i32 = 20 * PX;
    let boxes: Vec<Extent> = (0..4)
        .map(|i| Extent {
            top: i * H,
            height: H,
        })
        .collect();
    let order = |from: usize, dy: i32| {
        let slide = Slide::resolve(&boxes, (from, from), dy as i64).expect("resolves");
        let mut list: Vec<usize> = (0..4).collect();
        let row = list.remove(from);
        list.insert(slide.gap, row);
        list
    };
    assert_eq!(order(0, H), vec![1, 0, 2, 3], "one row down");
    assert_eq!(order(0, 3 * H), vec![1, 2, 3, 0], "to the foot");
    assert_eq!(order(3, -3 * H), vec![3, 0, 1, 2], "to the head");
    assert_eq!(order(1, 0), vec![0, 1, 2, 3], "nowhere at all");
}

fn guide(name: Option<&str>, cells: i32) -> Guide {
    Guide {
        name: name.map(|n| n.to_string()),
        visible: true,
        camera: Camera {
            pose: Pose {
                center_x: 0,
                center_y: 0,
                focal: FOCAL.to_bits(),
                turn_x: 0,
                turn_y: 0,
                turn_z: 0,
                turn_w: 1.0f32.to_bits(),
            },
            lens: Lens::Rectilinear,
            pairs: Three { first: true, second: false, third: true },
            cells,
            opacity: n(0.5),
        },
    }
}

fn roster() -> Roster {
    Roster {
        guides: vec![guide(Some("a"), 0), guide(None, 1), guide(Some("c"), 2)],
        edit: None,
    }
}

#[test]
fn the_guide_being_shaped_is_followed_through_every_change_of_the_list() {
    let mut r = roster();
    r.begin_guide_edit(2);
    r.move_guide(2, 0);
    assert_eq!(r.bar(), Some(0));
    assert_eq!(r.guides[0], guide(Some("c"), 2));
    r.move_guide(0, 2);
    assert_eq!(r.guides, roster().guides);
    assert_eq!(r.bar(), Some(2));
    r.remove_guide(0);
    assert_eq!(r.bar(), Some(1));
    r.remove_guide(1);
    assert_eq!(r.bar(), None, "the guide being shaped went");
    assert_eq!(r.guides, vec![guide(None, 1)]);
}

#[test]
fn removing_the_copy_undoes_the_duplicate() {
    let mut r = roster();
    r.duplicate_guide(1);
    assert_eq!(r.guides.len(), 4);
    assert_eq!(r.guides[2].camera, r.guides[1].camera);
    r.remove_guide(2);
    assert_eq!(r.guides, roster().guides);
    r.duplicate_guide(9);
    r.remove_guide(9);
    r.move_guide(0, 9);
    assert_eq!(r.guides, roster().guides, "nothing there to act on");
}

#[test]
fn a_control_touches_its_own_guide_and_its_own_setting() {
    let mut r = roster();
    r.toggle_visible(0);
    r.toggle_plane(1, 1);
    r.toggle_lens(2);
    r.set_cells(0, 3);
    r.set_opacity(1, n(0.25));
    r.rename(1, "b".to_string());
    assert!(!r.guides[0].visible && r.guides[1].visible);
    assert!(r.guides[1].camera.pairs.second);
    assert_eq!(r.guides[2].camera.lens, Lens::Fisheye);
    assert_eq!(r.guides[0].camera.cells, 3);
    assert_eq!(r.guides[1].camera.opacity, n(0.25));
    assert_eq!(guide_label(1, &r.guides[1]), "b");
    r.rename(1, String::new());
    assert_eq!(r.guides[1].name, None, "an emptied field is a removed name");
    assert_eq!(guide_label(1, &r.guides[1]), "Perspective 2");
    assert_eq!(guide_label(4, &guide(None, 0)), "Perspective 5");
}

#[test]
fn a_lock_lasts_for_one_sitting() {
    let mut r = roster();
    r.begin_guide_edit(0);
    r.toggle_lock(1);
    assert_eq!(
        r.edit,
        Some(GuideEdit {
            index: 0,
            locked: Three { first: false, second: true, third: false }
        })
    );
    r.begin_guide_edit(0);
    assert_eq!(
        r.edit.map(|e| e.locked),
        Some(Three { first: false, second: false, third: false })
    );
    r.end_guide_edit();
    assert_eq!(r.edit, None);
}

#[test]
fn a_dropped_row_moves_its_guide_and_an_inert_one_picks_it_up() {
    const H: i32 = 20 * PX;
    let boxes = || -> Vec<RowBox> {
        (0..3).map(|i| RowBox { key: i.to_string(), top: i * H, height: H }).collect()
    };
    let mut r = roster();
    let mut drag = Some(Grab::begin("0", boxes(), (0, 0)));
    if let Some(g) = drag.as_mut() {
        g.track((500, 2 * H), true);
    }
    let land = landing(&drag, 3);
    assert_eq!(land.1, (0, 2 * H as i64), "straight down the column");
    assert_eq!(land.0.map(|s| s.gap), Some(2));
    assert!(row_motion(&land, 0).lifted);
    assert_eq!(row_motion(&land, 1).shift, (0, -(H as i64)));
    r.land(&mut drag, 0, land.0);
    assert_eq!(r.guides[2], guide(Some("a"), 0));
    assert!(drag.as_ref().is_some_and(|g| g.over()));
    let shaped = r.edit;
    r.click(&mut drag, 2);
    assert_eq!((r.edit, drag.is_none()), (shaped, true), "the drop's own click");
    let mut press = Some(Grab::begin("2", boxes(), (0, 0)));
    r.click(&mut press, 2);
    assert_eq!((r.edit.map(|e| e.index), press.is_none()), (Some(2), true));

    let mut nudge = Some(Grab::begin("1", boxes(), (0, 0)));
    if let Some(g) = nudge.as_mut() {
        g.track((0, H), true);
        g.track((0, 0), true);
    }
    let land = landing(&nudge, 3);
    r.land(&mut nudge, 1, land.0);
    assert_eq!(r.edit.map(|e| e.index), Some(1), "the click it nearly was");

    let mut click = Some(Grab::begin("1", boxes(), (0, 0)));
    let before = r.guides.clone();
    r.land(&mut click, 1, None);
    assert!(click.is_none());
    assert_eq!(r.guides, before);
}

#[test]
fn a_horizon_turns_about_its_own_axis() {
    let free = Three { first: false, second: false, third: false };
    let held = held_axes(free, GuideRegion::Horizon(2));
    assert_eq!(held, Three { first: false, second: false, third: true });
    assert_eq!(deed(GuideRegion::Horizon(2), free), Deed::Turn(held));
    assert_eq!(deed(GuideRegion::Orbit, free), Deed::Turn(free));
    assert_eq!(deed(GuideRegion::Center, free), Deed::Recenter);
    assert_eq!(deed(GuideRegion::Focal(7), free), Deed::Refocus(7));
}

#[test]
fn the_pointer_says_what_a_press_would_grab() {
    assert_eq!(cursor(false, None, Some(GuideRegion::Orbit)), "cursor: crosshair;");
    assert_eq!(cursor(false, None, Some(GuideRegion::Horizon(0))), "cursor: grab;");
    assert_eq!(cursor(false, Some(GuideRegion::Orbit), None), "cursor: grabbing;");
    assert_eq!(cursor(true, Some(GuideRegion::Orbit), None), "");
    assert_eq!(catcher_class(true), "guide-catcher pan");
}

#[test]
fn each_axis_is_on_two_planes() {
    for axis in 0..3 {
        let planes = (0..3)
            .filter(|&k| {
                let (a, b) = pair_axes(k);
                a == axis || b == axis
            })
            .count();
        assert_eq!(planes, 2, "{}", axis_name(axis));
    }
    assert_eq!(axis_css(0), "var(--axis-x)");
    assert_eq!(axis_css(2), "var(--axis-z)");
}
