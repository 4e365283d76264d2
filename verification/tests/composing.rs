//! The modes that compose over the canvas: the transform, the gradients, and what they draw.
use stark_ui::amount::Amount;
use stark_ui::model::{
    DocCommand, Drag, Family, FillOp, FinePoint, GradientAxis, GradientAxisKind, LayerId, LayerInfo, BlendMode, Matte, MattePaint,
    Point, Ramp, Rect, TransformMap, ViewCommand,
};
use stark_ui::panels::catcher::{Catcher, Caught};
use stark_ui::panels::color::Rgb;
use stark_ui::panels::frame::TileRange;
use stark_ui::panels::gradient_bar::{
    axis_hint, bar, bar_class, begin_fill, begin_matte, clear_preview, default_axis_rect, done_title,
    finish, follow, press, read_as, refresh, release, resume_from, suspend, update, well_title,
    GradientTarget, GradientUi, Standing,
};
use stark_ui::panels::gradient_fill;
use stark_ui::panels::gradients::{
    conclude, row_class, strip_class, toggle_trace, trace_title, trace_word, Traced, Tracer,
};
use stark_ui::panels::path::{outline, polyline, polylines, segment, Spot};
use stark_ui::panels::transform::{
    begin_transform, bounds, catcher_cursor, family_word, inflate, may_flip, mount, switch_family,
    update as compose, finish as done, Gesture, Hold, MeshRegion, Pull, QuadRegion, Switch,
    TransformRegion,
};
use stark_ui::preview::Finish;

fn n(v: f32) -> Amount {
    Amount { bits: v.to_bits() }
}

fn px(x: i64, y: i64) -> Point {
    Point { x: x * 64, y: y * 64 }
}

fn fine(x: i128, y: i128) -> FinePoint {
    FinePoint { x: x * 128, y: y * 128 }
}

fn rect(x0: i64, y0: i64, x1: i64, y1: i64) -> Rect {
    Rect { min: px(x0, y0), max: px(x1, y1) }
}

fn layer(id: u64, matte: Option<Matte>) -> LayerInfo {
    LayerInfo {
        id: LayerId(id),
        ordinal: id,
        name: None,
        matte,
        filter: None,
        blend: BlendMode::Normal,
        opacity: n(1.0),
        clip: false,
        visible: true,
        is_group: false,
        has_backdrop: true,
        has_underlay: true,
        carrier: None,
        depth: 0,
        merge_down: None,
    }
}

fn frame(id: u64, rect: Option<Rect>) -> LayerInfo {
    layer(id, Some(Matte { rect, color: Rgb { r: 0, g: 0, b: 0 } }))
}

fn map(family: Family, first: f32) -> TransformMap {
    let mut bits = [0u32; 36];
    bits[0] = first.to_bits();
    TransformMap { family, bits }
}

fn gesture(family: Family, identity: bool) -> Gesture {
    Gesture {
        layer: LayerId(3),
        rect: rect(0, 0, 10, 10),
        map: map(family, 2.0),
        identity,
    }
}

// --- the transform ---

#[test]
fn the_widget_mounts_around_the_selection_or_the_content_or_the_view() {
    let layers = vec![layer(1, None), frame(2, None)];
    let view = rect(-5, -5, 5, 5);
    let tiles = TileRange { min_x: 0, min_y: 0, max_x: 0, max_y: 0 };
    assert_eq!(
        begin_transform(&layers, LayerId(2), Some(rect(1, 2, 3, 4)), Some(tiles), 256, view),
        Some((LayerId(1), rect(1, 2, 3, 4)))
    );
    assert_eq!(
        begin_transform(&layers, LayerId(1), None, Some(tiles), 256, view),
        Some((LayerId(1), rect(0, 0, 256, 256)))
    );
    assert_eq!(
        begin_transform(&layers, LayerId(1), None, None, 256, view),
        Some((LayerId(1), view))
    );
    assert_eq!(
        begin_transform(&vec![frame(2, None)], LayerId(2), None, None, 256, view),
        None
    );
}

#[test]
fn a_thin_rectangle_is_grown_about_its_middle() {
    let r = Rect { min: Point { x: 0, y: 0 }, max: Point { x: 3, y: 100 } };
    assert_eq!(mount(Family::Warp, r, 8), inflate(r, 8));
    let free = mount(Family::Free, r, 8);
    assert_eq!((free.min.x, free.max.x), (0, 6), "a radius has its own floor");
    let grown = inflate(r, 8);
    assert_eq!((grown.min.x, grown.max.x), (-5, 11), "in halves of the unit");
    assert_eq!((grown.min.y, grown.max.y), (0, 200));
    assert_eq!(
        bounds(&[px(3, 1), px(-2, 8), px(0, 0), px(1, 9)]),
        rect(-2, 0, 3, 9)
    );
}

#[test]
fn a_switch_carries_what_the_new_family_holds_and_commits_what_it_does_not() {
    let image = rect(7, 7, 9, 9);
    let free = gesture(Family::Free, false);
    let carried = Gesture { map: map(Family::Warp, 2.0), ..free };
    assert_eq!(switch_family(&free, Family::Free, true, Some(carried), image), Switch::Stay);
    assert_eq!(
        switch_family(&free, Family::Warp, true, Some(carried), image),
        Switch::Carry {
            next: carried,
            show: ViewCommand::PreviewTransform(Some((LayerId(3), carried.map)))
        }
    );
    let commit = Switch::CommitThenFresh {
        edit: DocCommand::Transform(LayerId(3), free.map),
        around: image,
    };
    assert_eq!(switch_family(&free, Family::Warp, false, Some(carried), image), commit, "mirrored");
    assert_eq!(switch_family(&free, Family::Warp, true, None, image), commit, "unusable");
    let idle = gesture(Family::Perspective, true);
    assert_eq!(
        switch_family(&idle, Family::Free, true, Some(carried), image),
        Switch::Fresh { around: idle.rect },
        "only a free one carries"
    );
}

#[test]
fn done_lays_what_was_shown_and_nothing_where_nothing_was_composed() {
    let mut mode = None;
    assert_eq!(done(&mut mode), Finish::Nothing);
    let moved = gesture(Family::Free, false);
    assert_eq!(
        compose(&mut mode, moved),
        ViewCommand::PreviewTransform(Some((LayerId(3), moved.map)))
    );
    assert_eq!(
        done(&mut mode),
        Finish::Commit(DocCommand::Transform(LayerId(3), moved.map))
    );
    assert_eq!(mode, None);
    mode = Some(gesture(Family::Warp, true));
    assert_eq!(done(&mut mode), Finish::Clear(ViewCommand::PreviewTransform(None)));
    assert!(may_flip(Family::Free) && !may_flip(Family::Warp));
    assert_eq!(family_word(Family::Perspective), "Perspective");
    assert_eq!(moved.family(), Family::Free);
}

#[test]
fn what_a_press_takes_hold_of_says_what_the_drag_does() {
    for (hold, pull, style) in [
        (Hold::Affine(TransformRegion::Inside), Pull::Translate, "cursor: move;"),
        (Hold::Affine(TransformRegion::Rim), Pull::TurnScale, "cursor: grab;"),
        (Hold::Affine(TransformRegion::Outside), Pull::Stretch, "cursor: crosshair;"),
        (Hold::Quad(QuadRegion::Corner(2)), Pull::Corner(2), "cursor: grab;"),
        (Hold::Quad(QuadRegion::Edge(1, 3)), Pull::Edge(1, 3), "cursor: grab;"),
        (Hold::Quad(QuadRegion::Outside), Pull::Translate, "cursor: move;"),
        (Hold::Mesh(MeshRegion::Point(15)), Pull::Point(15), "cursor: grab;"),
        (Hold::Mesh(MeshRegion::Inside), Pull::Surface, "cursor: grab;"),
        (Hold::Mesh(MeshRegion::Outside), Pull::Translate, "cursor: move;"),
    ] {
        assert_eq!(hold.pull(), pull);
        assert_eq!(hold.cursor(), style);
        assert_eq!(catcher_cursor(false, false, Some(hold)), style);
    }
    assert_eq!(catcher_cursor(false, true, None), "cursor: grabbing;");
    assert_eq!(catcher_cursor(true, true, None), "");
}

#[test]
fn a_drag_keeps_hold_of_what_it_was_pressed_on() {
    let mut catcher = Catcher::idle();
    assert_eq!(catcher.follow(false, 'a'), Caught::Ignore);
    assert_eq!(catcher.hover, Some('a'));
    assert_eq!(catcher.press(false, false, 'b'), Caught::Ignore, "another button");
    assert_eq!(catcher.press(false, true, 'b'), Caught::Capture);
    assert_eq!(catcher.follow(false, 'c'), Caught::Pull('b'));
    assert_eq!(catcher.release(true, false, 'c'), Caught::Ignore);
    assert_eq!(catcher.release(false, false, 'c'), Caught::Pull('b'));
    assert_eq!(catcher.follow(false, 'c'), Caught::Ignore);
    assert_eq!(catcher.press(false, true, 'd'), Caught::Capture);
    assert_eq!(catcher.press(true, false, 'e'), Caught::Ignore, "a second finger");
    assert_eq!(catcher.drag, None);
    assert_eq!(catcher.press(false, true, 'd'), Caught::Capture);
    catcher.cancel(false);
    assert_eq!(catcher.drag, None);
}

// --- what is drawn ---

fn spot(x: f32, y: f32) -> Spot {
    Spot { x: n(x), y: n(y) }
}

#[test]
fn a_line_moves_to_its_first_point_and_draws_to_the_rest() {
    let a = vec![spot(1.0, -2.5), spot(0.05, 1234.56)];
    assert_eq!(polyline(&a), "M1.00 -2.50 L0.05 1234.56 ");
    assert_eq!(polyline(&Vec::new()), "");
    assert_eq!(polylines(&vec![a, vec![spot(0.0, 0.0)]]), "M1.00 -2.50 L0.05 1234.56 M0.00 0.00 ");
    assert_eq!(segment(spot(0.0, 0.0), spot(1.5, 2.0)), "M0.00 0.00 L1.50 2.00");
    assert_eq!(
        polyline(&vec![spot(-0.001, 0.004)]),
        "M-0.00 0.00 "
    );
}

#[test]
fn a_quad_is_drawn_round_its_corners() {
    let corners = [spot(0.0, 0.0), spot(1.0, 0.0), spot(0.0, 1.0), spot(1.0, 1.0)];
    assert_eq!(
        outline(&corners),
        "M0.00 0.00 L1.00 0.00 L1.00 1.00 L0.00 1.00 L0.00 0.00 Z"
    );
}

// --- the gradient bar ---

const RAMP: Ramp = Ramp(7);

fn fill() -> GradientUi {
    GradientUi {
        target: GradientTarget::Fill { layer: LayerId(1) },
        kind: GradientAxisKind::Linear,
        drag: None,
    }
}

#[test]
fn a_fill_lays_the_library_s_ramp_along_the_drag() {
    let layers = vec![layer(1, None), frame(2, None)];
    assert_eq!(begin_fill(&layers, LayerId(2)), Some(fill()));
    assert_eq!(begin_fill(&vec![frame(2, None)], LayerId(2)), None);

    let mut mode = Some(fill());
    let mut dragging = false;
    assert_eq!(done_title(&fill(), Some(RAMP)), "Nothing dragged yet \u{2014} leave without laying anything");
    assert_eq!(
        axis_hint(&fill()),
        Some("Drag the axis: press where the ramp starts, release where it ends.")
    );
    let pressed = press(&mut dragging, &fill(), false, true, fine(1, 1)).expect("a press");
    assert!(dragging);
    let drawn = follow(dragging, &pressed, false, fine(5, 1)).expect("a drag");
    let drag = Drag { kind: GradientAxisKind::Linear, from: fine(1, 1), to: fine(5, 1) };
    let op = FillOp::GradientOfSelection { ramp: RAMP, drag };
    assert_eq!(
        update(&mut mode, drawn, Some(RAMP)),
        ViewCommand::PreviewFill(Some((LayerId(1), op)))
    );
    assert_eq!(update(&mut mode, drawn, None), ViewCommand::PreviewFill(None), "no ramp");
    assert_eq!(axis_hint(&drawn), None);
    release(&mut dragging, true);
    assert!(dragging, "navigation's own release");
    release(&mut dragging, false);
    assert!(!dragging);
    assert_eq!(follow(dragging, &drawn, false, fine(9, 9)), None);
    assert_eq!(
        finish(&mut mode, Some(RAMP)),
        Finish::Commit(DocCommand::Fill(LayerId(1), op))
    );
    assert_eq!(finish(&mut mode, Some(RAMP)), Finish::Nothing);
}

#[test]
fn navigation_takes_the_press_and_the_axis_stands() {
    let mut dragging = true;
    assert_eq!(press(&mut dragging, &fill(), true, true, fine(1, 1)), None);
    assert!(!dragging);
    assert_eq!(press(&mut dragging, &fill(), false, false, fine(1, 1)), None);
    assert!(!dragging);
}

#[test]
fn a_matte_opens_on_its_own_paint_or_on_the_library_s() {
    let solid = begin_matte(LayerId(2), Standing::Solid, rect(0, 0, 11, 20), Some(RAMP));
    assert_eq!(
        solid.target,
        GradientTarget::Matte { layer: LayerId(2), gradient: Some(RAMP) }
    );
    assert_eq!(
        solid.drag,
        Some((FinePoint { x: 704, y: 0 }, FinePoint { x: 704, y: 20 * 128 }))
    );
    let odd = Rect { min: Point { x: 0, y: -3 }, max: Point { x: 1, y: 5 } };
    assert_eq!(
        begin_matte(LayerId(2), Standing::Solid, odd, None).drag,
        Some((FinePoint { x: 1, y: -6 }, FinePoint { x: 1, y: 10 })),
        "the middle is not rounded"
    );
    let round = begin_matte(
        LayerId(2),
        Standing::Gradient {
            ramp: Ramp(9),
            axis: GradientAxis::Radial { center: fine(4, 5), radius: 3 * 128 },
        },
        rect(0, 0, 1, 1),
        Some(RAMP),
    );
    assert_eq!(round.kind, GradientAxisKind::Radial);
    assert_eq!(round.drag, Some((fine(4, 5), fine(7, 5))));
    let straight = begin_matte(
        LayerId(2),
        Standing::Gradient {
            ramp: Ramp(9),
            axis: GradientAxis::Linear { from: fine(1, 2), to: fine(3, 4) },
        },
        rect(0, 0, 1, 1),
        None,
    );
    let mut mode = Some(straight);
    let paint = MattePaint::Gradient {
        ramp: Ramp(9),
        drag: Drag { kind: GradientAxisKind::Linear, from: fine(1, 2), to: fine(3, 4) },
    };
    assert_eq!(
        finish(&mut mode, Some(RAMP)),
        Finish::Commit(DocCommand::SetMattePaint(LayerId(2), paint)),
        "its own ramp, whatever the library has in hand"
    );
}

#[test]
fn a_fresh_axis_spans_the_matte_or_the_view() {
    let layers = vec![frame(2, Some(rect(1, 1, 2, 2))), frame(3, None)];
    assert_eq!(default_axis_rect(&layers, LayerId(2), None), rect(1, 1, 2, 2));
    assert_eq!(default_axis_rect(&layers, LayerId(3), Some(rect(0, 0, 9, 9))), rect(0, 0, 9, 9));
    assert_eq!(default_axis_rect(&layers, LayerId(4), None), rect(-256, -256, 256, 256));
}

#[test]
fn a_pick_in_the_library_is_a_choice_even_for_a_matte() {
    let mut mode = Some(begin_matte(LayerId(2), Standing::Solid, rect(0, 0, 2, 2), None));
    assert_eq!(
        done_title(&mode.unwrap(), Some(RAMP)),
        "No ramp yet \u{2014} pick or trace one from the strip, or leave without laying anything"
    );
    assert_eq!(well_title(&mode.unwrap(), Some(RAMP)), "No ramp yet \u{2014} click to pick or trace one");
    assert_eq!(refresh(&mut mode, None), Some(ViewCommand::PreviewMattePaint(None)));
    let shown = refresh(&mut mode, Some(RAMP)).expect("it is composing");
    assert!(matches!(shown, ViewCommand::PreviewMattePaint(Some((LayerId(2), _)))));
    assert_eq!(done_title(&mode.unwrap(), None), "Keep this paint (undo takes it back)");
    assert_eq!(refresh(&mut None, Some(RAMP)), None);
}

#[test]
fn a_gesture_set_aside_for_a_trace_comes_back_as_it_was() {
    let ui = GradientUi { drag: Some((fine(0, 0), fine(1, 0))), ..fill() };
    let mut mode = Some(ui);
    let (held, cleared) = suspend(&mut mode);
    assert_eq!((held, cleared), (Some(ui), Some(ViewCommand::PreviewFill(None))));
    assert_eq!(bar(mode, held), Some((ui, true)));
    assert_eq!(bar_class(true), "selection-bar gradient-fill-bar recessed");
    let shown = resume_from(&mut mode, held.unwrap(), Some(RAMP));
    assert_eq!(mode, Some(ui));
    assert!(matches!(shown, ViewCommand::PreviewFill(Some(_))));
    assert_eq!(bar(mode, None), Some((ui, false)));
    assert_eq!(suspend(&mut None), (None, None));
    assert_eq!(bar(None, None), None);
}

#[test]
fn the_drag_already_made_is_read_the_other_way() {
    let ui = GradientUi { drag: Some((fine(0, 0), fine(1, 0))), ..fill() };
    let round = read_as(&ui, GradientAxisKind::Radial);
    assert_eq!(
        round.axis(),
        Some(Drag { kind: GradientAxisKind::Radial, from: fine(0, 0), to: fine(1, 0) })
    );
    assert_eq!(round.target, ui.target);
    assert_eq!(
        clear_preview(GradientTarget::Matte { layer: LayerId(1), gradient: None }),
        ViewCommand::PreviewMattePaint(None)
    );
}

// --- the gradient fill ---

#[test]
fn the_gradient_fill_keeps_the_brush_s_strength_from_when_it_was_entered() {
    let layers = vec![layer(1, None)];
    assert_eq!(gradient_fill::begin(None, &layers, LayerId(1), n(0.8), n(0.3)), None);
    let ui = gradient_fill::begin(Some(RAMP), &layers, LayerId(1), n(0.8), n(0.3)).expect("a ramp");
    assert_eq!(gradient_fill::done_title(&ui), "Nothing dragged yet \u{2014} leave without filling");
    let mut dragging = false;
    let ui = gradient_fill::press(&mut dragging, &ui, false, true, fine(0, 0)).expect("a press");
    let ui = gradient_fill::follow(dragging, &ui, false, fine(2, 0)).expect("a drag");
    let ui = gradient_fill::read_as(&ui, GradientAxisKind::Radial);
    let op = FillOp::GradientWash {
        ramp: RAMP,
        drag: Drag { kind: GradientAxisKind::Radial, from: fine(0, 0), to: fine(2, 0) },
        opacity: n(0.8),
        height: n(0.3),
    };
    let mut mode = None;
    assert_eq!(
        gradient_fill::update(&mut mode, ui, Some(RAMP)),
        ViewCommand::PreviewFill(Some((LayerId(1), op)))
    );
    assert_eq!(gradient_fill::refresh(&mode, None), Some(ViewCommand::PreviewFill(None)));
    assert_eq!(gradient_fill::refresh(&None, Some(RAMP)), None);
    assert_eq!(
        gradient_fill::finish(&mut mode, Some(RAMP)),
        gradient_fill::Leave::Commit(DocCommand::Fill(LayerId(1), op))
    );
    assert_eq!(
        gradient_fill::finish(&mut mode, Some(RAMP)),
        gradient_fill::Leave::Clear(ViewCommand::PreviewFill(None))
    );
}

// --- the trace ---

#[test]
fn a_trace_keeps_the_hand_and_not_its_jitter() {
    let mut tracer = Tracer::idle();
    tracer.follow(false, px(9, 9), 128);
    assert_eq!(tracer.points, None, "nothing is pressed");
    tracer.press(false, false, px(0, 0));
    assert_eq!(tracer.points, None);
    tracer.press(false, true, px(0, 0));
    tracer.follow(false, px(1, 1), 128);
    tracer.follow(false, px(2, 0), 128);
    tracer.follow(true, px(9, 9), 128);
    assert_eq!(tracer.points, Some(vec![px(0, 0), px(2, 0)]));
    assert_eq!(tracer.release(true, px(3, 0)), None);
    let traced = tracer.release(false, px(3, 0));
    assert_eq!(traced, Some(vec![px(0, 0), px(2, 0), px(3, 0)]));
    assert_eq!(tracer.points, None);
    assert_eq!(
        conclude(traced.clone(), true),
        Traced::CaptureThenDisarm(vec![px(0, 0), px(2, 0), px(3, 0)])
    );
    assert_eq!(conclude(traced, false), Traced::Disarm);
    assert_eq!(conclude(tracer.release(false, px(0, 0)), true), Traced::Nothing);
}

#[test]
fn a_trace_is_dropped_by_navigation_and_by_the_browser() {
    let mut tracer = Tracer::idle();
    tracer.press(false, true, px(0, 0));
    tracer.cancel(true);
    assert!(tracer.points.is_some());
    tracer.cancel(false);
    assert_eq!(tracer.points, None);
    tracer.press(false, true, px(0, 0));
    tracer.press(true, false, px(1, 1));
    assert_eq!(tracer.points, None);
}

#[test]
fn the_library_says_what_the_trace_is_doing() {
    assert_eq!(toggle_trace(false, true), (true, false), "arming brings it down");
    assert_eq!(toggle_trace(true, true), (false, true));
    assert_eq!(trace_title(true), "Stop tracing");
    assert_eq!(trace_word(true, true), "Sampling\u{2026}");
    assert_eq!(trace_word(false, true), "Cancel");
    assert_eq!(trace_word(false, false), "Trace");
    assert_eq!(strip_class(false), "bar-gradient-strip empty");
    assert_eq!(row_class("Dusk", Some("Dusk")), "gradient-row active");
    assert_eq!(row_class("Dusk", Some("dusk")), "gradient-row");
    assert_eq!(row_class("Dusk", None), "gradient-row");
}
