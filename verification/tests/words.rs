//! The words and classes that the panels put up, and the small formulas under them.
use stark_ui::amount::Amount;
use stark_ui::brush_config::{Color, Transient};
use stark_ui::model::{
    BlendMode, ColorAdjust, Drag, FillOp, FilterInfo, FinePoint, GradientAxisKind, LayerId, LayerInfo, Matte,
    Ramp, ViewCommand,
};
use stark_ui::panels::color::{digit_value, Grab, Rgb};
use stark_ui::panels::gradient_bar::{kind_title, ramp_in_hand, show_axis, GradientTarget, GradientUi};
use stark_ui::panels::gradient_fill::{op_of, GradientFillUi};
use stark_ui::panels::gradients::trace_class;
use stark_ui::panels::guides::{
    eye_class as guide_eye_class, eye_title as guide_eye_title, lens_class, lock_chip, plane_chip,
    Camera, Guide, GuideEdit, Lens, Pose, PosePart, Roster, Three,
};
use stark_ui::panels::layer::{
    bend_hint, blend_label, clip_class, duplicate_title, eye_class, eye_title, fold_title,
    item_class, merge_title, name_class, opacity_hint, remove_title, row_title,
};
use stark_ui::panels::lighting::scale_disabled;
use stark_ui::panels::popout::PopoutId;
use stark_ui::panels::transform::chip_class;
use stark_ui::preview::SelectionFill;
use stark_ui::reorder::{Extent, Motion};
use stark_ui::route::{Gesture, Holder, Pointer, PointerKind};
use stark_ui::text::{chars_of, digit_char, string_of};

fn n(v: f32) -> Amount {
    Amount { bits: v.to_bits() }
}

fn layer() -> LayerInfo {
    LayerInfo {
        id: LayerId(7),
        ordinal: 7,
        name: None,
        matte: None,
        filter: None,
        blend: BlendMode::Normal,
        opacity: n(1.0),
        clip: false,
        visible: true,
        is_group: false,
        has_backdrop: true,
        has_underlay: true,
        carrier: None,
        depth: 0,
        merge_down: None,
    }
}

fn filter() -> LayerInfo {
    let adjust = ColorAdjust::neutral_adjust();
    assert_eq!(adjust, ColorAdjust { exposure: n(0.0), contrast: n(1.0), saturation: n(1.0), hue: n(0.0) });
    LayerInfo { filter: Some(FilterInfo { adjust, label: "Color".to_string() }), ..layer() }
}

fn frame() -> LayerInfo {
    LayerInfo { matte: Some(Matte { rect: None, color: Rgb { r: 0, g: 0, b: 0 } }), ..layer() }
}

#[test]
fn a_row_says_what_it_is() {
    let group = LayerInfo { is_group: true, ..layer() };
    assert!(layer().is_paintable());
    assert!(!filter().is_paintable() && !frame().is_paintable());
    assert_eq!(blend_label(&layer()), "Blend");
    assert_eq!(blend_label(&group), "Blend \u{2014} of the group");
    assert_eq!(opacity_hint(&group), "Fades this layer and everything it carries, as one");
    assert_eq!(opacity_hint(&layer()), "Opacity of the selected layer");
    assert!(opacity_hint(&filter()).starts_with("How much of the adjustment lands"));
    assert!(opacity_hint(&frame()).starts_with("Frame opacity"));
    assert_eq!(clip_class(&layer()), "chip");
    assert_eq!(clip_class(&LayerInfo { clip: true, ..layer() }), "chip active");
    assert_eq!(name_class(&layer()), "layer-name");
    assert_eq!(name_class(&frame()), "layer-name layer-name-kind");
    assert!(row_title(&frame()).starts_with("Compose this frame"));
    assert!(row_title(&filter()).starts_with("Tune this filter"));
    assert!(row_title(&layer()).starts_with("Paint on this layer"));
    assert!(bend_hint().starts_with("How hard Radiance's curve bends."));
}

#[test]
fn a_merge_says_what_it_merges_into() {
    let below = LayerInfo { merge_down: Some(LayerId(3)), ..layer() };
    let carried = LayerInfo { carrier: Some(LayerId(3)), ..below.clone() };
    assert!(merge_title(&below).starts_with("Merge this layer down into the one below"));
    assert!(merge_title(&carried).starts_with("Merge this layer into the one carrying it"));
    assert!(merge_title(&filter()).starts_with("Bake this filter"));
}

#[test]
fn a_control_says_what_it_does() {
    assert_eq!(fold_title(true), "Show what this layer carries");
    assert_eq!(fold_title(false), "Fold away what this layer carries");
    assert_eq!(duplicate_title(true), "Duplicate this layer, and everything it carries");
    assert_eq!(duplicate_title(false), "Duplicate this layer");
    assert_eq!(remove_title(true), "Remove this layer, and everything it carries");
    assert_eq!(remove_title(false), "Remove this layer");
    assert_eq!(eye_class(true), "layer-eye");
    assert_eq!(eye_class(false), "layer-eye hidden");
    assert_eq!(eye_title(true, true), "Hide this layer and what it carries");
    assert_eq!(eye_title(true, false), "Show this layer and what it carries");
    assert_eq!(eye_title(false, true), "Hide this layer");
    assert_eq!(eye_title(false, false), "Show this layer");
    let lifted = Motion { shift: (0, 0), lifted: true, live: true };
    assert_eq!(item_class(lifted), "layer-item dragging");
    assert_eq!(item_class(Motion::default()), "layer-item");
    assert_eq!(guide_eye_class(false), "guide-eye hidden");
    assert_eq!(guide_eye_title(false), "Show this guide");
    assert_eq!(chip_class(true), "chip active");
    assert_eq!(trace_class(false), "chip gradient-trace");
    assert!(scale_disabled(true) && !scale_disabled(false));
    assert!(PopoutId::SubstrateColor.in_stack() && !PopoutId::Parcel.in_stack());
}

const OFF: Three = Three { first: false, second: false, third: false };

fn guide() -> Guide {
    let pose = Pose {
        center_x: 0,
        center_y: 0,
        focal: 0,
        turn_x: 0,
        turn_y: 0,
        turn_z: 0,
        turn_w: 0,
    };
    let camera = Camera { pose, lens: Lens::Rectilinear, pairs: OFF, cells: 0, opacity: n(1.0) };
    Guide { name: None, visible: true, camera }
}

#[test]
fn a_chip_wears_its_axes() {
    let z = lock_chip(2, OFF.set(2, true));
    assert_eq!(z.class, "chip axis-chip active");
    assert_eq!(z.style, "--axis: var(--axis-z)");
    assert_eq!(z.title, "Hold the Z axis fixed under the drag");
    let zx = plane_chip(2, OFF);
    assert_eq!(zx.class, "chip plane-chip");
    assert_eq!(zx.style, "--axis-a: var(--axis-z); --axis-b: var(--axis-x)");
    assert!(zx.title.starts_with("Show the ZX plane \u{2014} its two fans"));
    assert_eq!(lens_class(Lens::Fisheye), "chip active");
}

#[test]
fn a_new_guide_is_the_one_being_shaped() {
    let mut roster = Roster { guides: vec![guide()], edit: None };
    roster.add_perspective(guide().copied());
    assert_eq!(roster.guides.len(), 2);
    assert_eq!(roster.edit, Some(GuideEdit { index: 1, locked: OFF }));
    let turned = Pose { turn_x: 2, turn_y: 3, turn_z: 4, turn_w: 1, ..guide().camera.pose };
    roster.set_part(1, PosePart::Turn { x: 2, y: 3, z: 4, w: 1 });
    assert_eq!(roster.guides[1].camera.pose, turned);
    assert_eq!(roster.guides[0], guide());
    roster.set_part(1, PosePart::Focal(7));
    roster.set_part(1, PosePart::Center { x: 8, y: 9 });
    let moved = Pose { focal: 7, center_x: 8, center_y: 9, ..turned };
    assert_eq!(roster.guides[1].camera.pose, moved);
}

#[test]
fn a_fine_drag_travels_a_fifth() {
    let fine = Grab::press(Some((100, 200)), true, (500_000, 250_000));
    assert_eq!(fine.place((110, 190)), (2_500_010, 1_249_990));
    let coarse = Grab::press(Some((100, 200)), false, (500_000, 250_000));
    assert_eq!(coarse.place((110, 190)), (550, 950));
    assert_eq!(Grab::press(None, true, (1, 2)), Grab::At);
}

#[test]
fn a_wash_is_laid_with_the_ramp_in_hand() {
    let (from, to) = (FinePoint { x: 0, y: 0 }, FinePoint { x: 128, y: 0 });
    let kind = GradientAxisKind::Radial;
    let wash = GradientFillUi {
        layer: LayerId(2),
        kind,
        drag: Some((from, to)),
        opacity: n(0.8),
        height: n(0.1),
    };
    let op = FillOp::GradientWash {
        ramp: Ramp(9),
        drag: Drag { kind, from, to },
        opacity: n(0.8),
        height: n(0.1),
    };
    assert_eq!(op_of(&wash, Some(Ramp(9))), Some(SelectionFill { layer: LayerId(2), op }));
    assert_eq!(op_of(&wash, None), None);
    assert_eq!(op_of(&GradientFillUi { drag: None, ..wash }, Some(Ramp(9))), None);
}

#[test]
fn a_matte_shows_its_own_ramp() {
    let target = GradientTarget::Matte { layer: LayerId(2), gradient: None };
    let ui = GradientUi { target, kind: GradientAxisKind::Linear, drag: None };
    assert_eq!(ramp_in_hand(&ui, Some(Ramp(1))), None);
    assert_eq!(show_axis(&ui, Some(Ramp(1))), ViewCommand::PreviewMattePaint(None));
    assert!(kind_title(GradientAxisKind::Linear).starts_with("The drag is the ramp"));
    assert!(kind_title(GradientAxisKind::Radial).starts_with("The drag is the reach"));
}

#[test]
fn only_paint_yields_and_only_its_pointer_holds() {
    let pen = Pointer { id: 3, kind: PointerKind::Pen };
    let other = Pointer { id: 4, kind: PointerKind::Touch };
    let paint = Holder::Gesture(Gesture::Paint, pen);
    assert!(paint.yields() && paint.holds(pen) && !paint.holds(other));
    assert!(!Holder::Gesture(Gesture::Pick, pen).yields());
    assert!(!Holder::Pinch.yields() && Holder::Pinch.holds(other) && !Holder::Pinch.holds(pen));
    assert_eq!(Holder::Pinch.kind(), PointerKind::Touch);
}

#[test]
fn a_tune_sets_the_colour_aside() {
    let color = Color { r: n(0.001), g: n(0.002), b: n(0.003) };
    let tune = Transient { size: n(0.01), flow: n(0.02), color };
    assert!(tune.same_tune(&Transient { color: Color { r: n(0.009), ..color }, ..tune }));
    assert!(!tune.same_tune(&Transient { size: n(0.011), ..tune }));
    assert!(!tune.same_tune(&Transient { flow: n(0.021), ..tune }));
}

#[test]
fn letters_and_middles() {
    assert_eq!(digit_char(7), '7');
    assert_eq!(digit_value('f'), Some(15));
    assert_eq!(digit_value('F'), Some(15));
    assert_eq!(digit_value('g'), None);
    let chars = chars_of("a\u{e9}b");
    assert_eq!(chars, vec!['a', '\u{e9}', 'b']);
    assert_eq!(string_of(&chars, 1, 3), "\u{e9}b");
    assert_eq!(Extent { top: 10, height: 5 }.twice_center(), 25);
}
