//! The layer tree's rows and controls, the filter bar, the frame, and the collaborators.
use stark_ui::amount::Amount;
use stark_ui::brush_config::ContentId;
use stark_ui::model::{
    paint_target, selected, topmost_paintable, BlendMode, ColorAdjust, DocCommand, FilterInfo, LayerId, LayerInfo,
    Matte, Place, Point, Rect, Srgb,
};
use stark_ui::panels::color::Rgb;
use stark_ui::panels::filter::{
    add_filter, inert, is_neutral, minted as minted_filter, reset, selected_filter, Knob,
};
use stark_ui::panels::frame::{
    abandon, add_frame, content_rect, default_rect, done_composing, drag_to, drop_at, matched_aspect, minted,
    parse_hex, rounded, selected_frame, Aspect, FrameDeed, FrameDrag, Grip, TileRange,
};
use stark_ui::panels::layer::{
    add_at, add_layer, bend, blend_hint, blend_inert, carries, click, clip_hint, clip_inert, indent,
    land, layer_label, opacity_label, peers_on, picked_mode, renamed, row_class,
    row_control, toggle_clip, Folds, Landing, Row, RowControl,
};
use stark_ui::panels::rename::{FieldKey, Rename};
use stark_ui::render::{badge_letters, first_plain, load_bristle, resize, surface_format, PeerInfo};
use stark_ui::reorder::{Grab, GRAB_SLOP};
use wgpu::TextureFormat::{Astc, Bgra8Unorm, Bgra8UnormSrgb, Rgba8Unorm, Rgba8UnormSrgb};

fn n(v: f32) -> Amount {
    Amount { bits: v.to_bits() }
}

fn layer(id: u64) -> LayerInfo {
    LayerInfo {
        id: LayerId(id),
        ordinal: id,
        name: None,
        matte: None,
        filter: None,
        blend: BlendMode::Normal,
        opacity: n(1.0),
        clip: false,
        visible: true,
        is_group: false,
        has_backdrop: true,
        has_underlay: true,
        carrier: None,
        depth: 0,
        merge_down: None,
    }
}

fn px(x: i64, y: i64) -> Point {
    Point { x: x * 64, y: y * 64 }
}

fn square() -> Rect {
    Rect { min: px(0, 0), max: px(100, 100) }
}

fn frame(id: u64) -> LayerInfo {
    LayerInfo {
        matte: Some(Matte { rect: Some(square()), color: Rgb { r: 1, g: 2, b: 3 } }),
        ..layer(id)
    }
}

fn filter(id: u64) -> LayerInfo {
    LayerInfo {
        filter: Some(FilterInfo {
            adjust: ColorAdjust { exposure: n(0.5), contrast: n(1.0), saturation: n(1.0), hue: n(0.0) },
            label: "Color".to_string(),
        }),
        ..layer(id)
    }
}

#[test]
fn a_layer_is_called_by_its_name_or_by_what_it_is() {
    assert_eq!(layer_label(&layer(3)), "Layer 3");
    assert_eq!(layer_label(&frame(3)), "Frame");
    let mut ground = frame(3);
    ground.matte = ground.matte.map(|m| Matte { rect: None, ..m });
    assert_eq!(layer_label(&ground), "Background");
    assert_eq!(layer_label(&filter(3)), "Color");
    let named = LayerInfo { name: Some("Sky".to_string()), ..filter(3) };
    assert_eq!(layer_label(&named), "Sky");
}

#[test]
fn a_gesture_acts_on_the_selected_layer_if_it_takes_paint_and_else_on_the_topmost_that_does() {
    let layers = vec![layer(1), frame(2), layer(3), filter(4)];
    assert_eq!(paint_target(&layers, LayerId(1)), Some(LayerId(1)));
    assert_eq!(paint_target(&layers, LayerId(2)), Some(LayerId(3)));
    assert_eq!(paint_target(&layers, LayerId(9)), Some(LayerId(3)));
    assert_eq!(paint_target(&vec![frame(1)], LayerId(1)), None);
    assert_eq!(topmost_paintable(&layers), Some(LayerId(3)));
    assert_eq!(selected(&layers, LayerId(2)).map(|l| l.id), Some(LayerId(2)));
    assert!(selected(&layers, LayerId(9)).is_none());
}

#[test]
fn blend_and_clip_part_only_on_a_filter() {
    assert!(blend_inert(None) && clip_inert(None));
    assert!(!blend_inert(Some(&layer(1))) && !clip_inert(Some(&layer(1))));
    let alone = LayerInfo { has_backdrop: false, ..layer(1) };
    assert!(blend_inert(Some(&alone)) && clip_inert(Some(&alone)));
    assert!(blend_inert(Some(&filter(1))) && !clip_inert(Some(&filter(1))));
    let foot = LayerInfo { has_underlay: false, ..filter(1) };
    assert!(clip_inert(Some(&foot)));
}

#[test]
fn a_new_layer_goes_above_the_selected_one_in_its_own_stack() {
    let inside = LayerInfo { carrier: Some(LayerId(9)), ..layer(4) };
    assert_eq!(add_at(Some(&inside)), (Some(LayerId(9)), Some(LayerId(4))));
    assert_eq!(
        add_layer(Some(&inside)),
        DocCommand::AddLayer { carrier: Some(LayerId(9)), above: Some(LayerId(4)) }
    );
    assert_eq!(add_layer(None), DocCommand::AddLayer { carrier: None, above: None });
    assert_eq!(
        add_filter(None),
        DocCommand::AddFilter {
            carrier: None,
            above: None,
            adjust: ColorAdjust { exposure: n(0.0), contrast: n(1.0), saturation: n(1.0), hue: n(0.0) }
        }
    );
}

#[test]
fn the_controls_of_the_selected_layer_say_what_they_mean_for_it() {
    let group = LayerInfo { is_group: true, ..layer(1) };
    assert_eq!(opacity_label(&group), "Opacity \u{2014} of the group");
    assert_eq!(opacity_label(&filter(1)), "Strength");
    assert_eq!(opacity_label(&layer(1)), "Opacity");
    assert_eq!(bend(&LayerInfo { blend: BlendMode::Drago { k: n(0.85) }, ..layer(1) }), Some(n(0.85)));
    assert_eq!(bend(&layer(1)), None);
    let alone = LayerInfo { has_backdrop: false, ..layer(1) };
    assert_eq!(
        blend_hint(BlendMode::Multiply, &alone),
        "Nothing composites under this layer, so every mode looks the same here."
    );
    assert!(clip_hint(&LayerInfo { carrier: Some(LayerId(2)), ..layer(1) }).contains("within its group"));
    assert_eq!(toggle_clip(&layer(1)), DocCommand::SetLayerClip(LayerId(1), true));
}

#[test]
fn the_picker_names_a_mode_by_its_label() {
    let offered = vec![
        ("Normal".to_string(), BlendMode::Normal),
        ("Radiance".to_string(), BlendMode::Drago { k: n(0.85) }),
    ];
    assert_eq!(picked_mode(&offered, "Radiance"), Some(BlendMode::Drago { k: n(0.85) }));
    assert_eq!(picked_mode(&offered, "radiance"), None);
    assert!(BlendMode::Drago { k: n(0.001) }.same_mode(BlendMode::Drago { k: n(0.002) }));
    assert!(!BlendMode::Normal.same_mode(BlendMode::Multiply));
}

#[test]
fn a_row_wears_its_kind_and_its_state() {
    let clipped = LayerInfo { clip: true, depth: 3, ..frame(1) };
    assert_eq!(row_class(&clipped, true, true), "layer-row matte active clipped carrying");
    assert_eq!(row_class(&layer(1), false, false), "layer-row");
    assert_eq!(indent(&clipped, 14), 42);
}

fn row() -> Row {
    Row {
        info: layer(5),
        collapsed: false,
        carry_onto: None,
        release_to: None,
        removable: false,
    }
}

#[test]
fn a_control_that_is_not_there_asks_for_nothing() {
    for control in [
        RowControl::Release,
        RowControl::Carry,
        RowControl::Merge,
        RowControl::Remove,
    ] {
        assert_eq!(row_control(&row(), control), None, "{control:?}");
    }
    assert_eq!(
        row_control(&row(), RowControl::Eye),
        Some(DocCommand::SetLayerVisible(LayerId(5), false))
    );
    assert_eq!(
        row_control(&row(), RowControl::Duplicate),
        Some(DocCommand::DuplicateLayer(LayerId(5)))
    );
}

#[test]
fn a_row_s_controls_ask_for_the_moves_it_can_make() {
    let full = Row {
        info: LayerInfo { merge_down: Some(LayerId(4)), ..layer(5) },
        carry_onto: Some(LayerId(4)),
        release_to: Some((LayerId(7), Some(LayerId(8)))),
        removable: true,
        ..row()
    };
    assert_eq!(
        row_control(&full, RowControl::Release),
        Some(DocCommand::MoveLayer {
            id: LayerId(5),
            carrier: Some(LayerId(8)),
            at: Place::Above(LayerId(7))
        })
    );
    assert_eq!(
        row_control(&full, RowControl::Carry),
        Some(DocCommand::MoveLayer { id: LayerId(5), carrier: Some(LayerId(4)), at: Place::Top })
    );
    assert_eq!(
        row_control(&full, RowControl::Merge),
        Some(DocCommand::MergeLayerDown(LayerId(5)))
    );
    assert_eq!(
        row_control(&full, RowControl::Remove),
        Some(DocCommand::RemoveLayer(LayerId(5)))
    );
}

#[test]
fn a_layer_dropped_into_a_folded_group_opens_it() {
    let mut folds = Folds::new();
    folds.toggle(LayerId(9));
    assert!(folds.is_shut(LayerId(9)));
    let mut drag = Some(Grab::begin("5", Vec::new(), (0, 0)));
    if let Some(g) = drag.as_mut() {
        g.track((0, 4 * GRAB_SLOP), true);
    }
    let landing = Some(Landing { carrier: Some(LayerId(9)), at: Place::Top, inert: false });
    assert!(carries(landing, LayerId(9)) && !carries(landing, LayerId(5)));
    let dropped = land(&mut drag, &mut folds, LayerId(5), landing);
    assert_eq!(dropped.select, Some(LayerId(5)));
    assert_eq!(
        dropped.edit,
        Some(DocCommand::MoveLayer { id: LayerId(5), carrier: Some(LayerId(9)), at: Place::Top })
    );
    assert!(!folds.is_shut(LayerId(9)));
    assert_eq!(click(&mut drag, LayerId(6)), None, "the drop's own click");
    assert_eq!(click(&mut drag, LayerId(6)), Some(LayerId(6)));
}

#[test]
fn a_drop_that_goes_nowhere_only_selects_and_a_click_says_nothing() {
    let mut folds = Folds::new();
    let mut drag = Some(Grab::begin("5", Vec::new(), (0, 0)));
    if let Some(g) = drag.as_mut() {
        g.track((0, 4 * GRAB_SLOP), true);
    }
    let still = Some(Landing { carrier: None, at: Place::Bottom, inert: true });
    let dropped = land(&mut drag, &mut folds, LayerId(5), still);
    assert_eq!((dropped.select, dropped.edit), (Some(LayerId(5)), None));
    let mut press = Some(Grab::begin("5", Vec::new(), (0, 0)));
    let nothing = land(&mut press, &mut folds, LayerId(5), still);
    assert_eq!((nothing.select, nothing.edit), (None, None));
    assert!(press.is_none());
}

#[test]
fn folding_twice_changes_nothing() {
    let mut folds = Folds::new();
    folds.toggle(LayerId(1));
    folds.toggle(LayerId(2));
    folds.toggle(LayerId(1));
    assert!(!folds.is_shut(LayerId(1)) && folds.is_shut(LayerId(2)));
}

#[test]
fn a_rename_is_sent_once_and_escape_sends_nothing() {
    let mut field = Rename::closed();
    field.open(None);
    assert_eq!(field.draft.as_deref(), Some(""));
    field.input("Sky".to_string());
    let name = field.key(FieldKey::Enter);
    assert_eq!(
        renamed(LayerId(1), name),
        Some(DocCommand::SetLayerName(LayerId(1), "Sky".to_string()))
    );
    assert_eq!(renamed(LayerId(1), field.commit()), None, "the blur behind it");
    field.open(Some(&"Sky".to_string()));
    assert_eq!(field.key(FieldKey::Other), None);
    assert_eq!(field.key(FieldKey::Escape), None);
    assert_eq!(field.commit(), None);
}

// --- the filter bar ---

#[test]
fn the_filter_being_tuned_is_the_selected_layer() {
    let layers = vec![layer(1), filter(2)];
    assert!(selected_filter(&layers, LayerId(1)).is_none());
    assert_eq!(
        selected_filter(&layers, LayerId(2)).map(|(l, a)| (l.id, a.exposure)),
        Some((LayerId(2), n(0.5)))
    );
    assert_eq!(
        minted_filter(&vec![LayerId(1), LayerId(2)], &vec![layer(1), filter(2), filter(3)]),
        Some(LayerId(3))
    );
    assert_eq!(minted_filter(&vec![LayerId(2)], &layers), None);
}

#[test]
fn a_knob_reads_out_in_its_own_unit() {
    let adjust = ColorAdjust { exposure: n(0.5), contrast: n(1.234), saturation: n(0.0), hue: n(-0.75) };
    assert_eq!(Knob::Exposure.readout(adjust.exposure), "+0.50");
    assert_eq!(Knob::Contrast.readout(adjust.contrast), "1.23");
    assert_eq!(Knob::Saturation.readout(adjust.saturation), "0.00");
    assert_eq!(Knob::Hue.readout(n(-44.6)), "-45\u{00B0}");
    assert_eq!(Knob::Hue.readout(n(-0.4)), "0\u{00B0}");
    assert_eq!(Knob::Hue.readout(n(0.5)), "1\u{00B0}");
    let dark = Knob::Exposure.set(adjust, n(-1.25));
    assert_eq!(Knob::Exposure.readout(dark.exposure), "-1.25");
    assert_eq!(Knob::Exposure.get(dark), n(-1.25));
    assert_eq!(Knob::Hue.get(dark), n(-0.75), "no other knob moved");
}

#[test]
fn a_filter_put_back_to_neutral_does_nothing() {
    let neutral = ColorAdjust { exposure: n(0.0), contrast: n(1.0), saturation: n(1.0), hue: n(0.0) };
    assert!(is_neutral(neutral));
    assert!(is_neutral(Knob::Hue.set(neutral, n(-0.0))));
    assert!(!is_neutral(Knob::Hue.set(neutral, n(1e-9))));
    assert_eq!(reset(LayerId(4)), DocCommand::SetFilter(LayerId(4), neutral));
    assert!(!inert(&filter(1)));
    assert!(inert(&LayerInfo { has_underlay: false, ..filter(1) }));
}

// --- the frame ---

#[test]
fn the_frame_being_composed_is_the_selected_layer() {
    let layers = vec![layer(1), frame(2), frame(3), layer(4)];
    assert!(selected_frame(&layers, LayerId(4)).is_none());
    assert_eq!(selected_frame(&layers, LayerId(2)).map(|(l, _)| l.id), Some(LayerId(2)));
    assert_eq!(minted(&layers), Some(LayerId(3)));
    assert_eq!(done_composing(&layers), Some(LayerId(4)));
    assert_eq!(done_composing(&vec![frame(1)]), None);
}

#[test]
fn a_new_frame_takes_the_painted_tiles_or_the_view() {
    let tiles = TileRange { min_x: -1, min_y: 0, max_x: 1, max_y: 0 };
    assert_eq!(
        content_rect(Some(tiles), 256),
        Some(Rect { min: px(-256, 0), max: px(512, 256) })
    );
    assert_eq!(content_rect(None, 256), None);
    assert_eq!(default_rect(true, None, 256, square()), square());
    let color = Srgb { r: n(0.06), g: n(0.06), b: n(0.07) };
    assert_eq!(
        add_frame(true, None, 256, square()),
        DocCommand::AddFrame { rect: square(), color }
    );
    assert_eq!(
        default_rect(false, Some(tiles), 256, square()),
        Rect { min: px(-256, -256), max: px(256, 256) }
    );
}

#[test]
fn a_frame_reads_as_the_preset_it_is_near() {
    assert_eq!(matched_aspect(1600, 900), Aspect::SixteenNine);
    assert_eq!(matched_aspect(1601, 900), Aspect::SixteenNine);
    assert_eq!(matched_aspect(400, 500), Aspect::FourFive);
    assert_eq!(matched_aspect(300, 200), Aspect::ThreeTwo);
    assert_eq!(matched_aspect(7, 7), Aspect::Square);
    assert_eq!(matched_aspect(2, 1), Aspect::Custom);
    assert_eq!(matched_aspect(5, 0), Aspect::Custom);
    assert_eq!(matched_aspect(-400, -500), Aspect::FourFive);
    assert_eq!(matched_aspect(-400, 500), Aspect::Custom);
    assert_eq!(matched_aspect(0, 500), Aspect::Custom);
    assert_eq!(matched_aspect(804 * 64, 1000 * 64), Aspect::Custom);
    assert_eq!(matched_aspect(i64::MIN, i64::MAX), Aspect::Custom);
    assert_eq!(matched_aspect(i64::MIN, i64::MIN), Aspect::Square);
    for aspect in [Aspect::Square, Aspect::FourFive, Aspect::ThreeTwo, Aspect::SixteenNine] {
        assert_eq!(Aspect::named(aspect.label()), Some(aspect));
    }
    assert_eq!(Aspect::named("Custom"), None);
}

/// The preset by floating point, where the lengths come from.
fn read_as_numbers(w: i64, h: i64) -> Aspect {
    let (w, h) = (w as f32 / 64.0, h as f32 / 64.0);
    if h.abs() < 1e-3 {
        return Aspect::Custom;
    }
    let near = |a: f32| (w / h - a).abs() <= a * 0.005;
    if near(1.0) {
        Aspect::Square
    } else if near(0.8) {
        Aspect::FourFive
    } else if near(1.5) {
        Aspect::ThreeTwo
    } else if near(16.0 / 9.0) {
        Aspect::SixteenNine
    } else {
        Aspect::Custom
    }
}

#[test]
fn a_frame_on_the_edge_of_a_preset_reads_as_its_numbers_do() {
    for (least, most, parts) in [(995, 1005, 1000), (796, 804, 1000), (14925, 15075, 10000), (1592, 1608, 900)] {
        for edge in [least, most] {
            for scale in 1..=300i64 {
                for unit in [1i64, 64, 0x40_0001, 0x1234_5678_9ab] {
                    for off in -2..=2i64 {
                        let (w, h) = (edge * scale * unit + off, parts * scale * unit);
                        assert_eq!(matched_aspect(w, h), read_as_numbers(w, h), "{w} by {h}");
                    }
                }
            }
        }
    }
}

#[test]
fn the_size_reads_out_in_whole_pixels() {
    assert_eq!(rounded(31), 0);
    assert_eq!(rounded(32), 1);
    assert_eq!(rounded(-32), -1);
    assert_eq!(rounded(-31), 0);
    for units in [0, 0xff_ffff, 0x100_001f, 0x100_0020, -0x100_001f, 0x1234_5678_9abc, i64::MAX, i64::MIN] {
        assert_eq!(rounded(units), (units as f32 / 64.0).round() as i64, "{units}");
    }
}

#[test]
fn the_colour_well_reads_a_whole_code_only() {
    assert_eq!(parse_hex("#0a0B0c"), Some(Rgb { r: 10, g: 11, b: 12 }));
    for bad in ["", "#abc", "0a0b0c0", "#0a0b0g", "#0a0b0c ", "#+a0b0c", "#0a+b0c"] {
        assert_eq!(parse_hex(bad), None, "{bad:?}");
    }
}

#[test]
fn a_handle_moves_its_own_sides_and_a_flipped_frame_is_put_right() {
    let start = square();
    assert_eq!(
        Grip::E.apply(start, px(10, 99)),
        Rect { min: px(0, 0), max: px(110, 100) }
    );
    assert_eq!(
        Grip::Nw.apply(start, px(5, -5)),
        Rect { min: px(5, -5), max: px(100, 100) }
    );
    assert_eq!(
        Grip::W.apply(start, px(150, 0)),
        Rect { min: px(100, 0), max: px(150, 100) }
    );
    assert_eq!(
        Grip::Move.apply(start, px(-3, 4)),
        Rect { min: px(-3, 4), max: px(97, 104) }
    );
    assert_eq!(Grip::Sw.spec(), ("sw", "sw-resize"));
}

#[test]
fn a_frame_is_shown_while_it_is_dragged_and_laid_once() {
    let drag = FrameDrag { grip: Grip::Move, start: square() };
    let next = Rect { min: px(1, 1), max: px(101, 101) };
    assert_eq!(drag_to(&Some(drag), px(1, 1)), FrameDeed::Show(next));
    assert_eq!(drag_to(&None, px(1, 1)), FrameDeed::Nothing);
    let mut held = Some(drag);
    assert_eq!(
        drop_at(&mut held, LayerId(2), px(1, 1)),
        FrameDeed::Commit(DocCommand::SetMatteRect(LayerId(2), next))
    );
    assert_eq!(drop_at(&mut held, LayerId(2), px(1, 1)), FrameDeed::Nothing);
    held = Some(drag);
    assert_eq!(abandon(&mut held), FrameDeed::Drop);
    assert_eq!(abandon(&mut held), FrameDeed::Nothing);
}

// --- the collaborators, and the surface ---

fn peer(name: &str, on: u64) -> PeerInfo {
    PeerInfo {
        actor: 1,
        name: name.to_string(),
        red: 1,
        green: 20,
        blue: 255,
        cursor: None,
        active_layer: LayerId(on),
    }
}

#[test]
fn a_badge_is_the_initials_in_upper_case() {
    assert_eq!(peer("ada lovelace", 1).initials(), "AL");
    assert_eq!(peer("  grace  brewster hopper", 1).initials(), "GB");
    assert_eq!(peer("\u{df}", 1).initials(), "SS", "a letter may become two");
    assert_eq!(peer(" \u{3000} ", 1).initials(), "");
    assert_eq!(badge_letters("ada lovelace"), "al");
    assert_eq!(peer("x", 1).css_color(), "rgb(1,20,255)");
}

#[test]
fn a_collaborator_is_shown_on_the_layer_it_works_on() {
    let peers = vec![peer("a", 1), peer("b", 2), peer("c", 1)];
    assert_eq!(peers_on(&peers, LayerId(1)), vec![0, 2]);
    assert_eq!(peers_on(&peers, LayerId(3)), Vec::<usize>::new());
}

#[test]
fn a_surface_is_given_a_size_only_where_it_changes() {
    assert_eq!(resize(10, 20, (10, 20)), None);
    assert_eq!(resize(0, 20, (10, 20)), None);
    assert_eq!(resize(10, 0, (10, 20)), None);
    assert_eq!(resize(11, 20, (10, 20)), Some((11, 20)));
    let id = ContentId { high: 1, low: 2 };
    assert_eq!(load_bristle(Some(id), None), Some(id));
    assert_eq!(load_bristle(None, Some(id)), Some(id));
}

#[test]
fn a_surface_is_asked_for_a_format_that_does_not_encode_twice() {
    assert_eq!(surface_format(&vec![Bgra8UnormSrgb, Rgba8UnormSrgb, Bgra8Unorm, Rgba8Unorm]), 2);
    assert_eq!(surface_format(&vec![Rgba8Unorm, Bgra8UnormSrgb]), 0);
    assert_eq!(surface_format(&vec![Bgra8UnormSrgb, Rgba8UnormSrgb]), 0);
    let astc = |channel| Astc { block: wgpu::AstcBlock::B4x4, channel };
    assert_eq!(
        surface_format(&vec![astc(wgpu::AstcChannel::UnormSrgb), astc(wgpu::AstcChannel::Hdr)]),
        1
    );
    assert_eq!(first_plain(&vec![true, false, false]), 1);
    assert_eq!(first_plain(&vec![true, true]), 0);
}
