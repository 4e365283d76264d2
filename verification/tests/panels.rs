//! The timeline, the selection, the navigator, the lighting and the pop-outs.
use stark_ui::amount::{Amount, At};
use stark_ui::model::{
    DocCommand, EnvironmentId, Family, FillOp, LayerId, MediaParams, Point, Rect, SelectionMode, ShapeAction, Srgb,
    Tool, TransformMap, ViewCommand,
};
use stark_ui::panels::lighting::{
    closes_with_the_panel, default_environment, environment_asset, environments, fetched, named,
    set_environment, swatch_class, swatch_style, update_media, MediaKnob, Relight,
};
use stark_ui::panels::navigator::{
    follow, press, release, subject, Button, Debounce, NavDeed, NavDrag, Settled,
};
use stark_ui::panels::popout::{edge, grows, place, placing, showing_row, Grow, Placing, PopoutId};
use stark_ui::panels::select::{
    action_chip, action_row, bar, current_action, current_tool, dim, dim_settle, feather,
    fill_selection, is_selection, modifier_mode, pick_action, strength, Picked, ShapeChip,
};
use stark_ui::panels::timeline::{
    caption, count_class, count_title, pace, play_button, position, scrub_range, tick_class, ticks,
    Play, Speed, Tick, Transport, MAX_TICKS,
};
use stark_ui::panels::transform::Gesture;
use stark_ui::platform::page::ElementBox;
use stark_ui::preview::{Preview, SelectionOpacity};

fn n(v: f32) -> Amount {
    Amount { bits: v.to_bits() }
}

// --- the timeline ---

const IDLE: Transport = Transport { open: true, playing: false, task: false };

#[test]
fn a_speed_is_a_wait_until_a_wait_would_be_shorter_than_a_frame() {
    let of = |s: Speed| pace(s.hundredths());
    assert_eq!(of(Speed::Quarter), (500, 1));
    assert_eq!(of(Speed::Half), (250, 1));
    assert_eq!(of(Speed::Ordinary), (125, 1));
    assert_eq!(of(Speed::Double), (63, 1));
    assert_eq!(of(Speed::Quadruple), (31, 1));
    assert_eq!(pace(781), (16, 1));
    assert_eq!(pace(1600), (16, 2), "from here the stride grows");
    assert_eq!(pace(0), pace(1), "never nothing");
    assert_eq!(pace(1), (12500, 1));
    assert_eq!(Speed::Quarter.title(), "Play at \u{00BC}\u{00D7} speed");
}

#[test]
fn playing_walks_to_the_end_and_stops() {
    let mut t = IDLE;
    assert_eq!(t.play(Some((0, 5))), Play::FromHere);
    assert!(t.is_playing());
    assert_eq!(t.tick(Some((0, 5)), 2), Tick::Step(2));
    assert_eq!(t.tick(Some((2, 5)), 2), Tick::Step(4));
    assert_eq!(t.tick(Some((4, 5)), 2), Tick::Last(5));
    assert!(!t.is_playing());
    assert_eq!(t.tick(Some((5, 5)), 2), Tick::End);
}

#[test]
fn play_at_the_end_starts_over_and_nothing_plays_without_a_history() {
    let mut t = IDLE;
    assert_eq!(t.play(Some((5, 5))), Play::FromTheTop);
    assert!(t.playing && t.task);
    assert_eq!(t.play(Some((0, 0))), Play::Nothing);
    assert!(!t.playing && !t.task);
    assert_eq!(t.play(None), Play::Nothing);
    let mut shared = Transport { playing: true, ..IDLE };
    assert_eq!(shared.tick(None, 1), Tick::End);
    assert!(!shared.playing);
    let mut far = Transport { playing: true, ..IDLE };
    assert_eq!(far.tick(Some((1, usize::MAX)), usize::MAX), Tick::Last(usize::MAX));
}

#[test]
fn a_hand_on_the_scrubber_stops_the_playing() {
    let mut t = Transport { open: true, playing: true, task: true };
    assert_eq!(t.scrub(3), DocCommand::Seek(3));
    assert_eq!(t, IDLE);
    let mut running = Transport { open: true, playing: true, task: true };
    assert!(running.stop());
    assert!(!running.stop(), "there is nothing left to cancel");
}

#[test]
fn entering_the_mode_puts_a_transform_down() {
    let held = Gesture {
        layer: LayerId(1),
        rect: Rect { min: Point { x: 0, y: 0 }, max: Point { x: 1, y: 1 } },
        map: TransformMap { family: Family::Free, bits: [0; 36] },
        identity: true,
    };
    let mut transform = Some(held);
    let mut t = Transport { open: false, playing: true, task: true };
    assert_eq!(t.set_open(false, &mut transform), None);
    assert!(transform.is_some());
    assert_eq!(t.set_open(true, &mut transform), Some(ViewCommand::PreviewTransform(None)));
    assert_eq!(transform, None);
    assert_eq!(t, IDLE);
    assert_eq!(t.set_open(true, &mut transform), None);
}

#[test]
fn the_track_draws_no_more_marks_than_can_be_told_apart() {
    assert_eq!(ticks(0), Vec::<usize>::new());
    assert_eq!(ticks(3), vec![0, 1, 2]);
    assert_eq!(ticks(240).len(), 240);
    let marks = ticks(241);
    assert_eq!(marks.len(), 121);
    assert_eq!(&marks[..3], &[0, 2, 4]);
    assert_eq!(marks.last(), Some(&240));
    for total in [1000, 4801, 100_003] {
        let marks = ticks(total);
        assert!(marks.len() <= MAX_TICKS, "{total}");
        assert!(marks.iter().all(|&m| m < total));
        assert!(marks.windows(3).all(|w| w[1] - w[0] == w[2] - w[1]));
    }
    assert_eq!(tick_class(2, 3), "timeline-tick past");
    assert_eq!(tick_class(3, 3), "timeline-tick");
}

#[test]
fn the_bar_says_where_the_playhead_stands() {
    let labels = vec!["Stroke".to_string(), "Fill".to_string()];
    assert_eq!(caption(0, &labels), "Empty canvas");
    assert_eq!(caption(2, &labels), "Fill");
    assert_eq!(caption(3, &labels), "Step");
    assert_eq!(position(2, 10), "2 / 10");
    assert_eq!(count_class(2, 3), "timeline-count behind");
    assert_eq!(count_title(3, 3), "At the newest step");
    assert_eq!(play_button(true), ("\u{275A}\u{275A}", "Pause"));
    assert_eq!(scrub_range(None), Some((0, 0)));
    assert_eq!(scrub_range(Some(None)), None);
    assert_eq!(scrub_range(Some(Some((1, 2)))), Some((1, 2)));
}

// --- the selection ---

#[test]
fn the_held_keys_say_how_a_shape_lands() {
    assert_eq!(modifier_mode(true, true), Some(SelectionMode::Intersect));
    assert_eq!(modifier_mode(true, false), Some(SelectionMode::Union));
    assert_eq!(modifier_mode(false, true), Some(SelectionMode::Subtract));
    assert_eq!(modifier_mode(false, false), None);
}

#[test]
fn the_strength_is_the_fill_s_or_the_mask_s() {
    let select = ShapeAction::Select(SelectionMode::Union);
    assert_eq!(strength(ShapeAction::Fill, n(0.3), n(0.7)), n(0.3));
    assert_eq!(strength(select, n(0.3), n(0.7)), n(0.7));
    let mut dimming = Preview::<SelectionOpacity>::new();
    assert_eq!(dim(ShapeAction::Fill, &mut dimming, n(0.5)), ViewCommand::SetShapeOpacity(n(0.5)));
    assert_eq!(dimming.pending, None);
    assert_eq!(
        dim(select, &mut dimming, n(0.6)),
        ViewCommand::PreviewSelectionOpacity(Some(n(0.6)))
    );
    assert_eq!(dim_settle(ShapeAction::Fill, &mut dimming), None);
    assert_eq!(dim_settle(select, &mut dimming), Some(DocCommand::SetSelectionOpacity(n(0.6))));
    assert_eq!(dim_settle(select, &mut dimming), None);
}

#[test]
fn the_five_answers_are_one_row() {
    let words: Vec<&str> = action_row().into_iter().map(|a| action_chip(a).0).collect();
    assert_eq!(words, ["New", "Add", "Sub", "Isect", "Fill"]);
    assert_eq!(
        pick_action(ShapeAction::Fill, ShapeChip::Lasso),
        Picked {
            set: ViewCommand::SetShapeAction(ShapeAction::Fill),
            arm: Tool::SelectLasso,
        }
    );
    assert_eq!(current_tool(None), Tool::Brush);
    assert_eq!(current_tool(Some(Tool::SelectRect)), Tool::SelectRect);
    assert!(is_selection(Tool::SelectEllipse) && !is_selection(Tool::Brush));
    let first = ShapeAction::Select(SelectionMode::Replace);
    assert_eq!(current_action(None, first), first);
    assert_eq!(current_action(Some(ShapeAction::Fill), first), ShapeAction::Fill);
    assert_eq!(feather(n(2.5)), ViewCommand::SetSelectionFeather(n(2.5)));
}

#[test]
fn a_fill_lays_the_paint_in_hand_through_the_selection() {
    let color = Srgb { r: n(0.001), g: n(0.002), b: n(0.003) };
    assert_eq!(
        fill_selection(Some(LayerId(4)), color),
        Some(DocCommand::Fill(LayerId(4), FillOp::OfSelection(color)))
    );
    assert_eq!(fill_selection(None, color), None);
    assert_eq!(bar(true, true), Some("selection-bar recessed"));
    assert_eq!(bar(true, false), Some("selection-bar"));
    assert_eq!(bar(false, true), None);
}

// --- the navigator ---

#[test]
fn the_miniature_is_of_the_piece_or_of_nothing() {
    let frame = Some(LayerId(2));
    assert_eq!(subject(Some(7), frame, false), Some((7, frame)));
    assert_eq!(subject(Some(7), None, true), Some((7, None)));
    assert_eq!(subject(Some(7), None, false), None);
    assert_eq!(subject(None, frame, true), None);
}

#[test]
fn only_the_last_of_a_burst_is_drawn() {
    let mut d = Debounce { ticket: 0 };
    let (first, second) = (d.ask(), d.ask());
    assert_eq!(d.settled(first, false), Settled::Superseded);
    assert_eq!(d.settled(second, true), Settled::Wait);
    assert_eq!(d.settled(second, false), Settled::Draw);
}

#[test]
fn one_button_goes_there_and_the_other_turns_the_canvas() {
    let mut drag = None;
    let at = At { x: n(5.0), y: n(6.0) };
    assert_eq!(press(&mut drag, Button::Other, at, n(0.1)), NavDeed::Nothing);
    assert_eq!(drag, None);
    assert_eq!(press(&mut drag, Button::Primary, at, n(0.1)), NavDeed::CenterHere);
    assert_eq!(follow(drag, at), NavDeed::CenterHere);
    assert_eq!(press(&mut drag, Button::Secondary, at, n(0.9)), NavDeed::Nothing);
    assert_eq!(drag, Some(NavDrag::Turn { from: at, was: n(0.9) }));
    let to = At { x: n(2.0), y: n(16.0) };
    assert_eq!(
        follow(drag, to),
        NavDeed::TurnBy { from: at, to, was: n(0.9) }
    );
    release(&mut drag);
    assert_eq!(follow(drag, at), NavDeed::Nothing);
}

// --- the lighting ---

#[test]
fn every_light_is_found_by_its_value_and_only_the_neutral_one_has_no_file() {
    let all = environments();
    assert_eq!(all.len(), 5);
    assert_eq!(all[0], default_environment());
    for id in all {
        assert_eq!(named(id.key()), Some(id));
        assert_eq!(environment_asset(id).is_none(), id == EnvironmentId::Neutral);
    }
    assert_eq!(named("Ferndale studio"), None);
    assert_eq!(EnvironmentId::Ferndale.name(), "Ferndale studio");
    assert_eq!(
        environment_asset(EnvironmentId::QwantaniDusk),
        Some("/assets/environment/qwantani_dusk_2_puresky_1k.hdr")
    );
}

#[test]
fn a_light_is_fetched_before_it_is_switched_to() {
    let id = EnvironmentId::BloemHill;
    let switch = Relight::Switch(ViewCommand::SetEnvironment(id));
    assert_eq!(set_environment(id, Some(false)), Relight::Fetch(id));
    assert_eq!(set_environment(id, Some(true)), switch);
    assert_eq!(set_environment(id, None), switch);
    assert_eq!(
        set_environment(EnvironmentId::Neutral, Some(false)),
        Relight::Switch(ViewCommand::SetEnvironment(EnvironmentId::Neutral))
    );
    assert_eq!(fetched(id, true, Some(true)), switch);
    assert_eq!(fetched(id, true, None), switch);
    assert_eq!(fetched(id, true, Some(false)), Relight::Keep);
    assert_eq!(fetched(id, false, Some(true)), Relight::Keep);
}

#[test]
fn a_media_knob_keeps_to_itself() {
    let media = MediaParams { height_strength: n(0.001), substrate_strength: n(0.002), specular: n(0.003) };
    assert_eq!(
        update_media(media, MediaKnob::Texture, n(0.009)),
        ViewCommand::SetMediaParams(MediaParams { substrate_strength: n(0.009), ..media })
    );
    assert_eq!(MediaKnob::Gloss.face(), ("Gloss", n(0.35)));
    assert_eq!(swatch_style(n(100.0), n(5.5), n(0.0)), "background: rgb(100.0% 5.5% 0.0%);");
    assert_eq!(swatch_class(true), "swatch open");
    assert!(closes_with_the_panel(Some(PopoutId::SubstrateGallery)));
    assert!(!closes_with_the_panel(Some(PopoutId::Parcel)));
    assert!(!closes_with_the_panel(None));
}

// --- the pop-outs ---

fn boxed(top: i32, height: i32) -> ElementBox {
    ElementBox { left: 0, top, width: 10, height }
}

#[test]
fn a_popout_of_the_stack_follows_its_row_until_the_canvas_is_in_hand() {
    assert_eq!(placing(Some(PopoutId::SubstrateColor), false), Placing::Follow(PopoutId::SubstrateColor));
    assert_eq!(placing(Some(PopoutId::SubstrateColor), true), Placing::Close);
    assert_eq!(placing(Some(PopoutId::GradientLibrary), true), Placing::Unplace);
    assert_eq!(placing(None, true), Placing::Unplace);
}

#[test]
fn a_popout_grows_where_there_is_more_room() {
    assert_eq!(grows(1000, &boxed(100, 20)), Grow::Down);
    assert_eq!(grows(1000, &boxed(900, 20)), Grow::Up);
    assert_eq!(grows(1000, &boxed(490, 20)), Grow::Down, "a tie goes down");
}

#[test]
fn a_popout_stands_at_the_edge_it_grows_from() {
    assert_eq!(edge(Grow::Down, &boxed(6400, 640)), 6400);
    assert_eq!(edge(Grow::Up, &boxed(6400, 640)), 7040);
    assert_eq!(edge(Grow::Up, &boxed(i32::MAX, i32::MAX)), 2 * i32::MAX as i64);
    assert_eq!(place(Grow::Down, n(100.0), "max-height: 9px;"), "top: 100.0px; max-height: 9px;");
    assert_eq!(
        place(Grow::Up, n(110.25), "max-height: 9px;"),
        "top: 110.2px; transform: translateY(-100%); max-height: 9px;",
        "a quarter goes to the even tenth"
    );
    assert_eq!(place(Grow::Down, n(-0.01), ""), "top: -0.0px; ");
}

#[test]
fn a_row_scrolled_away_has_no_popout() {
    let stack = Some(boxed(0, 500));
    let half = Some(boxed(-10, 20));
    assert_eq!(showing_row(half, stack), half);
    assert_eq!(showing_row(Some(boxed(-20, 20)), stack), None);
    assert_eq!(showing_row(Some(boxed(500, 20)), stack), None);
    assert_eq!(showing_row(half, None), None);
    assert_eq!(showing_row(None, stack), None);
}
