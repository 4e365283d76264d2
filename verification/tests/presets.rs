//! The preset library.
use stark_ui::amount::Amount;
use stark_ui::brush_config::{
    Amplitude, BrushConfig, BrushDefaults, BrushEffectType, BrushModulations, BrushShape, Color,
    ColorDynamics, EraseConfig, Frequency, LiquifyConfig, NoiseKind, OrientationSource, ToothParams,
    Transient, WetDynamics,
};
use stark_ui::panels::brush::{
    hint_class, row_background, row_class, row_end, row_end_title, save_disabled, save_word,
    set_orientation, set_shape, Naming, RowEnd, SaveDialog,
};
use stark_ui::presets::{
    find, is_builtin, next_name, overwrite, persist, read_storage, same_brush, same_tool, shipped,
    BuiltinShapes, Overwrite, PresetEntry, ERASER_SLOT, SLOT_COUNT,
};

fn n(v: f32) -> Amount {
    Amount { bits: v.to_bits() }
}

fn number(a: Amount) -> f32 {
    f32::from_bits(a.bits)
}

fn plain() -> BrushConfig {
    BrushConfig {
        shape: BrushShape::Round { hardness: n(1.0) },
        effect: BrushEffectType::Paint,
        opacity: n(1.0),
        drain: n(0.0),
        jitter: n(0.0),
        stretch: n(0.0),
        smoothing: n(0.0),
        start_taper_length: n(0.0),
        end_taper_length: n(0.0),
        orientation: OrientationSource::Fixed,
        tooth: tooth(),
        flow_modulation: None,
        opacity_modulation: None,
        color_dynamics: ColorDynamics {
            noise: NoiseKind::Simplex,
            frequency: Frequency { along: n(0.0), across: n(0.0) },
            amplitude: Amplitude { lightness: n(0.0), a: n(0.0), b: n(0.0) },
        },
        modulation: modulation(),
        wet: wet(),
        erase: erase(),
        liquify: liquify(),
    }
}

fn tooth() -> ToothParams {
    ToothParams { give: n(0.0), softness: n(0.1) }
}

fn modulation() -> BrushModulations {
    BrushModulations { size: None, stretch: None, tooth_give: None }
}

fn wet() -> WetDynamics {
    WetDynamics {
        add: n(1.0),
        lift: n(0.0),
        deposit: n(0.0),
        bleed: n(0.0),
        lift_modulation: None,
        bleed_modulation: None,
    }
}

fn erase() -> EraseConfig {
    EraseConfig { opacity: n(1.0), opacity_modulation: None }
}

fn liquify() -> LiquifyConfig {
    LiquifyConfig { strength: n(1.0), strength_modulation: None }
}

fn still() -> Transient {
    Transient {
        size: n(20.0),
        flow: n(1.0),
        color: Color { r: n(0.0), g: n(0.0), b: n(0.0) },
    }
}

fn defaults() -> BrushDefaults {
    BrushDefaults {
        brush: plain(),
        shape: BrushShape::Round { hardness: n(0.75) },
        modulation: modulation(),
        tooth: tooth(),
        wet: wet(),
        erase: erase(),
        liquify: liquify(),
        transient: still(),
    }
}

fn table() -> Vec<PresetEntry> {
    shipped(BuiltinShapes::unset(&defaults()), &defaults())
}

fn mine(name: &str) -> PresetEntry {
    PresetEntry {
        name: name.to_string(),
        brush: plain(),
        transient: still(),
        slot: None,
        builtin: false,
    }
}

#[test]
fn everything_the_app_ships_says_so() {
    assert!(table().iter().all(|e| e.builtin));
}

#[test]
fn every_shipped_preset_has_a_distinct_home_on_the_rack() {
    let mut seen = Vec::new();
    for entry in table() {
        let Some(slot) = entry.slot else {
            continue;
        };
        assert!(slot < SLOT_COUNT, "{} ships on {slot}", entry.name);
        assert!(!seen.contains(&slot), "two presets ship on {slot}");
        seen.push(slot);
    }
}

#[test]
fn names_are_unique() {
    let mut names: Vec<String> = table().into_iter().map(|e| e.name).collect();
    names.sort();
    let before = names.len();
    names.dedup();
    assert_eq!(names.len(), before);
}

#[test]
fn the_shipped_eraser_erases() {
    let e = table()
        .into_iter()
        .find(|e| e.slot == Some(ERASER_SLOT))
        .expect("an eraser ships on the pen's own slot");
    assert_eq!(
        e.brush.effect,
        BrushEffectType::Erase,
        "the pen's tail must erase, not paint"
    );
    assert!(
        number(e.brush.erase.opacity) > 0.0,
        "an eraser at no strength does nothing"
    );
    assert!(
        number(e.transient.flow) > 0.0,
        "flow is the erase pass's rate; at zero the eraser would do nothing"
    );
}

#[test]
fn the_startup_brush_is_not_the_eraser() {
    let first = table().into_iter().next().expect("the app ships presets");
    assert_ne!(first.slot, Some(ERASER_SLOT));
}

#[test]
fn the_same_tool_is_the_preset_at_any_size_and_flow() {
    let preset = BrushConfig {
        drain: n(0.2),
        ..plain()
    };
    let thinned = BrushConfig {
        opacity: n(0.4),
        ..preset
    };
    let smoothed = BrushConfig {
        smoothing: n(0.5),
        ..preset
    };
    let erasing = BrushConfig {
        effect: BrushEffectType::Erase,
        ..preset
    };

    assert!(!same_tool(&thinned, &preset), "opacity is the tool's");
    assert!(!same_tool(&smoothed, &preset), "the feel is the tool's");
    assert!(!same_tool(&erasing, &preset), "the effect is the tool");
    let tune = still();
    let resized = Transient {
        size: n(80.0),
        ..tune
    };
    let recolored = Transient {
        color: Color {
            r: n(0.9),
            g: n(0.1),
            b: n(0.2),
        },
        ..tune
    };
    assert!(same_brush(&(preset, recolored), &(preset, tune)));
    assert!(!same_brush(&(preset, resized), &(preset, tune)));
}

#[test]
fn overwrite_answers_for_the_preset_in_hand() {
    let mut entries = table();
    let mine = BrushConfig {
        drain: n(0.2),
        ..plain()
    };
    let tune = Transient {
        size: n(33.0),
        ..still()
    };
    entries.push(PresetEntry {
        name: "Mine".into(),
        brush: mine,
        transient: tune,
        slot: None,
        builtin: false,
    });
    let builtin = entries[0].name.clone();
    let edited = (
        mine,
        Transient {
            size: n(34.0),
            ..tune
        },
    );
    let recolored = Transient {
        color: Color {
            r: n(0.9),
            g: n(0.1),
            b: n(0.2),
        },
        ..tune
    };

    assert_eq!(overwrite(&entries, None, &edited), Overwrite::Nothing);
    assert_eq!(
        overwrite(&entries, Some("Gone"), &edited),
        Overwrite::Nothing
    );
    assert_eq!(
        overwrite(&entries, Some(&builtin), &edited),
        Overwrite::Builtin(builtin)
    );
    assert_eq!(
        overwrite(&entries, Some("Mine"), &(mine, tune)),
        Overwrite::Unchanged("Mine".into())
    );
    assert_eq!(
        overwrite(&entries, Some("Mine"), &(mine, recolored)),
        Overwrite::Unchanged("Mine".into())
    );
    assert_eq!(
        overwrite(&entries, Some("Mine"), &edited),
        Overwrite::Ready("Mine".into())
    );
}

#[test]
fn the_app_opens_on_the_hard_round() {
    let first = &table()[0];
    assert_eq!(first.name, "Hard Round");
    assert_eq!(first.slot, Some(1));
    assert_eq!(first.brush.smoothing, n(0.15));
    assert_eq!((first.transient.size, first.transient.flow), (n(100.0), n(3.0)));
    assert_eq!(first.brush.drain, n(0.1));
    assert_eq!(first.brush.shape, BrushShape::Round { hardness: n(0.98) });
    assert_eq!(first.brush.effect, BrushEffectType::Wet);
}

#[test]
fn the_first_free_name_is_proposed() {
    assert_eq!(next_name(&[]), "Preset 1");
    assert_eq!(next_name(&[mine("Preset 2")]), "Preset 1");
    assert_eq!(
        next_name(&[mine("Preset 2"), mine("Preset 1"), mine("Preset 4")]),
        "Preset 3"
    );
}

#[test]
fn only_the_app_s_own_names_are_refused() {
    let mut entries = table();
    entries.push(mine("Mine"));
    assert!(is_builtin(&entries, "Hard Round"));
    assert!(!is_builtin(&entries, "Mine"));
    assert!(!is_builtin(&entries, "hard round"));
    assert_eq!(find(&entries, "Mine").map(|e| e.builtin), Some(false));
    assert!(find(&entries, "Nobody").is_none());
}

#[test]
fn only_the_user_s_presets_are_stored_and_they_read_back() {
    let mut entries = table();
    entries.push(mine("One"));
    entries.push(PresetEntry {
        slot: Some(4),
        ..mine("Two")
    });
    let stored = persist(&entries);
    assert_eq!(
        stored.iter().map(|s| s.name.as_str()).collect::<Vec<_>>(),
        ["One", "Two"]
    );
    let read = read_storage(Some(stored)).expect("a record reads");
    assert_eq!(read, vec![mine("One"), mine("Two")]);
    assert!(read_storage(None).is_none());
}

#[test]
fn the_dialog_opens_on_a_name_that_saves() {
    let entries = table();
    let dialog = SaveDialog::open(&entries);
    assert_eq!(dialog.name, "Preset 1");
    let naming = dialog.naming(&entries);
    assert_eq!(naming, Naming::New);
    assert_eq!(save_word(naming), "Save");
    assert!(!save_disabled(naming));
    assert_eq!(dialog.hint(&entries), "");
    assert_eq!(dialog.save(&entries).as_deref(), Some("Preset 1"));
}

#[test]
fn the_dialog_says_what_it_makes_of_a_name() {
    let mut entries = table();
    entries.push(mine("Mine"));
    let mut dialog = SaveDialog::open(&entries);

    dialog.input("  Mine ".to_string());
    assert_eq!(dialog.naming(&entries), Naming::Replaces);
    assert_eq!(save_word(Naming::Replaces), "Replace");
    assert_eq!(
        dialog.hint(&entries),
        "Replaces the preset already called \u{201C}Mine\u{201D}."
    );
    assert_eq!(dialog.save(&entries).as_deref(), Some("Mine"));

    dialog.input("Hard Round".to_string());
    assert_eq!(dialog.naming(&entries), Naming::Refused);
    assert!(save_disabled(Naming::Refused));
    assert_eq!(dialog.save(&entries), None, "it is not the user's to replace");
    assert_eq!(hint_class(Naming::Refused), "modal-hint refused");
    assert_eq!(
        dialog.hint(&entries),
        "\u{201C}Hard Round\u{201D} is one of the app's own presets, which it keeps up to date. Pick another name."
    );

    dialog.input(" \t\u{3000} ".to_string());
    assert_eq!(dialog.naming(&entries), Naming::Blank);
    assert!(save_disabled(Naming::Blank));
    assert_eq!(dialog.save(&entries), None);
}

#[test]
fn a_preset_row_shows_its_stroke_and_whose_it_is() {
    assert_eq!(row_class(true), "preset-row active");
    assert_eq!(row_class(false), "preset-row");
    assert_eq!(
        row_background(Some("blob:7")),
        "background-image: url(blob:7);"
    );
    assert_eq!(row_background(Some("")), "background-image: none;");
    assert_eq!(row_background(None), "background-image: none;");
    assert_eq!(row_end(true), RowEnd::Lock);
    assert_eq!(row_end_title(row_end(false)), "Remove preset");
}

#[test]
fn a_knob_of_the_brush_is_set_alone() {
    let stamped = set_shape(plain(), BrushShape::Round { hardness: n(0.25) });
    assert_eq!(stamped, BrushConfig { shape: BrushShape::Round { hardness: n(0.25) }, ..plain() });
    let turned = set_orientation(plain(), OrientationSource::Pen);
    assert_eq!(turned, BrushConfig { orientation: OrientationSource::Pen, ..plain() });
}

/// Every number of the table, as it is written.
#[test]
fn the_shipped_numbers_are_the_ones_written_down() {
    let t = table();
    let (size, flow, smoothing) = (
        t.iter().map(|e| number(e.transient.size)).collect::<Vec<_>>(),
        t.iter().map(|e| number(e.transient.flow)).collect::<Vec<_>>(),
        t.iter().map(|e| number(e.brush.smoothing)).collect::<Vec<_>>(),
    );
    assert_eq!(size, [100.0, 100.0, 18.0, 30.0, 500.0, 100.0, 80.0, 40.0, 90.0]);
    assert_eq!(flow, [3.0, 3.0, 1.0, 0.4, 0.1, 1.0, 1.0, 2.0, 1.0]);
    assert_eq!(smoothing, [0.15, 0.15, 0.5, 0.0, 0.1, 0.1, 0.0, 0.0, 0.2]);
    let wet = |i: usize| t[i].brush.wet;
    assert_eq!((wet(0).lift, wet(0).deposit, wet(0).bleed), (n(0.1), n(0.37), n(0.08)));
    assert_eq!(wet(1).bleed, n(0.17));
    assert_eq!((wet(5).add, wet(5).lift, wet(5).deposit), (n(0.0), n(0.25), n(0.75)));
    assert_eq!(t[0].brush.modulation.size.map(|m| m.floor), Some(n(0.8)));
    assert_eq!(t[4].brush.modulation.size.map(|m| m.floor), Some(n(0.6)));
    assert_eq!(t[3].brush.modulation.stretch.map(|m| m.curve), Some(n(-0.5)));
    assert_eq!((t[3].brush.jitter, t[3].brush.stretch), (n(0.1), n(0.75)));
    assert_eq!((t[2].brush.start_taper_length, t[2].brush.end_taper_length), (n(5.0), n(11.0)));
    let wander = t[0].brush.color_dynamics;
    assert_eq!((wander.frequency.along, wander.frequency.across), (n(0.05), n(0.1)));
    assert_eq!((wander.amplitude.a, wander.amplitude.b), (n(0.025), n(0.05)));
    assert_eq!(t[3].brush.color_dynamics.amplitude.lightness, n(0.01));
    assert_eq!(t[6].brush.shape, BrushShape::Round { hardness: n(0.25) });
    assert_eq!(t[7].brush.shape, BrushShape::Round { hardness: n(0.95) });
    assert_eq!(t[1].brush.shape, BrushShape::Round { hardness: n(0.75) }, "no stamp yet");
}

#[test]
fn brushes_are_compared_by_their_numbers() {
    let unsigned = BrushConfig { drain: n(0.0), ..plain() };
    let signed = BrushConfig { drain: n(-0.0), ..plain() };
    assert!(same_tool(&unsigned, &signed), "a zero has no sign");
    let lost = BrushConfig { drain: n(f32::NAN), ..plain() };
    assert!(!same_tool(&lost, &lost), "no number is the same as nothing");
    let near = BrushConfig { drain: n(f32::from_bits(0.1f32.to_bits() + 1)), ..plain() };
    assert!(!same_tool(&near, &BrushConfig { drain: n(0.1), ..plain() }));
}
