//! The eyedropper's reach, its fence and its patch.
use stark_ui::model::{LayerId, Tool};
use stark_ui::panels::pick::{armed, source_chip, sources, Hand};
use stark_ui::pick::{patch_word, PickScope, PickSource, Sampler, PATCHES};

#[test]
fn a_patch_is_named_by_its_radius() {
    assert_eq!(patch_word(0), "Point");
    assert_eq!(patch_word(1), "3\u{00D7}3");
    assert_eq!(patch_word(5), "11\u{00D7}11");
}

#[test]
fn the_patches_widen() {
    assert!(PATCHES.windows(2).all(|w| w[0] < w[1]));
    assert_eq!(PATCHES[0], 0, "the row leads with the single texel");
}

#[test]
fn the_canvas_stands_behind_a_sample_exactly_when_the_fence_is_down() {
    let open = Sampler {
        group_only: false,
        ..Sampler::default()
    };
    assert_eq!(
        Sampler::default().options(None).source,
        PickSource::Composite
    );
    assert_eq!(
        open.options(None).source,
        PickSource::CompositeOverSubstrate
    );
}

#[test]
fn each_reach_resolves_against_the_selected_layer() {
    let id = LayerId::root();
    let fenced = Sampler::default();
    let open = Sampler {
        group_only: false,
        ..fenced
    };
    for (scope, fenced_source, open_source) in [
        (
            PickScope::ThisLayer,
            PickSource::Layer(id),
            PickSource::Layer(id),
        ),
        (
            PickScope::AndBelow,
            PickSource::Group {
                layer: id,
                below: true,
            },
            PickSource::Below(id),
        ),
        (
            PickScope::AllLayers,
            PickSource::Group {
                layer: id,
                below: false,
            },
            PickSource::CompositeOverSubstrate,
        ),
    ] {
        assert_eq!(
            Sampler { scope, ..fenced }.options(Some(id)).source,
            fenced_source,
            "{scope:?} fenced"
        );
        assert_eq!(
            Sampler { scope, ..open }.options(Some(id)).source,
            open_source,
            "{scope:?} unfenced"
        );
    }
}

#[test]
fn one_layer_does_not_care_about_the_fence() {
    let id = LayerId::root();
    let this = Sampler {
        scope: PickScope::ThisLayer,
        ..Sampler::default()
    };
    assert_eq!(
        this.options(Some(id)).source,
        Sampler {
            group_only: false,
            ..this
        }
        .options(Some(id))
        .source
    );
}

#[test]
fn the_patch_reaches_the_engine() {
    for radius in PATCHES {
        let sampler = Sampler {
            radius,
            ..Sampler::default()
        };
        assert_eq!(sampler.options(None).radius, radius);
    }
}

#[test]
fn the_widest_patch_there_is_still_has_a_name() {
    assert_eq!(patch_word(2147483647), "4294967295\u{00D7}4294967295");
}

#[test]
fn the_bar_is_up_only_while_the_pick_is_armed() {
    let hand = Hand {
        chord: true,
        picking: false,
        canvas_active: false,
        space_down: false,
        tool: Tool::Brush,
    };
    assert!(armed(hand));
    assert!(!armed(Hand { chord: false, ..hand }));
    assert!(!armed(Hand { picking: true, ..hand }));
    assert!(!armed(Hand { canvas_active: true, ..hand }));
    assert!(!armed(Hand { space_down: true, ..hand }));
    assert!(!armed(Hand { tool: Tool::SelectLasso, ..hand }));
}

#[test]
fn the_reaches_are_listed_by_how_much_they_let_in() {
    let words: Vec<&str> = sources().into_iter().map(|s| source_chip(s).0).collect();
    assert_eq!(words, ["This layer", "+ Below", "All layers"]);
}
