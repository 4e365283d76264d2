//! What the interface remembers.
use stark_ui::amount::Amount;
use stark_ui::prefs::{stored_name, ChromeHiding, EngineDefaults, Hdr, Prefs, PrefsRecord};

fn n(v: f32) -> Amount {
    Amount { bits: v.to_bits() }
}

const ENGINE: EngineDefaults = EngineDefaults {
    history_budget: 512,
    fast_commit: true,
};

fn empty() -> PrefsRecord {
    PrefsRecord {
        assist: None,
        minimal: None,
        chrome_hiding: None,
        show_peer_selections: None,
        tips: None,
        history_budget: None,
        fast_commit: None,
        hdr: None,
    }
}

#[test]
fn a_chrome_mode_round_trips_through_its_stored_name() {
    for mode in [
        ChromeHiding::Never,
        ChromeHiding::WhilePainting,
        ChromeHiding::AfterPainting,
    ] {
        assert_eq!(ChromeHiding::from(mode.key().to_string()), mode);
    }
    assert_eq!(
        ChromeHiding::from("hide-on-tuesdays".to_string()),
        ChromeHiding::default(),
    );
    assert!(ChromeHiding::default().sleeps());
    assert!(ChromeHiding::default().fades());
    assert!(!ChromeHiding::Never.fades(), "never means never");
    assert!(
        !ChromeHiding::WhilePainting.sleeps(),
        "the stack comes straight back",
    );
}

#[test]
fn a_stored_headroom_is_held_to_the_slider() {
    let wild = |headroom: f32| Hdr { on: true, headroom: n(headroom) }.clamped_headroom();
    assert_eq!(wild(0.25).bits, Hdr::MIN_HEADROOM);
    assert_eq!(wild(64.0).bits, Hdr::MAX_HEADROOM);
    assert_eq!(wild(f32::NAN), Hdr::default().headroom);
    assert_eq!(wild(f32::NEG_INFINITY), n(2.0));
    assert_eq!(wild(-3.0), n(1.0));
    assert_eq!(wild(3.0), n(3.0));
    let old = Prefs::from_record(empty(), ENGINE);
    assert_eq!(old.hdr, Hdr::default());
}

#[test]
fn a_mode_is_stored_under_its_own_name() {
    assert_eq!(stored_name(ChromeHiding::Never), ChromeHiding::Never.key());
    assert_ne!(
        stored_name(ChromeHiding::WhilePainting),
        stored_name(ChromeHiding::AfterPainting)
    );
}

#[test]
fn an_empty_record_reads_as_the_defaults() {
    assert_eq!(Prefs::from_record(empty(), ENGINE), Prefs::defaults(ENGINE));
    assert_eq!(Prefs::defaults(ENGINE).history_budget, 512);
    assert!(Prefs::defaults(ENGINE).fast_commit);
}

#[test]
fn a_record_keeps_what_it_says_and_takes_the_rest_from_the_defaults() {
    let record = PrefsRecord {
        chrome_hiding: Some(ChromeHiding::Never),
        history_budget: Some(7),
        ..empty()
    };
    let prefs = Prefs::from_record(record, ENGINE);
    let plain = Prefs::defaults(ENGINE);
    assert_eq!(prefs.chrome_hiding, ChromeHiding::Never);
    assert_eq!(prefs.history_budget, 7);
    assert_eq!(prefs.fast_commit, plain.fast_commit);
    assert_eq!(prefs.tips, plain.tips);
}
