//! The standing preferences a client keeps between visits: what a settings dialog sets.
//!
//! A setting is never written into the document and never sent to peers. A field that a
//! stored record does not hold reads as its default, which is what makes the record
//! extensible from one version to the next.
use crate::text;
use crate::amount::{amount, Amount};
use vstd::prelude::*;

verus! {

/// What the floating chrome does while the canvas is in hand.
///
/// Three states rather than two switches, because the fourth combination does not exist: a
/// stack that stays down after a gesture it never faded for.
#[derive(Clone, Copy, PartialEq, Eq, Structural, Debug)]
pub enum ChromeHiding {
    /// Never get out of the way.
    Never,
    /// Fade for the length of a canvas gesture and come straight back when it ends.
    WhilePainting,
    /// Fade for the gesture, and leave the panel stack down afterwards until the pointer
    /// reaches into its column. The default.
    AfterPainting,
}

impl Default for ChromeHiding {
    fn default() -> (mode: Self)
        ensures
            mode == ChromeHiding::AfterPainting,
    {
        ChromeHiding::AfterPainting
    }
}

impl ChromeHiding {
    /// The name a mode is stored and chosen by.
    pub open spec fn name(self) -> Seq<char> {
        match self {
            ChromeHiding::Never => "never"@,
            ChromeHiding::WhilePainting => "while-painting"@,
            ChromeHiding::AfterPainting => "after-painting"@,
        }
    }

    /// The mode of a name, and the default for a name that no mode has: a preference
    /// written by a later version, or a damaged one.
    pub open spec fn named(name: Seq<char>) -> ChromeHiding {
        if name == "never"@ {
            ChromeHiding::Never
        } else if name == "while-painting"@ {
            ChromeHiding::WhilePainting
        } else {
            ChromeHiding::AfterPainting
        }
    }

    /// Whether a canvas gesture takes the chrome with it.
    pub fn fades(self) -> (fades: bool)
        ensures
            fades == (self != ChromeHiding::Never),
    {
        !matches!(self, ChromeHiding::Never)
    }

    /// Whether the panel stack stays down once the gesture has ended.
    pub fn sleeps(self) -> (sleeps: bool)
        ensures
            sleeps == (self == ChromeHiding::AfterPainting),
    {
        matches!(self, ChromeHiding::AfterPainting)
    }

    /// The name this is stored and chosen by: one vocabulary for the store and the
    /// dialog.
    pub fn key(self) -> (key: &'static str)
        ensures
            key@ == self.name(),
    {
        match self {
            ChromeHiding::Never => "never",
            ChromeHiding::WhilePainting => "while-painting",
            ChromeHiding::AfterPainting => "after-painting",
        }
    }
}

impl From<String> for ChromeHiding {
    /// Lenient on purpose: one name that is not known must not take every other setting of
    /// the record down with it.
    fn from(name: String) -> Self {
        if text::same(name.as_str(), "never") {
            ChromeHiding::Never
        } else if text::same(name.as_str(), "while-painting") {
            ChromeHiding::WhilePainting
        } else {
            ChromeHiding::AfterPainting
        }
    }
}

impl vstd::std_specs::convert::FromSpecImpl<String> for ChromeHiding {
    open spec fn obeys_from_spec() -> bool {
        true
    }

    open spec fn from_spec(name: String) -> Self {
        ChromeHiding::named(name@)
    }
}

/// The stored name of a mode.
pub fn stored_name(mode: ChromeHiding) -> (name: String)
    ensures
        name@ == mode.name(),
{
    mode.key().to_owned()
}

/// A mode's stored name reads back as the mode.
pub proof fn law_a_chrome_mode_reads_back(mode: ChromeHiding)
    ensures
        ChromeHiding::named(mode.name()) == mode,
{
    reveal_strlit("never");
    reveal_strlit("while-painting");
    reveal_strlit("after-painting");
    assert("while-painting"@[0] == 'w');
    assert("after-painting"@[0] == 'a');
}

/// A name that no mode is stored by reads as the default, which fades and sleeps.
pub proof fn law_an_unknown_mode_reads_as_the_default(name: Seq<char>)
    requires
        forall|mode: ChromeHiding| #[trigger] mode.name() != name,
    ensures
        ChromeHiding::named(name) == ChromeHiding::AfterPainting,
{
    assert(ChromeHiding::Never.name() != name);
    assert(ChromeHiding::WhilePainting.name() != name);
}

/// The HDR switch and the headroom slider under it. Off, the canvas is drawn as an export
/// would be.
#[derive(Clone, Copy, PartialEq, Eq, Structural, Debug)]
pub struct Hdr {
    pub on: bool,
    /// In multiples of SDR white. A stored value outside the slider's range reads back clamped.
    pub headroom: Amount,
}

impl Hdr {
    /// One, by its bits: SDR white itself.
    pub const MIN_HEADROOM: u32 = 0x3f80_0000;

    /// Eight, by its bits: three stops over white.
    pub const MAX_HEADROOM: u32 = 0x4100_0000;

    /// Two, by its bits: one stop over white, which is what every HDR panel drives.
    pub const DEFAULT_HEADROOM: u32 = 0x4000_0000;

    /// The headroom held to the slider's range.
    pub open spec fn held(self) -> Amount {
        let least = amount(Hdr::MIN_HEADROOM);
        let most = amount(Hdr::MAX_HEADROOM);
        if !self.headroom.is_finite() {
            amount(Hdr::DEFAULT_HEADROOM)
        } else if self.headroom.order() < least.order() {
            least
        } else if self.headroom.order() > most.order() {
            most
        } else {
            self.headroom
        }
    }

    /// The headroom as this record stores it, held to the slider's range.
    pub fn clamped_headroom(self) -> (headroom: Amount)
        ensures
            headroom == self.held(),
            headroom.is_finite(),
            amount(Hdr::MIN_HEADROOM).order() <= headroom.order() <= amount(
                Hdr::MAX_HEADROOM,
            ).order(),
    {
        let least: Amount = amount(Hdr::MIN_HEADROOM);
        let most: Amount = amount(Hdr::MAX_HEADROOM);
        if !self.headroom.finite() {
            amount(Hdr::DEFAULT_HEADROOM)
        } else if self.headroom.below(least) {
            least
        } else if most.below(self.headroom) {
            most
        } else {
            self.headroom
        }
    }
}

impl Default for Hdr {
    /// On: previewing an export is the exception, not the session.
    fn default() -> (hdr: Self)
        ensures
            hdr == (Hdr { on: true, headroom: amount(Hdr::DEFAULT_HEADROOM) }),
    {
        Hdr { on: true, headroom: amount(Hdr::DEFAULT_HEADROOM) }
    }
}

/// Clamping what is clamped changes nothing.
pub proof fn law_clamping_settles(hdr: Hdr)
    ensures
        (Hdr { on: hdr.on, headroom: hdr.held() }).held() == hdr.held(),
{
}

/// Every preference the dialog sets, in the form they are stored in.
#[derive(Clone, Copy, PartialEq, Eq, Structural, Debug)]
pub struct Prefs {
    /// Whether holding a stroke still snaps it to a line or an ellipse.
    pub assist: bool,
    /// Whether the chrome over the canvas drops its words and keeps its marks.
    pub minimal: bool,
    /// Whether the chrome gets out of the way while you paint, and for how long.
    pub chrome_hiding: ChromeHiding,
    /// Whether collaborators' selections are outlined alongside your own.
    pub show_peer_selections: bool,
    /// Whether the guided tour offers its lessons.
    pub tips: bool,
    /// How much GPU memory undo history may hold before the oldest steps are given up, in
    /// bytes.
    pub history_budget: u64,
    /// Whether a stroke's commit keeps the pixels its preview already drew.
    pub fast_commit: bool,
    /// The HDR switch and headroom.
    pub hdr: Hdr,
}

/// The two defaults that are the engine's own.
#[derive(Clone, Copy, PartialEq, Eq, Structural, Debug)]
pub struct EngineDefaults {
    pub history_budget: u64,
    pub fast_commit: bool,
}

/// The preferences as a stored record holds them: any field may be missing.
#[derive(Clone, Copy, PartialEq, Eq, Structural, Debug)]
pub struct PrefsRecord {
    pub assist: Option<bool>,
    pub minimal: Option<bool>,
    pub chrome_hiding: Option<ChromeHiding>,
    pub show_peer_selections: Option<bool>,
    pub tips: Option<bool>,
    pub history_budget: Option<u64>,
    pub fast_commit: Option<bool>,
    pub hdr: Option<Hdr>,
}

/// A value that was stored, or what stands in for one that was not.
pub open spec fn or_default<T>(stored: Option<T>, default: T) -> T {
    match stored {
        Some(value) => value,
        None => default,
    }
}

impl Prefs {
    /// The app's defaults, and the authority on them.
    pub open spec fn out_of_the_box(engine: EngineDefaults) -> Prefs {
        Prefs {
            assist: true,
            minimal: false,
            chrome_hiding: ChromeHiding::AfterPainting,
            show_peer_selections: false,
            tips: true,
            history_budget: engine.history_budget,
            fast_commit: engine.fast_commit,
            hdr: Hdr { on: true, headroom: amount(Hdr::DEFAULT_HEADROOM) },
        }
    }

    /// The preferences that a record reads as.
    pub open spec fn read(record: PrefsRecord, engine: EngineDefaults) -> Prefs {
        let d = Prefs::out_of_the_box(engine);
        Prefs {
            assist: or_default(record.assist, d.assist),
            minimal: or_default(record.minimal, d.minimal),
            chrome_hiding: or_default(record.chrome_hiding, d.chrome_hiding),
            show_peer_selections: or_default(record.show_peer_selections, d.show_peer_selections),
            tips: or_default(record.tips, d.tips),
            history_budget: or_default(record.history_budget, d.history_budget),
            fast_commit: or_default(record.fast_commit, d.fast_commit),
            hdr: or_default(record.hdr, d.hdr),
        }
    }

    /// The record that preferences are stored as: every field of them.
    pub open spec fn stored(self) -> PrefsRecord {
        PrefsRecord {
            assist: Some(self.assist),
            minimal: Some(self.minimal),
            chrome_hiding: Some(self.chrome_hiding),
            show_peer_selections: Some(self.show_peer_selections),
            tips: Some(self.tips),
            history_budget: Some(self.history_budget),
            fast_commit: Some(self.fast_commit),
            hdr: Some(self.hdr),
        }
    }

    /// The app's defaults. The history budget and the commit are the engine's own, not a
    /// second opinion about them.
    pub fn defaults(engine: EngineDefaults) -> (prefs: Prefs)
        ensures
            prefs == Prefs::out_of_the_box(engine),
    {
        Prefs {
            // On, because the assist is most of the value of a hold.
            assist: true,
            // Off, because the words are how the chrome is *learned*.
            minimal: false,
            chrome_hiding: ChromeHiding::default(),
            // Off, because a second contour over the artwork is paid for on every frame.
            show_peer_selections: false,
            // On, because the tour is for the artist who has not found the switch yet.
            tips: true,
            history_budget: engine.history_budget,
            fast_commit: engine.fast_commit,
            hdr: Hdr::default(),
        }
    }

    /// The preferences that a stored record reads as, each missing field its default.
    pub fn from_record(record: PrefsRecord, engine: EngineDefaults) -> (prefs: Prefs)
        ensures
            prefs == Prefs::read(record, engine),
    {
        let d = Prefs::defaults(engine);
        Prefs {
            assist: kept_or(record.assist, d.assist),
            minimal: kept_or(record.minimal, d.minimal),
            chrome_hiding: kept_or(record.chrome_hiding, d.chrome_hiding),
            show_peer_selections: kept_or(record.show_peer_selections, d.show_peer_selections),
            tips: kept_or(record.tips, d.tips),
            history_budget: kept_or(record.history_budget, d.history_budget),
            fast_commit: kept_or(record.fast_commit, d.fast_commit),
            hdr: kept_or(record.hdr, d.hdr),
        }
    }
}

fn kept_or<T>(stored: Option<T>, default: T) -> (value: T)
    ensures
        value == or_default(stored, default),
{
    match stored {
        Some(value) => value,
        None => default,
    }
}

/// An empty record reads as the defaults.
pub proof fn law_an_empty_record_reads_as_the_defaults(engine: EngineDefaults)
    ensures
        Prefs::read(
            PrefsRecord {
                assist: None,
                minimal: None,
                chrome_hiding: None,
                show_peer_selections: None,
                tips: None,
                history_budget: None,
                fast_commit: None,
                hdr: None,
            },
            engine,
        ) == Prefs::out_of_the_box(engine),
{
}

/// Preferences that were stored read back as they were, whatever the engine's defaults.
pub proof fn law_stored_prefs_read_back(prefs: Prefs, engine: EngineDefaults)
    ensures
        Prefs::read(prefs.stored(), engine) == prefs,
{
}

/// A headroom between one and eight is kept to the bit. One below is held at one, one above at
/// eight, and what is no finite number is two.
pub proof fn law_a_headroom_is_held_to_the_slider(hdr: Hdr, held: Amount)
    requires
        call_ensures(Hdr::clamped_headroom, (hdr,), held),
    ensures
        ({
            let bits = hdr.headroom.bits;
            &&& 0x3f80_0000 <= bits <= 0x4100_0000 ==> held.bits == bits
            &&& bits < 0x3f80_0000 || 0x8000_0000 <= bits < 0xff80_0000 ==> held.bits == 0x3f80_0000
            &&& 0x4100_0000 < bits < 0x7f80_0000 ==> held.bits == 0x4100_0000
            &&& 0x7f80_0000 <= bits < 0x8000_0000 || 0xff80_0000 <= bits ==> held.bits == 0x4000_0000
        }),
{
}

/// A chrome that stays down after a gesture has faded for it.
pub proof fn law_what_sleeps_has_faded(mode: ChromeHiding, fades: bool, sleeps: bool)
    requires
        call_ensures(ChromeHiding::fades, (mode,), fades),
        call_ensures(ChromeHiding::sleeps, (mode,), sleeps),
    ensures
        sleeps ==> fades,
        !fades <==> mode == ChromeHiding::Never,
        fades && !sleeps <==> mode == ChromeHiding::WhilePainting,
{
}

/// Each field of a record reads by itself: what it holds where it holds something, and the
/// default's own where it does not, whatever the other fields hold.
pub proof fn law_a_field_reads_by_itself(
    record: PrefsRecord,
    engine: EngineDefaults,
    prefs: Prefs,
    d: Prefs,
)
    requires
        call_ensures(Prefs::from_record, (record, engine), prefs),
        call_ensures(Prefs::defaults, (engine,), d),
    ensures
        prefs.assist == (if record.assist is Some { record.assist->0 } else { d.assist }),
        prefs.minimal == (if record.minimal is Some { record.minimal->0 } else { d.minimal }),
        prefs.chrome_hiding == (if record.chrome_hiding is Some { record.chrome_hiding->0 } else {
            d.chrome_hiding
        }),
        prefs.show_peer_selections == (if record.show_peer_selections is Some {
            record.show_peer_selections->0
        } else { d.show_peer_selections }),
        prefs.tips == (if record.tips is Some { record.tips->0 } else { d.tips }),
        prefs.history_budget == (if record.history_budget is Some { record.history_budget->0 } else {
            d.history_budget
        }),
        prefs.fast_commit == (if record.fast_commit is Some { record.fast_commit->0 } else {
            d.fast_commit
        }),
        prefs.hdr == (if record.hdr is Some { record.hdr->0 } else { d.hdr }),
        d.history_budget == engine.history_budget,
        d.fast_commit == engine.fast_commit,
        d.assist && d.tips && !d.minimal && !d.show_peer_selections,
        d.chrome_hiding == ChromeHiding::AfterPainting,
        d.hdr.on && d.hdr.headroom.bits == 0x4000_0000,
{
}

} // verus!
