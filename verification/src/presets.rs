//! The brush preset library: named brush snapshots, and the ones the app ships.
//!
//! A preset is a whole brush **except the painting colour**: applying one keeps the hand's
//! colour while everything else comes from the preset, both the durable half and the
//! transient one it was saved at.
//!
//! What is here is the part with no app in it: the entry, the shipped table, the arithmetic
//! over a library (is this name taken, what an overwrite would mean), and the stored form.
use crate::brush_config::{
    Amplitude, BrushConfig, BrushDefaults, BrushEffectType, BrushModulations, BrushShape,
    ColorDynamics, EraseConfig, Frequency, LiquifyConfig, ModSource, Modulation, NoiseKind,
    OrientationSource, ToothParams, Transient, WetDynamics,
};
use crate::amount::{amount, Amount, ONE, ZERO};
use crate::text;
use vstd::prelude::*;

verus! {

/// The quick-brush slot that the pen's other end reaches.
pub const ERASER_SLOT: usize = 0;

/// How many quick-brush slots there are, one to a digit.
pub const SLOT_COUNT: usize = 10;

/// Numbers of the table below, by their bits: thousandths, hundredths, halves and whole ones.
pub const MINUS_HALF: u32 = 0xbf00_0000;

pub const HUNDREDTHS_1: u32 = 0x3c23_d70a;

pub const THOUSANDTHS_25: u32 = 0x3ccc_cccd;

pub const HUNDREDTHS_5: u32 = 0x3d4c_cccd;

pub const HUNDREDTHS_8: u32 = 0x3da3_d70a;

pub const HUNDREDTHS_10: u32 = 0x3dcc_cccd;

pub const HUNDREDTHS_15: u32 = 0x3e19_999a;

pub const HUNDREDTHS_17: u32 = 0x3e2e_147b;

pub const HUNDREDTHS_20: u32 = 0x3e4c_cccd;

pub const HUNDREDTHS_25: u32 = 0x3e80_0000;

pub const HUNDREDTHS_37: u32 = 0x3ebd_70a4;

pub const HUNDREDTHS_40: u32 = 0x3ecc_cccd;

pub const HALF: u32 = 0x3f00_0000;

pub const HUNDREDTHS_60: u32 = 0x3f19_999a;

pub const HUNDREDTHS_75: u32 = 0x3f40_0000;

pub const HUNDREDTHS_80: u32 = 0x3f4c_cccd;

pub const HUNDREDTHS_95: u32 = 0x3f73_3333;

pub const HUNDREDTHS_98: u32 = 0x3f7a_e148;

pub const WHOLE_2: u32 = 0x4000_0000;

pub const WHOLE_3: u32 = 0x4040_0000;

pub const WHOLE_5: u32 = 0x40a0_0000;

pub const WHOLE_11: u32 = 0x4130_0000;

pub const WHOLE_18: u32 = 0x4190_0000;

pub const WHOLE_30: u32 = 0x41f0_0000;

pub const WHOLE_40: u32 = 0x4220_0000;

pub const WHOLE_80: u32 = 0x42a0_0000;

pub const WHOLE_90: u32 = 0x42b4_0000;

pub const WHOLE_100: u32 = 0x42c8_0000;

pub const WHOLE_500: u32 = 0x43fa_0000;

/// One named preset in the library.
#[derive(Clone, PartialEq, Eq, Debug)]
pub struct PresetEntry {
    /// Display name; unique in the library (saving under a taken name overwrites, and a
    /// name the app has already taken is refused).
    pub name: String,
    /// The tool applied by clicking the preset: the durable half.
    pub brush: BrushConfig,
    /// The size and flow it was saved at: the transient half.
    pub transient: Transient,
    /// The digit this preset **ships on**, if any. Only the app's own presets declare one.
    pub slot: Option<usize>,
    /// Whether this is one of the app's own presets rather than the user's. Never stored:
    /// it is set where the entry is made.
    pub builtin: bool,
}

/// What an entry says.
pub struct PresetView {
    pub name: Seq<char>,
    pub brush: BrushConfig,
    pub transient: Transient,
    pub slot: Option<usize>,
    pub builtin: bool,
}

impl View for PresetEntry {
    type V = PresetView;

    open spec fn view(&self) -> PresetView {
        PresetView {
            name: self.name@,
            brush: self.brush,
            transient: self.transient,
            slot: self.slot,
            builtin: self.builtin,
        }
    }
}

/// What a list of entries says.
pub open spec fn library(entries: Seq<PresetEntry>) -> Seq<PresetView> {
    Seq::new(entries.len(), |i: int| entries[i]@)
}

/// The two bundled shapes the app's own presets reach for, resolved to content ids.
#[derive(Clone, Copy, PartialEq, Eq, Structural, Debug)]
pub struct BuiltinShapes {
    pub bristles: BrushShape,
    pub pencil: BrushShape,
}

impl BuiltinShapes {
    /// The tip that a brush has before anything is said about it, for both, which is what a
    /// session that has not imported the bundled images yet gets.
    pub fn unset(d: &BrushDefaults) -> (shapes: Self)
        ensures
            shapes.bristles == d.shape,
            shapes.pencil == d.shape,
    {
        BuiltinShapes { bristles: d.shape, pencil: d.shape }
    }
}

/// Pressure from `floor` up, straight.
pub open spec fn pressed(floor: Amount) -> Option<Modulation> {
    Some(Modulation { source: ModSource::Pressure, floor, curve: amount(ZERO) })
}

/// The colour wander the paint brushes share.
pub open spec fn simplex() -> ColorDynamics {
    ColorDynamics {
        noise: NoiseKind::Simplex,
        frequency: Frequency { along: amount(HUNDREDTHS_5), across: amount(HUNDREDTHS_10) },
        amplitude: Amplitude { lightness: amount(ZERO), a: amount(THOUSANDTHS_25), b: amount(HUNDREDTHS_5) },
    }
}

/// The everyday brush. Its exchange is per pass at the neutral flow, and it rides at three
/// times that, so the axes are quoted low.
pub open spec fn hard_round(d: BrushDefaults) -> BrushConfig {
    BrushConfig {
        smoothing: amount(HUNDREDTHS_15),
        drain: amount(HUNDREDTHS_10),
        shape: BrushShape::Round { hardness: amount(HUNDREDTHS_98) },
        effect: BrushEffectType::Wet,
        opacity: amount(ONE),
        flow_modulation: pressed(amount(ZERO)),
        color_dynamics: simplex(),
        wet: WetDynamics { lift: amount(HUNDREDTHS_10), deposit: amount(HUNDREDTHS_37), bleed: amount(HUNDREDTHS_8), ..d.wet },
        modulation: BrushModulations { size: pressed(amount(HUNDREDTHS_80)), ..d.modulation },
        ..d.brush
    }
}

pub open spec fn bristles(shapes: BuiltinShapes, d: BrushDefaults) -> BrushConfig {
    BrushConfig {
        smoothing: amount(HUNDREDTHS_15),
        shape: shapes.bristles,
        effect: BrushEffectType::Wet,
        opacity: amount(ONE),
        flow_modulation: pressed(amount(ZERO)),
        color_dynamics: simplex(),
        wet: WetDynamics { lift: amount(HUNDREDTHS_10), deposit: amount(HUNDREDTHS_37), bleed: amount(HUNDREDTHS_17), ..d.wet },
        modulation: BrushModulations { size: pressed(amount(HUNDREDTHS_80)), ..d.modulation },
        ..d.brush
    }
}

/// An inking pen: hard, opaque, and pointed at both ends, the exit longer than the entry.
pub open spec fn pen(d: BrushDefaults) -> BrushConfig {
    BrushConfig {
        smoothing: amount(HALF),
        shape: BrushShape::Round { hardness: amount(ONE) },
        start_taper_length: amount(WHOLE_5),
        end_taper_length: amount(WHOLE_11),
        ..d.brush
    }
}

/// A pencil: tilt draws the tip out, and pressure darkens it.
pub open spec fn pencil(shapes: BuiltinShapes, d: BrushDefaults) -> BrushConfig {
    BrushConfig {
        smoothing: amount(ZERO),
        shape: shapes.pencil,
        jitter: amount(HUNDREDTHS_10),
        tooth: ToothParams { give: amount(ONE), softness: amount(HALF) },
        orientation: OrientationSource::Pen,
        stretch: amount(HUNDREDTHS_75),
        modulation: BrushModulations {
            stretch: Some(Modulation { source: ModSource::Tilt, floor: amount(ZERO), curve: amount(MINUS_HALF) }),
            tooth_give: pressed(amount(HALF)),
            ..d.modulation
        },
        opacity: amount(ONE),
        opacity_modulation: pressed(amount(ZERO)),
        color_dynamics: ColorDynamics {
            noise: NoiseKind::White,
            frequency: Frequency { along: amount(HALF), across: amount(ZERO) },
            amplitude: Amplitude { lightness: amount(HUNDREDTHS_1), a: amount(ZERO), b: amount(ZERO) },
        },
        ..d.brush
    }
}

pub open spec fn airbrush(d: BrushDefaults) -> BrushConfig {
    BrushConfig {
        smoothing: amount(HUNDREDTHS_10),
        shape: BrushShape::Round { hardness: amount(HALF) },
        modulation: BrushModulations { size: pressed(amount(HUNDREDTHS_60)), ..d.modulation },
        opacity: amount(ONE),
        flow_modulation: pressed(amount(ZERO)),
        color_dynamics: simplex(),
        ..d.brush
    }
}

/// A blender: it adds nothing of its own.
pub open spec fn blender(d: BrushDefaults) -> BrushConfig {
    BrushConfig {
        smoothing: amount(HUNDREDTHS_10),
        tooth: ToothParams { give: amount(HALF), ..d.tooth },
        shape: BrushShape::Round { hardness: amount(HUNDREDTHS_80) },
        effect: BrushEffectType::Wet,
        opacity: amount(ONE),
        wet: WetDynamics {
            add: amount(ZERO),
            lift: amount(HUNDREDTHS_25),
            deposit: amount(HUNDREDTHS_75),
            bleed: amount(HUNDREDTHS_25),
            lift_modulation: pressed(amount(HUNDREDTHS_80)),
            bleed_modulation: pressed(amount(ZERO)),
        },
        ..d.brush
    }
}

/// An eraser of the given hardness: pressure drives its strength and its size.
pub open spec fn eraser(hardness: Amount, d: BrushDefaults) -> BrushConfig {
    BrushConfig {
        smoothing: amount(ZERO),
        shape: BrushShape::Round { hardness },
        effect: BrushEffectType::Erase,
        erase: EraseConfig { opacity_modulation: pressed(amount(ZERO)), ..d.erase },
        modulation: BrushModulations { size: pressed(amount(ZERO)), ..d.modulation },
        ..d.brush
    }
}

/// The liquify brush: what the pen drives is the grip, not the width.
pub open spec fn liquify(d: BrushDefaults) -> BrushConfig {
    BrushConfig {
        smoothing: amount(HUNDREDTHS_20),
        shape: BrushShape::Round { hardness: amount(ZERO) },
        effect: BrushEffectType::Liquify,
        liquify: LiquifyConfig { strength_modulation: pressed(amount(ZERO)), ..d.liquify },
        modulation: d.modulation,
        ..d.brush
    }
}

/// One of the app's own presets. The colour of its tune is never applied.
pub open spec fn ships(
    name: Seq<char>,
    slot: Option<usize>,
    size: Amount,
    flow: Amount,
    brush: BrushConfig,
    d: BrushDefaults,
) -> PresetView {
    PresetView {
        name,
        brush,
        transient: Transient { size, flow, ..d.transient },
        slot,
        builtin: true,
    }
}

/// The presets the app ships, in the order it lists them.
pub open spec fn shipped_table(shapes: BuiltinShapes, d: BrushDefaults) -> Seq<PresetView> {
    seq![
        ships("Hard Round"@, Some(1), amount(WHOLE_100), amount(WHOLE_3), hard_round(d), d),
        ships("Bristles"@, None, amount(WHOLE_100), amount(WHOLE_3), bristles(shapes, d), d),
        ships("Pen"@, Some(2), amount(WHOLE_18), amount(ONE), pen(d), d),
        ships("Pencil"@, Some(3), amount(WHOLE_30), amount(HUNDREDTHS_40), pencil(shapes, d), d),
        ships("Airbrush"@, Some(4), amount(WHOLE_500), amount(HUNDREDTHS_10), airbrush(d), d),
        ships("Blender"@, Some(5), amount(WHOLE_100), amount(ONE), blender(d), d),
        ships("Soft Eraser"@, Some(ERASER_SLOT), amount(WHOLE_80), amount(ONE), eraser(amount(HUNDREDTHS_25), d), d),
        ships("Hard Eraser"@, None, amount(WHOLE_40), amount(WHOLE_2), eraser(amount(HUNDREDTHS_95), d), d),
        ships("Liquify"@, None, amount(WHOLE_90), amount(ONE), liquify(d), d),
    ]
}

fn pressure(floor: Amount) -> (m: Option<Modulation>)
    ensures
        m == pressed(floor),
{
    Some(Modulation { source: ModSource::Pressure, floor, curve: amount(ZERO) })
}

fn simplex_noise() -> (noise: ColorDynamics)
    ensures
        noise == simplex(),
{
    ColorDynamics {
        noise: NoiseKind::Simplex,
        frequency: Frequency { along: amount(HUNDREDTHS_5), across: amount(HUNDREDTHS_10) },
        amplitude: Amplitude { lightness: amount(ZERO), a: amount(THOUSANDTHS_25), b: amount(HUNDREDTHS_5) },
    }
}

/// One constructor for the lot, so that everything the app ships is a built-in, and so that
/// no definition can forget to say its smoothing, size or flow.
fn ship(
    name: &str,
    slot: Option<usize>,
    smoothing: Amount,
    size: Amount,
    flow: Amount,
    brush: BrushConfig,
    d: &BrushDefaults,
) -> (entry: PresetEntry)
    ensures
        entry@ == ships(
            name@,
            slot,
            size,
            flow,
            (BrushConfig { smoothing, ..brush }),
            *d,
        ),
{
    PresetEntry {
        name: name.to_owned(),
        brush: BrushConfig { smoothing, ..brush },
        transient: Transient { size, flow, ..d.transient },
        slot,
        builtin: true,
    }
}

/// The presets the app ships, with their one dependency on a running engine passed in: the
/// two stamps, each a content id that cannot be written down until its bytes have been
/// imported. `d` is what a brush is before a definition says otherwise.
///
/// The first entry is also the brush the app opens on. The `slot` each declares is what
/// fills a fresh quick-brush rack, and it is independent of the order here.
pub fn shipped(shapes: BuiltinShapes, d: &BrushDefaults) -> (entries: Vec<PresetEntry>)
    ensures
        library(entries@) == shipped_table(shapes, *d),
{
    let mut entries: Vec<PresetEntry> = Vec::new();
    entries.push(
        ship(
            "Hard Round",
            Some(1),
            amount(HUNDREDTHS_15),
            amount(WHOLE_100),
            amount(WHOLE_3),
            BrushConfig {
                drain: amount(HUNDREDTHS_10),
                shape: BrushShape::Round { hardness: amount(HUNDREDTHS_98) },
                effect: BrushEffectType::Wet,
                opacity: amount(ONE),
                flow_modulation: pressure(amount(ZERO)),
                color_dynamics: simplex_noise(),
                wet: WetDynamics { lift: amount(HUNDREDTHS_10), deposit: amount(HUNDREDTHS_37), bleed: amount(HUNDREDTHS_8), ..d.wet },
                modulation: BrushModulations { size: pressure(amount(HUNDREDTHS_80)), ..d.modulation },
                ..d.brush
            },
            d,
        ),
    );
    entries.push(
        ship(
            "Bristles",
            None,
            amount(HUNDREDTHS_15),
            amount(WHOLE_100),
            amount(WHOLE_3),
            BrushConfig {
                shape: shapes.bristles,
                effect: BrushEffectType::Wet,
                opacity: amount(ONE),
                flow_modulation: pressure(amount(ZERO)),
                color_dynamics: simplex_noise(),
                wet: WetDynamics { lift: amount(HUNDREDTHS_10), deposit: amount(HUNDREDTHS_37), bleed: amount(HUNDREDTHS_17), ..d.wet },
                modulation: BrushModulations { size: pressure(amount(HUNDREDTHS_80)), ..d.modulation },
                ..d.brush
            },
            d,
        ),
    );
    entries.push(
        ship(
            "Pen",
            Some(2),
            amount(HALF),
            amount(WHOLE_18),
            amount(ONE),
            BrushConfig {
                shape: BrushShape::Round { hardness: amount(ONE) },
                start_taper_length: amount(WHOLE_5),
                end_taper_length: amount(WHOLE_11),
                ..d.brush
            },
            d,
        ),
    );
    entries.push(
        ship(
            "Pencil",
            Some(3),
            amount(ZERO),
            amount(WHOLE_30),
            amount(HUNDREDTHS_40),
            BrushConfig {
                shape: shapes.pencil,
                jitter: amount(HUNDREDTHS_10),
                tooth: ToothParams { give: amount(ONE), softness: amount(HALF) },
                orientation: OrientationSource::Pen,
                stretch: amount(HUNDREDTHS_75),
                modulation: BrushModulations {
                    stretch: Some(Modulation { source: ModSource::Tilt, floor: amount(ZERO), curve: amount(MINUS_HALF) }),
                    tooth_give: pressure(amount(HALF)),
                    ..d.modulation
                },
                opacity: amount(ONE),
                opacity_modulation: pressure(amount(ZERO)),
                color_dynamics: ColorDynamics {
                    noise: NoiseKind::White,
                    frequency: Frequency { along: amount(HALF), across: amount(ZERO) },
                    amplitude: Amplitude { lightness: amount(HUNDREDTHS_1), a: amount(ZERO), b: amount(ZERO) },
                },
                ..d.brush
            },
            d,
        ),
    );
    entries.push(
        ship(
            "Airbrush",
            Some(4),
            amount(HUNDREDTHS_10),
            amount(WHOLE_500),
            amount(HUNDREDTHS_10),
            BrushConfig {
                shape: BrushShape::Round { hardness: amount(HALF) },
                modulation: BrushModulations { size: pressure(amount(HUNDREDTHS_60)), ..d.modulation },
                opacity: amount(ONE),
                flow_modulation: pressure(amount(ZERO)),
                color_dynamics: simplex_noise(),
                ..d.brush
            },
            d,
        ),
    );
    entries.push(
        ship(
            "Blender",
            Some(5),
            amount(HUNDREDTHS_10),
            amount(WHOLE_100),
            amount(ONE),
            BrushConfig {
                tooth: ToothParams { give: amount(HALF), ..d.tooth },
                shape: BrushShape::Round { hardness: amount(HUNDREDTHS_80) },
                effect: BrushEffectType::Wet,
                opacity: amount(ONE),
                wet: WetDynamics {
                    add: amount(ZERO),
                    lift: amount(HUNDREDTHS_25),
                    deposit: amount(HUNDREDTHS_75),
                    bleed: amount(HUNDREDTHS_25),
                    lift_modulation: pressure(amount(HUNDREDTHS_80)),
                    bleed_modulation: pressure(amount(ZERO)),
                },
                ..d.brush
            },
            d,
        ),
    );
    entries.push(
        ship(
            "Soft Eraser",
            Some(ERASER_SLOT),
            amount(ZERO),
            amount(WHOLE_80),
            amount(ONE),
            BrushConfig {
                shape: BrushShape::Round { hardness: amount(HUNDREDTHS_25) },
                effect: BrushEffectType::Erase,
                erase: EraseConfig { opacity_modulation: pressure(amount(ZERO)), ..d.erase },
                modulation: BrushModulations { size: pressure(amount(ZERO)), ..d.modulation },
                ..d.brush
            },
            d,
        ),
    );
    entries.push(
        ship(
            "Hard Eraser",
            None,
            amount(ZERO),
            amount(WHOLE_40),
            amount(WHOLE_2),
            BrushConfig {
                shape: BrushShape::Round { hardness: amount(HUNDREDTHS_95) },
                effect: BrushEffectType::Erase,
                erase: EraseConfig { opacity_modulation: pressure(amount(ZERO)), ..d.erase },
                modulation: BrushModulations { size: pressure(amount(ZERO)), ..d.modulation },
                ..d.brush
            },
            d,
        ),
    );
    entries.push(
        ship(
            "Liquify",
            None,
            amount(HUNDREDTHS_20),
            amount(WHOLE_90),
            amount(ONE),
            BrushConfig {
                shape: BrushShape::Round { hardness: amount(ZERO) },
                effect: BrushEffectType::Liquify,
                liquify: LiquifyConfig { strength_modulation: pressure(amount(ZERO)), ..d.liquify },
                modulation: d.modulation,
                ..d.brush
            },
            d,
        ),
    );
    assert(library(entries@) =~= shipped_table(shapes, *d));
    entries
}

/// Where the first entry called `name` is, or past the end if there is none.
pub open spec fn place_of(entries: Seq<PresetView>, name: Seq<char>) -> nat
    decreases entries.len(),
{
    if entries.len() == 0 || entries[0].name == name {
        0
    } else {
        1 + place_of(entries.drop_first(), name)
    }
}

/// Some entry is called `name`.
pub open spec fn taken(entries: Seq<PresetView>, name: Seq<char>) -> bool {
    exists|i: int| 0 <= i < entries.len() && (#[trigger] entries[i]).name == name
}

/// Some entry of the app's own is called `name`.
pub open spec fn taken_by_the_app(entries: Seq<PresetView>, name: Seq<char>) -> bool {
    exists|i: int|
        0 <= i < entries.len() && (#[trigger] entries[i]).name == name && entries[i].builtin
}

/// The `n`th name the app proposes.
pub open spec fn proposed(n: nat) -> Seq<char> {
    "Preset "@ + text::decimal(n)
}

/// Whether `name` belongs to one of the app's own presets, which is not free to overwrite.
pub fn is_builtin(entries: &[PresetEntry], name: &str) -> (builtin: bool)
    ensures
        builtin == taken_by_the_app(library(entries@), name@),
{
    let mut i: usize = 0;
    while i < entries.len()
        invariant
            i <= entries@.len(),
            forall|k: int|
                0 <= k < i ==> !((#[trigger] library(entries@)[k]).name == name@ && library(
                    entries@,
                )[k].builtin),
        decreases entries@.len() - i,
    {
        if entries[i].builtin && text::same(entries[i].name.as_str(), name) {
            assert(library(entries@)[i as int].builtin);
            return true;
        }
        i = i + 1;
    }
    false
}

/// The library's entry called `name`, if it still has one.
pub fn find<'a>(entries: &'a [PresetEntry], name: &str) -> (entry: Option<&'a PresetEntry>)
    ensures
        entry is Some <==> taken(library(entries@), name@),
        entry matches Some(e) ==> {
            &&& e@.name == name@
            &&& *e == entries@[place_of(library(entries@), name@) as int]
        },
{
    let ghost lib = library(entries@);
    let mut i: usize = 0;
    assert(lib.skip(0) =~= lib);
    while i < entries.len()
        invariant
            i <= entries@.len(),
            lib == library(entries@),
            forall|k: int| 0 <= k < i ==> (#[trigger] lib[k]).name != name@,
            place_of(lib, name@) == i + place_of(lib.skip(i as int), name@),
        decreases entries@.len() - i,
    {
        assert(lib.skip(i as int)[0] == lib[i as int]);
        assert(lib.skip(i as int).drop_first() =~= lib.skip(i as int + 1));
        if text::same(entries[i].name.as_str(), name) {
            assert(lib[i as int].name == name@);
            return Some(&entries[i]);
        }
        i = i + 1;
    }
    None
}

/// If the names up to the `m`th proposed are all taken, there are at least `m` entries.
proof fn lemma_names_taken(entries: Seq<PresetView>, m: nat)
    requires
        forall|k: nat| 1 <= k <= m ==> taken(entries, #[trigger] proposed(k)),
    ensures
        m <= entries.len(),
    decreases m,
{
    if m > 0 {
        assert(taken(entries, proposed(m)));
        let at = choose|i: int|
            0 <= i < entries.len() && (#[trigger] entries[i]).name == proposed(m);
        let rest = entries.remove(at);
        assert forall|k: nat| 1 <= k <= m - 1 implies taken(rest, #[trigger] proposed(k)) by {
            assert(taken(entries, proposed(k)));
            let i = choose|i: int|
                0 <= i < entries.len() && (#[trigger] entries[i]).name == proposed(k);
            lemma_proposals_differ(k, m);
            if i < at {
                assert(rest[i].name == proposed(k));
            } else {
                assert(rest[i - 1].name == proposed(k));
            }
        }
        lemma_names_taken(rest, (m - 1) as nat);
    }
}

proof fn lemma_proposals_differ(j: nat, k: nat)
    requires
        j != k,
    ensures
        proposed(j) != proposed(k),
{
    if proposed(j) == proposed(k) {
        let head = "Preset "@.len() as int;
        assert(proposed(j).skip(head) =~= text::decimal(j));
        assert(proposed(k).skip(head) =~= text::decimal(k));
        text::law_decimals_differ(j, k);
    }
}

/// The first free "Preset N" name, the default for a save with the name field left empty.
/// There always is one.
pub fn next_name(entries: &[PresetEntry]) -> (name: String)
    ensures
        !taken(library(entries@), name@),
        exists|n: nat|
            1 <= n && name@ == #[trigger] proposed(n) && forall|k: nat|
                1 <= k < n ==> taken(library(entries@), #[trigger] proposed(k)),
{
    let count: usize = entries.len();
    let mut n: u128 = 1;
    loop
        invariant
            1 <= n <= count + 1,
            count == entries@.len(),
            forall|k: nat| 1 <= k < n ==> taken(library(entries@), #[trigger] proposed(k)),
        decreases entries@.len() + 1 - n,
    {
        let mut name: String = "Preset ".to_owned();
        name.append(text::decimal_string(n).as_str());
        assert(name@ == proposed(n as nat));
        match find(entries, name.as_str()) {
            None => {
                return name;
            },
            Some(_) => {
                proof {
                    lemma_names_taken(library(entries@), n as nat);
                }
                n = n + 1;
            },
        }
    }
}

/// Whether the live brush is still **this tool**: the preset in every durable knob.
/// Exact equality, on purpose: the row says the brush still *is* the preset, not that it
/// resembles one.
pub fn same_tool(current: &BrushConfig, preset: &BrushConfig) -> (same: bool)
    ensures
        same == current.equals(*preset),
{
    current.same(*preset)
}

/// Equal in both halves, the painting colour alone set aside.
pub open spec fn alike(
    a_brush: BrushConfig,
    a_tune: Transient,
    b_brush: BrushConfig,
    b_tune: Transient,
) -> bool {
    a_brush.equals(b_brush) && a_tune.in_tune(b_tune)
}

/// Whether two brushes are **the same brush**: equal in both halves, the painting colour
/// alone set aside.
pub fn same_brush(a: &(BrushConfig, Transient), b: &(BrushConfig, Transient)) -> (same: bool)
    ensures
        same == alike(a.0, a.1, b.0, b.1),
{
    same_tool(&a.0, &b.0) && a.1.same_tune(&b.1)
}

/// What "Overwrite preset" can do with the brush in hand.
#[derive(Clone, Debug, PartialEq, Eq)]
pub enum Overwrite {
    /// The brush was taken from no preset the library still has.
    Nothing,
    /// The preset in hand is one of the app's own, which the next start rebuilds from its
    /// definition, so the write would not last.
    Builtin(String),
    /// The preset in hand already *is* this brush (colour aside): nothing to write.
    Unchanged(String),
    /// Replace the named preset's snapshot with the brush in hand.
    Ready(String),
}

/// Decide [`Overwrite`] for the brush in hand, both halves of it, since a preset carries
/// both.
pub fn overwrite(
    entries: &[PresetEntry],
    in_hand: Option<&str>,
    brush: &(BrushConfig, Transient),
) -> (what: Overwrite)
    ensures
        what == Overwrite::Nothing <==> !(in_hand matches Some(name) && taken(
            library(entries@),
            name@,
        )),
        in_hand matches Some(name) ==> taken(library(entries@), name@) ==> {
            let e = entries@[place_of(library(entries@), name@) as int];
            if e.builtin {
                what matches Overwrite::Builtin(n) && n@ == name@
            } else if alike(brush.0, brush.1, e.brush, e.transient) {
                what matches Overwrite::Unchanged(n) && n@ == name@
            } else {
                what matches Overwrite::Ready(n) && n@ == name@
            }
        },
{
    let entry: &PresetEntry = match in_hand {
        None => return Overwrite::Nothing,
        Some(name) => match find(entries, name) {
            None => return Overwrite::Nothing,
            Some(entry) => entry,
        },
    };
    let name: String = entry.name.clone();
    if entry.builtin {
        Overwrite::Builtin(name)
    } else if same_brush(brush, &(entry.brush, entry.transient)) {
        Overwrite::Unchanged(name)
    } else {
        Overwrite::Ready(name)
    }
}

/// One stored preset: a name and a whole brush, the tool and the tune it was saved at.
///
/// Everything storage holds is the user's by definition, so neither the slot nor the
/// provenance is in the record.
#[derive(Clone, PartialEq, Eq, Debug)]
pub struct StoredPreset {
    pub name: String,
    pub brush: BrushConfig,
    pub transient: Transient,
}

/// What a record says.
pub struct StoredView {
    pub name: Seq<char>,
    pub brush: BrushConfig,
    pub transient: Transient,
}

impl View for StoredPreset {
    type V = StoredView;

    open spec fn view(&self) -> StoredView {
        StoredView { name: self.name@, brush: self.brush, transient: self.transient }
    }
}

/// What a list of records says.
pub open spec fn records(stored: Seq<StoredPreset>) -> Seq<StoredView> {
    Seq::new(stored.len(), |i: int| stored[i]@)
}

/// The record kept of an entry.
pub open spec fn record_of(entry: PresetView) -> StoredView {
    StoredView { name: entry.name, brush: entry.brush, transient: entry.transient }
}

/// The entry made of a record: the user's, on no digit.
pub open spec fn entry_of(record: StoredView) -> PresetView {
    PresetView {
        name: record.name,
        brush: record.brush,
        transient: record.transient,
        slot: None,
        builtin: false,
    }
}

/// The user's entries, in order.
pub open spec fn users(entries: Seq<PresetView>) -> Seq<PresetView>
    decreases entries.len(),
{
    if entries.len() == 0 {
        Seq::empty()
    } else if entries.last().builtin {
        users(entries.drop_last())
    } else {
        users(entries.drop_last()).push(entries.last())
    }
}

/// The records a library is stored as.
pub open spec fn kept(entries: Seq<PresetView>) -> Seq<StoredView> {
    users(entries).map_values(|e: PresetView| record_of(e))
}

/// The library that records are read back as.
pub open spec fn restored(stored: Seq<StoredView>) -> Seq<PresetView> {
    stored.map_values(|r: StoredView| entry_of(r))
}

/// The records to store: the user's presets and none of the app's, which is what makes the
/// app's own updatable at all.
pub fn persist(entries: &[PresetEntry]) -> (stored: Vec<StoredPreset>)
    ensures
        records(stored@) == kept(library(entries@)),
{
    let ghost lib = library(entries@);
    let mut stored: Vec<StoredPreset> = Vec::new();
    let mut i: usize = 0;
    assert(records(stored@) =~= kept(lib.take(0)));
    while i < entries.len()
        invariant
            i <= entries@.len(),
            lib == library(entries@),
            records(stored@) == kept(lib.take(i as int)),
        decreases entries@.len() - i,
    {
        let ghost next = lib.take(i as int + 1);
        assert(next.drop_last() =~= lib.take(i as int));
        let ghost before = stored@;
        if !entries[i].builtin {
            stored.push(
                StoredPreset {
                    name: entries[i].name.clone(),
                    brush: entries[i].brush,
                    transient: entries[i].transient,
                },
            );
            assert(records(stored@) =~= records(before).push(record_of(lib[i as int])));
        }
        assert(records(stored@) =~= kept(next));
        i = i + 1;
    }
    assert(lib.take(lib.len() as int) =~= lib);
    stored
}

/// The presets that were stored, or `None` where nothing was (or storage is unavailable).
pub fn read_storage(stored: Option<Vec<StoredPreset>>) -> (entries: Option<Vec<PresetEntry>>)
    ensures
        entries is Some <==> stored is Some,
        stored matches Some(s) ==> library(entries->0@) == restored(records(s@)),
{
    match stored {
        None => None,
        Some(stored) => {
            let mut entries: Vec<PresetEntry> = Vec::new();
            let mut i: usize = 0;
            assert(library(entries@) =~= restored(records(stored@)).take(0));
            while i < stored.len()
                invariant
                    i <= stored@.len(),
                    library(entries@) == restored(records(stored@)).take(i as int),
                decreases stored@.len() - i,
            {
                let ghost before = entries@;
                entries.push(
                    PresetEntry {
                        name: stored[i].name.clone(),
                        brush: stored[i].brush,
                        transient: stored[i].transient,
                        slot: None,
                        builtin: false,
                    },
                );
                assert(library(entries@) =~= library(before).push(
                    entry_of(records(stored@)[i as int]),
                ));
                assert(library(entries@) =~= restored(records(stored@)).take(i as int + 1));
                i = i + 1;
            }
            assert(restored(records(stored@)).take(stored@.len() as int) =~= restored(
                records(stored@),
            ));
            Some(entries)
        },
    }
}

/// Storing a library and reading it back gives the user's presets, in order and unchanged,
/// as long as none of them claims a digit, which only the app's own do.
pub proof fn law_stored_presets_read_back(entries: Seq<PresetView>)
    requires
        forall|i: int|
            0 <= i < entries.len() && !(#[trigger] entries[i]).builtin ==> entries[i].slot is None,
    ensures
        restored(kept(entries)) == users(entries),
    decreases entries.len(),
{
    if entries.len() > 0 {
        let rest = entries.drop_last();
        assert forall|i: int|
            0 <= i < rest.len() && !(#[trigger] rest[i]).builtin implies rest[i].slot is None by {
            assert(rest[i] == entries[i]);
        }
        law_stored_presets_read_back(rest);
        if !entries.last().builtin {
            assert(kept(entries) =~= kept(rest).push(record_of(entries.last())));
            assert(restored(kept(entries)) =~= restored(kept(rest)).push(entries.last()));
        }
    }
    assert(restored(kept(entries)) =~= users(entries));
}

/// What is read back stores as the same records: storage never drifts by being read.
pub proof fn law_read_presets_store_back(stored: Seq<StoredView>)
    ensures
        kept(restored(stored)) == stored,
    decreases stored.len(),
{
    if stored.len() > 0 {
        let rest = stored.drop_last();
        law_read_presets_store_back(rest);
        assert(restored(stored).drop_last() =~= restored(rest));
        assert(kept(restored(stored)) =~= kept(restored(rest)).push(stored.last()));
    }
    assert(kept(restored(stored)) =~= stored);
}

/// Storage never sees the app's own presets.
pub proof fn law_what_the_app_ships_is_not_stored(shapes: BuiltinShapes, d: BrushDefaults)
    ensures
        kept(shipped_table(shapes, d)).len() == 0,
{
    reveal_with_fuel(users, 10);
}

/// Everything the app ships says so.
pub proof fn law_everything_the_app_ships_says_so(shapes: BuiltinShapes, d: BrushDefaults, i: int)
    requires
        0 <= i < shipped_table(shapes, d).len(),
    ensures
        shipped_table(shapes, d)[i].builtin,
{
}

/// Every shipped preset that has a digit has one on the rack, and no two share it.
pub proof fn law_shipped_slots_are_distinct(
    shapes: BuiltinShapes,
    d: BrushDefaults,
    i: int,
    j: int,
)
    requires
        0 <= i < j < shipped_table(shapes, d).len(),
    ensures
        shipped_table(shapes, d)[i].slot matches Some(slot) ==> slot < SLOT_COUNT,
        shipped_table(shapes, d)[j].slot matches Some(slot) ==> slot < SLOT_COUNT,
        shipped_table(shapes, d)[i].slot is Some ==> shipped_table(shapes, d)[i].slot
            != shipped_table(shapes, d)[j].slot,
{
}

/// No two shipped presets share a name.
pub proof fn law_shipped_names_are_unique(shapes: BuiltinShapes, d: BrushDefaults, i: int, j: int)
    requires
        0 <= i < j < shipped_table(shapes, d).len(),
    ensures
        shipped_table(shapes, d)[i].name != shipped_table(shapes, d)[j].name,
{
    reveal_strlit("Hard Round");
    reveal_strlit("Bristles");
    reveal_strlit("Pen");
    reveal_strlit("Pencil");
    reveal_strlit("Airbrush");
    reveal_strlit("Blender");
    reveal_strlit("Soft Eraser");
    reveal_strlit("Hard Eraser");
    reveal_strlit("Liquify");
    let a = shipped_table(shapes, d)[i].name;
    let b = shipped_table(shapes, d)[j].name;
    assert(a.len() != b.len() || a[0] != b[0]);
}

/// A preset that ships on the pen's other end erases: its effect is the eraser's, at the
/// strength an eraser has by default, and its flow, the rate of erasing, is not zero.
pub proof fn law_the_shipped_eraser_erases(shapes: BuiltinShapes, d: BrushDefaults, i: int)
    requires
        0 <= i < shipped_table(shapes, d).len(),
        shipped_table(shapes, d)[i].slot == Some(ERASER_SLOT),
    ensures
        shipped_table(shapes, d)[i].brush.effect == BrushEffectType::Erase,
        shipped_table(shapes, d)[i].brush.erase.opacity == d.erase.opacity,
        shipped_table(shapes, d)[i].transient.flow.order() > 0,
{
}

/// The brush the app opens on is not the eraser.
pub proof fn law_the_startup_brush_is_not_the_eraser(shapes: BuiltinShapes, d: BrushDefaults)
    ensures
        shipped_table(shapes, d).len() > 0,
        shipped_table(shapes, d)[0].slot != Some(ERASER_SLOT),
        shipped_table(shapes, d)[0].brush.effect != BrushEffectType::Erase,
{
}

/// A name that is taken by one of the app's own is taken.
pub proof fn law_the_app_s_names_are_taken(entries: Seq<PresetView>, name: Seq<char>)
    requires
        taken_by_the_app(entries, name),
    ensures
        taken(entries, name),
{
    let i = choose|i: int|
        0 <= i < entries.len() && (#[trigger] entries[i]).name == name && entries[i].builtin;
    assert(entries[i].name == name);
}

/// A brush is the same tool as another exactly where they agree in every durable knob: each choice
/// is the other's, and each number is the other's, a zero having no sign and what is not a number
/// agreeing with nothing. A knob that differs, any one of them, makes another tool.
pub proof fn law_the_same_tool_agrees_in_every_knob(a: BrushConfig, b: BrushConfig, same: bool)
    requires
        call_ensures(same_tool, (&a, &b), same),
    ensures
        ({
            let fol = |x: Option<Modulation>, y: Option<Modulation>|
                match (x, y) {
                    (Some(x), Some(y)) => {
                        &&& x.source == y.source
                        &&& x.floor.equals(y.floor)
                        &&& x.curve.equals(y.curve)
                    },
                    (None, None) => true,
                    _ => false,
                };
            same <==> {
                &&& match (a.shape, b.shape) {
                (BrushShape::Round { hardness: x }, BrushShape::Round { hardness: y }) => x.equals(y),
                (BrushShape::Stamp(x), BrushShape::Stamp(y)) => x.high == y.high && x.low == y.low,
                _ => false,
            }
                &&& a.effect == b.effect
                &&& a.opacity.equals(b.opacity)
                &&& a.drain.equals(b.drain)
                &&& a.jitter.equals(b.jitter)
                &&& a.stretch.equals(b.stretch)
                &&& a.smoothing.equals(b.smoothing)
                &&& a.start_taper_length.equals(b.start_taper_length)
                &&& a.end_taper_length.equals(b.end_taper_length)
                &&& a.orientation == b.orientation
                &&& a.tooth.give.equals(b.tooth.give)
                &&& a.tooth.softness.equals(b.tooth.softness)
                &&& fol(a.flow_modulation, b.flow_modulation)
                &&& fol(a.opacity_modulation, b.opacity_modulation)
                &&& a.color_dynamics.noise == b.color_dynamics.noise
                &&& a.color_dynamics.frequency.along.equals(b.color_dynamics.frequency.along)
                &&& a.color_dynamics.frequency.across.equals(b.color_dynamics.frequency.across)
                &&& a.color_dynamics.amplitude.lightness.equals(b.color_dynamics.amplitude.lightness)
                &&& a.color_dynamics.amplitude.a.equals(b.color_dynamics.amplitude.a)
                &&& a.color_dynamics.amplitude.b.equals(b.color_dynamics.amplitude.b)
                &&& fol(a.modulation.size, b.modulation.size)
                &&& fol(a.modulation.stretch, b.modulation.stretch)
                &&& fol(a.modulation.tooth_give, b.modulation.tooth_give)
                &&& a.wet.add.equals(b.wet.add)
                &&& a.wet.lift.equals(b.wet.lift)
                &&& a.wet.deposit.equals(b.wet.deposit)
                &&& a.wet.bleed.equals(b.wet.bleed)
                &&& fol(a.wet.lift_modulation, b.wet.lift_modulation)
                &&& fol(a.wet.bleed_modulation, b.wet.bleed_modulation)
                &&& a.erase.opacity.equals(b.erase.opacity)
                &&& fol(a.erase.opacity_modulation, b.erase.opacity_modulation)
                &&& a.liquify.strength.equals(b.liquify.strength)
                &&& fol(a.liquify.strength_modulation, b.liquify.strength_modulation)
            }
        }),
{
}

/// Two brushes are the same where they are the same tool at the same size and flow. The painting
/// colour has no say in it.
pub proof fn law_the_same_brush_is_the_same_tool_in_the_same_tune(
    a: (BrushConfig, Transient),
    b: (BrushConfig, Transient),
    same: bool,
    tool: bool,
)
    requires
        call_ensures(same_brush, (&a, &b), same),
        call_ensures(same_tool, (&a.0, &b.0), tool),
    ensures
        ({
            same <==> tool && a.1.size.equals(b.1.size) && a.1.flow.equals(b.1.flow)
        }),
{
}

/// An overwrite goes by the first entry that wears the name. One of the app's own is refused, one
/// that is the brush in hand is left, and any other is written: under the name in hand, whichever
/// it is. Without such an entry there is nothing to write.
pub proof fn law_an_overwrite_writes_what_has_changed(
    entries: &[PresetEntry],
    name: &str,
    brush: (BrushConfig, Transient),
    i: int,
    same: bool,
    what: Overwrite,
)
    requires
        call_ensures(overwrite, (entries, Some(name), &brush), what),
        0 <= i <= entries@.len(),
        forall|j: int| 0 <= j < i ==> (#[trigger] entries@[j]).name@ != name@,
        i < entries@.len() ==> entries@[i].name@ == name@ && call_ensures(
            same_brush,
            (&brush, &(entries@[i].brush, entries@[i].transient)),
            same,
        ),
    ensures
        i == entries@.len() ==> what is Nothing,
        i < entries@.len() && entries@[i].builtin ==> (what matches Overwrite::Builtin(n) && n@
            == name@),
        i < entries@.len() && !entries@[i].builtin && same ==> (what matches Overwrite::Unchanged(
            n,
        ) && n@ == name@),
        i < entries@.len() && !entries@[i].builtin && !same ==> (what matches Overwrite::Ready(n)
            && n@ == name@),
{
    let lib = library(entries@);
    assert forall|j: int| 0 <= j < i implies (#[trigger] lib[j]).name != name@ by {
        assert(lib[j] == entries@[j]@);
    }
    if i < entries@.len() {
        assert(lib[i].name == name@);
        law_an_entry_is_found_at_the_first_that_wears_its_name(lib, name@, i);
    }
}

/// An entry is found at the first place that wears its name.
pub proof fn law_an_entry_is_found_at_the_first_that_wears_its_name(
    entries: Seq<PresetView>,
    name: Seq<char>,
    i: int,
)
    requires
        0 <= i < entries.len(),
        entries[i].name == name,
        forall|j: int| 0 <= j < i ==> (#[trigger] entries[j]).name != name,
    ensures
        taken(entries, name),
        place_of(entries, name) == i,
    decreases i,
{
    if i > 0 {
        let rest = entries.drop_first();
        assert(entries[0].name != name);
        assert forall|j: int| 0 <= j < i - 1 implies (#[trigger] rest[j]).name != name by {
            assert(rest[j] == entries[j + 1]);
        }
        assert(rest[i - 1] == entries[i]);
        law_an_entry_is_found_at_the_first_that_wears_its_name(rest, name, i - 1);
    }
}

/// A name is taken where any entry wears it, whichever, and taken by the app where one of its own
/// does.
pub proof fn law_a_name_is_taken_by_whoever_wears_it(entries: Seq<PresetView>, i: int)
    requires
        0 <= i < entries.len(),
    ensures
        taken(entries, entries[i].name),
        entries[i].builtin ==> taken_by_the_app(entries, entries[i].name),
        (forall|j: int|
            0 <= j < entries.len() && (#[trigger] entries[j]).name == entries[i].name
                ==> !entries[j].builtin) ==> !taken_by_the_app(entries, entries[i].name),
{
}

/// What is stored is every preset of the user's and none of the app's, in their order, each with
/// its name, its tool and its tune.
pub proof fn law_every_preset_of_the_user_s_is_stored(entries: Seq<PresetView>, entry: PresetView)
    ensures
        entry.builtin ==> kept(entries.push(entry)) == kept(entries),
        !entry.builtin ==> kept(entries.push(entry)) == kept(entries).push(
            StoredView { name: entry.name, brush: entry.brush, transient: entry.transient },
        ),
        kept(Seq::<PresetView>::empty()) == Seq::<StoredView>::empty(),
{
    assert(entries.push(entry).drop_last() =~= entries);
    if !entry.builtin {
        assert(kept(entries.push(entry)) =~= kept(entries).push(record_of(entry)));
    }
    assert(kept(Seq::<PresetView>::empty()) =~= Seq::<StoredView>::empty());
}

/// What is read back is the user's, on no digit, with all that was stored of it.
pub proof fn law_what_is_read_back_is_the_user_s(stored: Seq<StoredView>, i: int)
    requires
        0 <= i < stored.len(),
    ensures
        restored(stored).len() == stored.len(),
        ({
            let entry = restored(stored)[i];
            &&& entry.name == stored[i].name
            &&& entry.brush == stored[i].brush
            &&& entry.transient == stored[i].transient
            &&& entry.slot is None
            &&& !entry.builtin
        }),
{
}

/// The shipped brushes are what they are called. A pen is hard and tapers at both ends, out longer
/// than in; a pencil is drawn out by tilt and turned by the pen; a blender adds nothing of its own;
/// a soft eraser is softer than a hard one, and both erase; the liquify brush leaves its width to
/// itself. Every one of them is within the reach of the sliders, and wears the colour in hand.
pub proof fn law_the_shipped_brushes_are_what_they_are_called(
    shapes: BuiltinShapes,
    d: BrushDefaults,
    i: int,
)
    requires
        0 <= i < shipped_table(shapes, d).len(),
    ensures
        ({
            let e = shipped_table(shapes, d)[i];
            let b = e.brush;
            &&& amount(WHOLE_18).order() <= e.transient.size.order() <= amount(WHOLE_500).order()
            &&& 0 < e.transient.flow.order() <= amount(WHOLE_3).order()
            &&& e.transient.color == d.transient.color
            &&& e.name == "Pen"@ ==> {
                &&& b.shape == (BrushShape::Round { hardness: amount(ONE) })
                &&& 0 < b.start_taper_length.order() < b.end_taper_length.order()
            }
            &&& e.name == "Pencil"@ ==> {
                &&& b.shape == shapes.pencil
                &&& b.orientation is Pen
                &&& b.modulation.stretch matches Some(m) && m.source is Tilt
                &&& b.opacity_modulation matches Some(m) && m.source is Pressure
            }
            &&& e.name == "Bristles"@ ==> b.shape == shapes.bristles && b.effect is Wet
            &&& e.name == "Hard Round"@ ==> b.effect is Wet && 0 < b.drain.order()
            &&& e.name == "Blender"@ ==> b.effect is Wet && b.wet.add.bits == 0 && 0
                < b.wet.lift.order()
            &&& e.name == "Liquify"@ ==> b.effect is Liquify && b.modulation == d.modulation
                && b.liquify.strength_modulation is Some
            &&& e.name == "Soft Eraser"@ || e.name == "Hard Eraser"@ ==> b.effect is Erase
                && b.erase.opacity_modulation is Some && b.modulation.size is Some
            &&& forall|j: int|
                0 <= j < shipped_table(shapes, d).len() && e.name == "Soft Eraser"@ && (
                #[trigger] shipped_table(shapes, d)[j]).name == "Hard Eraser"@ ==> (b.shape matches
                    BrushShape::Round { hardness: soft } && (shipped_table(shapes, d)[j].brush.shape
                    matches BrushShape::Round { hardness: hard } && soft.order() < hard.order()))
            &&& e.slot == Some(0usize) ==> b.effect is Erase
        }),
{
    reveal_strlit("Hard Round");
    reveal_strlit("Bristles");
    reveal_strlit("Pen");
    reveal_strlit("Pencil");
    reveal_strlit("Airbrush");
    reveal_strlit("Blender");
    reveal_strlit("Soft Eraser");
    reveal_strlit("Hard Eraser");
    reveal_strlit("Liquify");
    let names = shipped_table(shapes, d).map_values(|e: PresetView| e.name);
    assert forall|p: int, q: int| 0 <= p < q < names.len() implies names[p] != names[q] by {
        law_shipped_names_are_unique(shapes, d, p, q);
    }
    assert(i == 0 || i == 1 || i == 2 || i == 3 || i == 4 || i == 5 || i == 6 || i == 7 || i == 8);
    assert(names[i] == shipped_table(shapes, d)[i].name);
    assert(names[0] == "Hard Round"@ && names[1] == "Bristles"@ && names[2] == "Pen"@ && names[3]
        == "Pencil"@ && names[5] == "Blender"@ && names[6] == "Soft Eraser"@ && names[7]
        == "Hard Eraser"@ && names[8] == "Liquify"@);
}

} // verus!
