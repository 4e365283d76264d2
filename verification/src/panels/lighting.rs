//! The Lighting panel: the light that the canvas is seen under, how its relief catches it, and the
//! canvas itself.
use crate::amount::{amount, Amount, Places, ONE};
use crate::model::{EnvironmentId, MediaParams, ViewCommand};
use crate::panels::popout::PopoutId;
use crate::text;
use vstd::prelude::*;

verus! {

/// The lights, in the order they are listed. The achromatic one leads: it is the reference light,
/// the one to switch to to judge colour.
pub open spec fn lights() -> Seq<EnvironmentId> {
    seq![
        EnvironmentId::Neutral,
        EnvironmentId::Ferndale,
        EnvironmentId::BloemHill,
        EnvironmentId::KloofendalOvercast,
        EnvironmentId::QwantaniDusk,
    ]
}

/// The list of lights.
pub fn environments() -> (list: Vec<EnvironmentId>)
    ensures
        list@ == lights(),
{
    let mut list: Vec<EnvironmentId> = Vec::new();
    list.push(EnvironmentId::Neutral);
    list.push(EnvironmentId::Ferndale);
    list.push(EnvironmentId::BloemHill);
    list.push(EnvironmentId::KloofendalOvercast);
    list.push(EnvironmentId::QwantaniDusk);
    assert(list@ =~= lights());
    list
}

/// Every light is listed.
pub proof fn law_every_light_is_listed(id: EnvironmentId)
    ensures
        exists|i: int| 0 <= i < lights().len() && lights()[i] == id,
{
    match id {
        EnvironmentId::Neutral => {
            assert(lights()[0] == id);
        },
        EnvironmentId::Ferndale => {
            assert(lights()[1] == id);
        },
        EnvironmentId::BloemHill => {
            assert(lights()[2] == id);
        },
        EnvironmentId::KloofendalOvercast => {
            assert(lights()[3] == id);
        },
        EnvironmentId::QwantaniDusk => {
            assert(lights()[4] == id);
        },
    }
}

/// What the canvas is lit with at the start.
pub fn default_environment() -> (id: EnvironmentId)
    ensures
        id == EnvironmentId::Neutral,
{
    EnvironmentId::Neutral
}

impl EnvironmentId {
    /// What the light is called.
    pub open spec fn words(self) -> Seq<char> {
        match self {
            EnvironmentId::Neutral => "Neutral"@,
            EnvironmentId::Ferndale => "Ferndale studio"@,
            EnvironmentId::BloemHill => "Bloem hill"@,
            EnvironmentId::KloofendalOvercast => "Kloofendal overcast"@,
            EnvironmentId::QwantaniDusk => "Qwantani dusk"@,
        }
    }

    /// The value that the drop-down knows it by.
    pub open spec fn value(self) -> Seq<char> {
        match self {
            EnvironmentId::Neutral => "Neutral"@,
            EnvironmentId::Ferndale => "Ferndale"@,
            EnvironmentId::BloemHill => "BloemHill"@,
            EnvironmentId::KloofendalOvercast => "KloofendalOvercast"@,
            EnvironmentId::QwantaniDusk => "QwantaniDusk"@,
        }
    }

    pub fn name(self) -> (words: &'static str)
        ensures
            words@ == self.words(),
    {
        match self {
            EnvironmentId::Neutral => "Neutral",
            EnvironmentId::Ferndale => "Ferndale studio",
            EnvironmentId::BloemHill => "Bloem hill",
            EnvironmentId::KloofendalOvercast => "Kloofendal overcast",
            EnvironmentId::QwantaniDusk => "Qwantani dusk",
        }
    }

    pub fn key(self) -> (value: &'static str)
        ensures
            value@ == self.value(),
    {
        match self {
            EnvironmentId::Neutral => "Neutral",
            EnvironmentId::Ferndale => "Ferndale",
            EnvironmentId::BloemHill => "BloemHill",
            EnvironmentId::KloofendalOvercast => "KloofendalOvercast",
            EnvironmentId::QwantaniDusk => "QwantaniDusk",
        }
    }
}

/// The light that the drop-down's value names.
pub open spec fn light_of(value: Seq<char>) -> Option<EnvironmentId> {
    if value == "Neutral"@ {
        Some(EnvironmentId::Neutral)
    } else if value == "Ferndale"@ {
        Some(EnvironmentId::Ferndale)
    } else if value == "BloemHill"@ {
        Some(EnvironmentId::BloemHill)
    } else if value == "KloofendalOvercast"@ {
        Some(EnvironmentId::KloofendalOvercast)
    } else if value == "QwantaniDusk"@ {
        Some(EnvironmentId::QwantaniDusk)
    } else {
        None
    }
}

pub fn named(value: &str) -> (id: Option<EnvironmentId>)
    ensures
        id == light_of(value@),
{
    if text::same(value, "Neutral") {
        Some(EnvironmentId::Neutral)
    } else if text::same(value, "Ferndale") {
        Some(EnvironmentId::Ferndale)
    } else if text::same(value, "BloemHill") {
        Some(EnvironmentId::BloemHill)
    } else if text::same(value, "KloofendalOvercast") {
        Some(EnvironmentId::KloofendalOvercast)
    } else if text::same(value, "QwantaniDusk") {
        Some(EnvironmentId::QwantaniDusk)
    } else {
        None
    }
}

/// A light's value in the drop-down names that light.
pub proof fn law_a_light_is_found_by_its_value(id: EnvironmentId)
    ensures
        light_of(id.value()) == Some(id),
{
    reveal_strlit("Neutral");
    reveal_strlit("Ferndale");
    reveal_strlit("BloemHill");
    reveal_strlit("KloofendalOvercast");
    reveal_strlit("QwantaniDusk");
    assert("Neutral"@.len() == 7 && "Ferndale"@.len() == 8 && "BloemHill"@.len() == 9);
    assert("KloofendalOvercast"@.len() == 18 && "QwantaniDusk"@.len() == 12);
}

/// The file behind a light that is an image, and nothing for the one that is computed.
pub fn environment_asset(id: EnvironmentId) -> (file: Option<&'static str>)
    ensures
        file is None <==> id == EnvironmentId::Neutral,
        file matches Some(path) ==> path@ == match id {
            EnvironmentId::Ferndale => "/assets/environment/ferndale_studio_11_1k.hdr"@,
            EnvironmentId::BloemHill => "/assets/environment/bloem_hill_01_1k.hdr"@,
            EnvironmentId::KloofendalOvercast => {
                "/assets/environment/kloofendal_overcast_puresky_1k.hdr"@
            },
            _ => "/assets/environment/qwantani_dusk_2_puresky_1k.hdr"@,
        },
{
    match id {
        EnvironmentId::Neutral => None,
        EnvironmentId::Ferndale => Some("/assets/environment/ferndale_studio_11_1k.hdr"),
        EnvironmentId::BloemHill => Some("/assets/environment/bloem_hill_01_1k.hdr"),
        EnvironmentId::KloofendalOvercast => Some(
            "/assets/environment/kloofendal_overcast_puresky_1k.hdr",
        ),
        EnvironmentId::QwantaniDusk => Some(
            "/assets/environment/qwantani_dusk_2_puresky_1k.hdr",
        ),
    }
}

/// What a switch of the light does next.
#[derive(Clone, Copy, PartialEq, Eq, Debug)]
pub enum Relight {
    /// Fetch the file of this light.
    Fetch(EnvironmentId),
    /// Switch to it.
    Switch(ViewCommand),
    /// Keep the light there is.
    Keep,
}

/// Switch to a light: fetch its file first where there is an engine that does not have it yet and
/// the light is an image.
pub fn set_environment(id: EnvironmentId, loaded: Option<bool>) -> (next: Relight)
    ensures
        next == if loaded == Some(false) && id != EnvironmentId::Neutral {
            Relight::Fetch(id)
        } else {
            Relight::Switch(ViewCommand::SetEnvironment(id))
        },
{
    let needs_bytes: bool = match loaded {
        Some(loaded) => !loaded,
        None => false,
    };
    if needs_bytes && environment_asset(id).is_some() {
        Relight::Fetch(id)
    } else {
        Relight::Switch(ViewCommand::SetEnvironment(id))
    }
}

/// The file has been fetched, or has not; and what was fetched has been read, or would not. The
/// canvas keeps the light it has rather than lose anything to a light that will not load.
pub fn fetched(id: EnvironmentId, arrived: bool, decoded: Option<bool>) -> (next: Relight)
    ensures
        next == if !arrived || decoded == Some(false) {
            Relight::Keep
        } else {
            Relight::Switch(ViewCommand::SetEnvironment(id))
        },
{
    if !arrived {
        return Relight::Keep;
    }
    match decoded {
        Some(false) => Relight::Keep,
        _ => Relight::Switch(ViewCommand::SetEnvironment(id)),
    }
}

/// The end of the gloss track, thirty-five hundredths, by its bits.
pub const GLOSS_END: u32 = 0x3eb3_3333;

/// The sliders of the media pass.
#[derive(Clone, Copy, PartialEq, Eq, Structural, Debug)]
pub enum MediaKnob {
    Impasto,
    Texture,
    Gloss,
}

impl MediaKnob {
    /// The settings with the knob's own replaced, and every other left alone.
    pub open spec fn into(self, media: MediaParams, value: Amount) -> MediaParams {
        match self {
            MediaKnob::Impasto => MediaParams { height_strength: value, ..media },
            MediaKnob::Texture => MediaParams { substrate_strength: value, ..media },
            MediaKnob::Gloss => MediaParams { specular: value, ..media },
        }
    }

    /// The settings that the knob shows.
    pub open spec fn of(self, media: MediaParams) -> Amount {
        match self {
            MediaKnob::Impasto => media.height_strength,
            MediaKnob::Texture => media.substrate_strength,
            MediaKnob::Gloss => media.specular,
        }
    }

    /// The knob's name, and the end of its track.
    pub fn face(self) -> (face: (&'static str, Amount))
        ensures
            face.0@ == match self {
                MediaKnob::Impasto => "Impasto"@,
                MediaKnob::Texture => "Texture"@,
                MediaKnob::Gloss => "Gloss"@,
            },
            face.1 == match self {
                MediaKnob::Gloss => amount(GLOSS_END),
                _ => amount(ONE),
            },
    {
        match self {
            MediaKnob::Impasto => ("Impasto", amount(ONE)),
            MediaKnob::Texture => ("Texture", amount(ONE)),
            MediaKnob::Gloss => ("Gloss", amount(GLOSS_END)),
        }
    }
}

/// One knob moves: the settings as they stand, with that one replaced.
pub fn update_media(media: MediaParams, knob: MediaKnob, value: Amount) -> (command: ViewCommand)
    ensures
        command == ViewCommand::SetMediaParams(knob.into(media, value)),
{
    ViewCommand::SetMediaParams(
        match knob {
            MediaKnob::Impasto => MediaParams { height_strength: value, ..media },
            MediaKnob::Texture => MediaParams { substrate_strength: value, ..media },
            MediaKnob::Gloss => MediaParams { specular: value, ..media },
        },
    )
}

/// What a knob sets it reads back, and no knob touches another's setting.
pub proof fn law_a_knob_keeps_to_itself(a: MediaKnob, b: MediaKnob, media: MediaParams, value: Amount)
    ensures
        a.of(a.into(media, value)) == value,
        a != b ==> b.of(a.into(media, value)) == b.of(media),
        a.into(media, a.of(media)) == media,
{
}

/// The well that opens the canvas's colour, lit while what it opened is.
pub fn swatch_class(open: bool) -> (class: &'static str)
    ensures
        class@ == if open {
            "swatch open"@
        } else {
            "swatch"@
        },
{
    if open {
        "swatch open"
    } else {
        "swatch"
    }
}

/// The canvas's colour on its well, each channel in per cent.
pub fn swatch_style(r: Amount, g: Amount, b: Amount) -> (style: String)
    ensures
        style@ == "background: rgb("@ + r.written(Places::One, false) + "% "@ + g.written(
            Places::One,
            false,
        ) + "% "@ + b.written(Places::One, false) + "%);"@,
{
    let mut style: String = "background: rgb(".to_owned();
    style.append(r.fixed(Places::One, false).as_str());
    style.append("% ");
    style.append(g.fixed(Places::One, false).as_str());
    style.append("% ");
    style.append(b.fixed(Places::One, false).as_str());
    style.append("%);");
    style
}

/// Whether the panel takes what is open with it as it closes: its own two pop-outs are not
/// mounted in it, so nothing else would.
pub fn closes_with_the_panel(open: Option<PopoutId>) -> (close: bool)
    ensures
        close == (open == Some(PopoutId::SubstrateColor) || open == Some(
            PopoutId::SubstrateGallery,
        )),
{
    match open {
        Some(id) => id.in_stack(),
        None => false,
    }
}

/// The scale of the surface is inert on the smooth one, whose height is a constant.
pub fn scale_disabled(flat: bool) -> (disabled: bool)
    ensures
        disabled == flat,
{
    flat
}

/// Each knob sets what it is named for: impasto the relief of the paint, texture that of the
/// canvas, gloss how it shines. Every other setting is left alone.
pub proof fn law_a_knob_sets_what_it_is_named_for(
    knob: MediaKnob,
    media: MediaParams,
    value: Amount,
    command: ViewCommand,
)
    requires
        call_ensures(update_media, (media, knob, value), command),
    ensures
        command matches ViewCommand::SetMediaParams(next) && {
            &&& knob is Impasto ==> next == (MediaParams { height_strength: value, ..media })
            &&& knob is Texture ==> next == (MediaParams { substrate_strength: value, ..media })
            &&& knob is Gloss ==> next == (MediaParams { specular: value, ..media })
        },
        knob is Impasto ==> knob.of(media) == media.height_strength,
        knob is Texture ==> knob.of(media) == media.substrate_strength,
        knob is Gloss ==> knob.of(media) == media.specular,
{
}

/// No light is listed twice, and the one that is computed leads.
pub proof fn law_no_light_is_listed_twice(i: int, j: int)
    requires
        0 <= i < j < lights().len(),
    ensures
        lights()[i] != lights()[j],
        lights()[0] == EnvironmentId::Neutral,
{
}

/// A light is called after the place its file was taken at.
pub proof fn law_a_light_is_called_after_its_place(id: EnvironmentId, words: &str, value: &str)
    requires
        call_ensures(EnvironmentId::name, (id,), words),
        call_ensures(EnvironmentId::key, (id,), value),
    ensures
        value@.len() > 0 && words@.len() > 0 && words@[0] == value@[0],
        id is Neutral ==> words@[0] == 'N',
        id is Ferndale ==> words@[0] == 'F',
        id is BloemHill ==> words@[0] == 'B',
        id is KloofendalOvercast ==> words@[0] == 'K',
        id is QwantaniDusk ==> words@[0] == 'Q',
{
    reveal_strlit("Neutral");
    reveal_strlit("Ferndale");
    reveal_strlit("BloemHill");
    reveal_strlit("KloofendalOvercast");
    reveal_strlit("QwantaniDusk");
    reveal_strlit("Ferndale studio");
    reveal_strlit("Bloem hill");
    reveal_strlit("Kloofendal overcast");
    reveal_strlit("Qwantani dusk");
}

} // verus!
