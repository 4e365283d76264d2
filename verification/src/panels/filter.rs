//! The filter layer: its "add" button and the bar that tunes it.
//!
//! A filter is a layer, so there is no separate selection of one: the bar serves the
//! selected layer where that is a filter. There is no scope control either, since the answer
//! to what a filter applies to is where its row sits.
use crate::amount::{Amount, Places};
use crate::model;
use crate::model::{ColorAdjust, DocCommand, LayerId, LayerInfo};
use crate::text;
use vstd::prelude::*;

verus! {

/// The filter being tuned, if the **selected layer** is one: its layer and its adjustment.
pub fn selected_filter<'a>(layers: &'a Vec<LayerInfo>, active: LayerId) -> (tuned: Option<
    (&'a LayerInfo, ColorAdjust),
>)
    ensures
        tuned is Some <==> (model::layer_of(layers@, active) matches Some(l) && l.filter is Some),
        tuned matches Some((l, adjust)) ==> {
            &&& model::layer_of(layers@, active) == Some(*l)
            &&& l.filter->0.adjust == adjust
        },
{
    match model::selected(layers, active) {
        None => None,
        Some(l) => match &l.filter {
            None => None,
            Some(f) => Some((l, f.adjust)),
        },
    }
}

/// The edit that adds a filter: above the selected layer, in that layer's own stack, and
/// neutral, so that adding one changes nothing until it is dialled.
pub fn add_filter(layer: Option<&LayerInfo>) -> (edit: DocCommand)
    ensures
        edit == (match layer {
            Some(l) => DocCommand::AddFilter {
                carrier: l.carrier,
                above: Some(l.id),
                adjust: model::neutral(),
            },
            None => DocCommand::AddFilter { carrier: None, above: None, adjust: model::neutral() },
        }),
{
    let adjust: ColorAdjust = ColorAdjust::neutral_adjust();
    match layer {
        Some(l) => DocCommand::AddFilter { carrier: l.carrier, above: Some(l.id), adjust },
        None => DocCommand::AddFilter { carrier: None, above: None, adjust },
    }
}

/// A filter layer that was not there before.
pub open spec fn is_new_filter(before: Seq<LayerId>, l: LayerInfo) -> bool {
    l.filter is Some && !before.contains(l.id)
}

/// The filter that has just been added, to be selected: the one that the document gained,
/// and not the topmost one, which is somebody else's the moment one already sits above the
/// insertion point.
pub fn minted(before: &Vec<LayerId>, layers: &Vec<LayerInfo>) -> (id: Option<LayerId>)
    ensures
        id is None ==> forall|i: int|
            0 <= i < layers@.len() ==> !is_new_filter(before@, #[trigger] layers@[i]),
        id matches Some(new) ==> exists|i: int|
            0 <= i < layers@.len() && (#[trigger] layers@[i]).id == new && is_new_filter(
                before@,
                layers@[i],
            ) && forall|k: int| 0 <= k < i ==> !is_new_filter(before@, #[trigger] layers@[k]),
{
    let mut i: usize = 0;
    while i < layers.len()
        invariant
            i <= layers@.len(),
            forall|k: int| 0 <= k < i ==> !is_new_filter(before@, #[trigger] layers@[k]),
        decreases layers@.len() - i,
    {
        if layers[i].filter.is_some() && !known(before, layers[i].id) {
            assert(is_new_filter(before@, layers@[i as int]));
            return Some(layers[i].id);
        }
        i = i + 1;
    }
    None
}

fn known(ids: &Vec<LayerId>, id: LayerId) -> (yes: bool)
    ensures
        yes == ids@.contains(id),
{
    let mut i: usize = 0;
    while i < ids.len()
        invariant
            i <= ids@.len(),
            forall|k: int| 0 <= k < i ==> #[trigger] ids@[k] != id,
        decreases ids@.len() - i,
    {
        if ids[i] == id {
            return true;
        }
        i = i + 1;
    }
    false
}

/// One slider on the bar.
#[derive(Clone, Copy, PartialEq, Eq, Structural, Debug)]
pub enum Knob {
    Exposure,
    Contrast,
    Saturation,
    Hue,
}

/// The magnitude of a number.
pub open spec fn magnitude(n: int) -> nat {
    if n < 0 {
        -n as nat
    } else {
        n as nat
    }
}

/// A whole number, signed where it is negative.
pub open spec fn signed(n: int) -> Seq<char> {
    (if n < 0 {
        seq!['-']
    } else {
        Seq::empty()
    }) + text::decimal(magnitude(n))
}

impl Knob {
    /// The number that the knob sets.
    pub open spec fn of(self, adjust: ColorAdjust) -> Amount {
        match self {
            Knob::Exposure => adjust.exposure,
            Knob::Contrast => adjust.contrast,
            Knob::Saturation => adjust.saturation,
            Knob::Hue => adjust.hue,
        }
    }

    /// The adjustment with the knob's number replaced, and every other left alone.
    pub open spec fn into(self, adjust: ColorAdjust, value: Amount) -> ColorAdjust {
        match self {
            Knob::Exposure => ColorAdjust { exposure: value, ..adjust },
            Knob::Contrast => ColorAdjust { contrast: value, ..adjust },
            Knob::Saturation => ColorAdjust { saturation: value, ..adjust },
            Knob::Hue => ColorAdjust { hue: value, ..adjust },
        }
    }

    /// The words beside the track for a value on it: two places, signed both ways for the
    /// stops, or a whole number of degrees.
    pub open spec fn reads(self, value: Amount) -> Seq<char> {
        match self {
            Knob::Hue => signed(value.whole()) + seq!['\u{00B0}'],
            _ => value.written(Places::Two, self == Knob::Exposure),
        }
    }

    pub fn get(self, adjust: ColorAdjust) -> (value: Amount)
        ensures
            value == self.of(adjust),
    {
        match self {
            Knob::Exposure => adjust.exposure,
            Knob::Contrast => adjust.contrast,
            Knob::Saturation => adjust.saturation,
            Knob::Hue => adjust.hue,
        }
    }

    pub fn set(self, adjust: ColorAdjust, value: Amount) -> (next: ColorAdjust)
        ensures
            next == self.into(adjust, value),
    {
        match self {
            Knob::Exposure => ColorAdjust { exposure: value, ..adjust },
            Knob::Contrast => ColorAdjust { contrast: value, ..adjust },
            Knob::Saturation => ColorAdjust { saturation: value, ..adjust },
            Knob::Hue => ColorAdjust { hue: value, ..adjust },
        }
    }

    pub fn name(self) -> (name: &'static str)
        ensures
            name@ == match self {
                Knob::Exposure => "Exposure"@,
                Knob::Contrast => "Contrast"@,
                Knob::Saturation => "Saturation"@,
                Knob::Hue => "Hue"@,
            },
    {
        match self {
            Knob::Exposure => "Exposure",
            Knob::Contrast => "Contrast",
            Knob::Saturation => "Saturation",
            Knob::Hue => "Hue",
        }
    }

    /// What the knob says when pointed at.
    pub fn hint(self) -> (words: &'static str)
        ensures
            words@ == match self {
                Knob::Exposure => {
                    "Stops of light. +1 is twice as much, \u{2212}1 is half \u{2014} applied to the light itself, so it brightens the way an exposure does rather than the way a brightness slider does."@
                },
                Knob::Contrast => {
                    "Spread about mid-grey. 1 leaves it alone, 0 flattens the picture to one tone. It moves lightness only \u{2014} the colours keep their saturation, which is not true of a contrast curve in sRGB."@
                },
                Knob::Saturation => {
                    "How far the colours sit from grey. 0 is a greyscale that keeps every lightness exactly where it was, which a luminance average does not."@
                },
                Knob::Hue => {
                    "Turn every colour around the wheel, in degrees. Lightness and saturation are held, so a hue shift is a hue shift."@
                },
            },
    {
        match self {
            Knob::Exposure => {
                "Stops of light. +1 is twice as much, \u{2212}1 is half \u{2014} applied to the light itself, so it brightens the way an exposure does rather than the way a brightness slider does."
            },
            Knob::Contrast => {
                "Spread about mid-grey. 1 leaves it alone, 0 flattens the picture to one tone. It moves lightness only \u{2014} the colours keep their saturation, which is not true of a contrast curve in sRGB."
            },
            Knob::Saturation => {
                "How far the colours sit from grey. 0 is a greyscale that keeps every lightness exactly where it was, which a luminance average does not."
            },
            Knob::Hue => {
                "Turn every colour around the wheel, in degrees. Lightness and saturation are held, so a hue shift is a hue shift."
            },
        }
    }

    /// What a value on the track reads as beside it. The hue's track is in degrees.
    pub fn readout(self, value: Amount) -> (words: String)
        ensures
            words@ == self.reads(value),
    {
        if !matches!(self, Knob::Hue) {
            return value.fixed(Places::Two, matches!(self, Knob::Exposure));
        }
        let n: i64 = value.rounded() as i64;
        let mut words: String = String::new();
        if n < 0 {
            words.push('-');
        }
        let ghost sign = words@;
        let size: i64 = if n < 0 {
            -n
        } else {
            n
        };
        words.append(text::decimal_string(size as u128).as_str());
        words.push('\u{00B0}');
        proof {
            assert(sign =~= (if n < 0 {
                seq!['-']
            } else {
                Seq::empty()
            }));
            assert(words@ =~= signed(n as int) + seq!['\u{00B0}']);
        }
        words
    }
}

/// What a knob sets it reads back, and no knob touches another's number.
pub proof fn law_a_knob_keeps_to_itself(a: Knob, b: Knob, adjust: ColorAdjust, value: Amount)
    ensures
        a.of(a.into(adjust, value)) == value,
        a != b ==> b.of(a.into(adjust, value)) == b.of(adjust),
        a.into(adjust, a.of(adjust)) == adjust,
{
}

/// A filter with nothing composited beneath it in its own stack does nothing at all.
pub fn inert(layer: &LayerInfo) -> (inert: bool)
    ensures
        inert == !layer.has_underlay,
{
    !layer.has_underlay
}

/// Whether the filter is neutral already, so that putting it back would do nothing.
pub fn is_neutral(adjust: ColorAdjust) -> (yes: bool)
    ensures
        yes == adjust.equals(model::neutral()),
{
    adjust.same(ColorAdjust::neutral_adjust())
}

/// The edit that puts every slider back to neutral.
pub fn reset(id: LayerId) -> (edit: DocCommand)
    ensures
        edit == DocCommand::SetFilter(id, model::neutral()),
{
    DocCommand::SetFilter(id, ColorAdjust::neutral_adjust())
}

/// Each knob sets the number it is named for, and that alone, and shows the one it sets.
pub proof fn law_a_knob_sets_what_it_is_named_for(
    knob: Knob,
    adjust: ColorAdjust,
    value: Amount,
    next: ColorAdjust,
    shown: Amount,
)
    requires
        call_ensures(Knob::set, (knob, adjust, value), next),
        call_ensures(Knob::get, (knob, adjust), shown),
    ensures
        next.exposure == (if knob is Exposure { value } else { adjust.exposure }),
        next.contrast == (if knob is Contrast { value } else { adjust.contrast }),
        next.saturation == (if knob is Saturation { value } else { adjust.saturation }),
        next.hue == (if knob is Hue { value } else { adjust.hue }),
        knob is Exposure ==> shown == adjust.exposure,
        knob is Contrast ==> shown == adjust.contrast,
        knob is Saturation ==> shown == adjust.saturation,
        knob is Hue ==> shown == adjust.hue,
{
}

/// A whole number of degrees reads back as itself, behind a minus where it is negative.
pub proof fn law_degrees_read_back(value: Amount, words: String)
    requires
        call_ensures(Knob::readout, (Knob::Hue, value), words),
    ensures
        words@.len() > 0 && words@.last() == '\u{00B0}',
        value.whole() < 0 ==> words@[0] == '-' && text::value(words@.subrange(1, words@.len() - 1))
            == -value.whole(),
        value.whole() >= 0 ==> text::value(words@.drop_last()) == value.whole(),
{
    let n = value.whole();
    text::law_decimal_reads_back(magnitude(n));
    if n < 0 {
        assert(words@.subrange(1, words@.len() - 1) =~= text::decimal(magnitude(n)));
    } else {
        assert(words@.drop_last() =~= text::decimal(magnitude(n)));
    }
}

/// Only the stops wear a plus; every knob but the hue is written to two places.
pub proof fn law_only_the_stops_wear_a_plus(knob: Knob, value: Amount, words: String)
    requires
        !(knob is Hue),
        call_ensures(Knob::readout, (knob, value), words),
    ensures
        words@ == value.written(Places::Two, knob is Exposure),
{
}

/// The filter to select is a filter, and one that was not there before.
pub proof fn law_a_filter_is_new_where_it_was_not_there_before(before: Seq<LayerId>, l: LayerInfo)
    ensures
        l.filter is None ==> !is_new_filter(before, l),
        (exists|i: int| 0 <= i < before.len() && #[trigger] before[i] == l.id) ==> !is_new_filter(
            before,
            l,
        ),
        l.filter is Some && (forall|i: int| 0 <= i < before.len() ==> #[trigger] before[i] != l.id)
            ==> is_new_filter(before, l),
{
}

} // verus!
