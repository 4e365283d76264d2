//! The eyedropper as the interface holds it: what a sample is taken with, and how far its
//! reach resolves.
//!
//! Which layer "this layer" means is settled at the moment of the sample, against whichever
//! layer is selected then, so a bar cannot be left holding the id of a layer that has since
//! been deleted.
use crate::model::LayerId;
use crate::text;
use vstd::prelude::*;

verus! {

/// How far up the stack a sample sees.
#[derive(Clone, Copy, PartialEq, Eq, Structural, Debug)]
pub enum PickScope {
    ThisLayer,
    AndBelow,
    AllLayers,
}

impl Default for PickScope {
    fn default() -> (scope: Self)
        ensures
            scope == PickScope::AllLayers,
    {
        PickScope::AllLayers
    }
}

/// Where a sample is taken from.
#[derive(Clone, Copy, PartialEq, Eq, Structural, Debug)]
pub enum PickSource {
    /// One layer alone.
    Layer(LayerId),
    /// The group a layer stands in, all of it or up to that layer.
    Group { layer: LayerId, below: bool },
    /// A layer and everything under it.
    Below(LayerId),
    /// Every visible layer.
    Composite,
    /// Every visible layer over the colour of the canvas.
    CompositeOverSubstrate,
}

/// What the engine is asked for.
#[derive(Clone, Copy, PartialEq, Eq, Structural, Debug)]
pub struct PickOptions {
    pub source: PickSource,
    pub radius: u32,
}

/// The patches the bars offer, as **radii**: the half-width of the averaged square.
pub const PATCHES: [u32; 4] = [0, 1, 2, 5];

/// The word for a patch: a point, or the `N×N` square that its radius describes.
pub open spec fn spelled(radius: nat) -> Seq<char> {
    if radius == 0 {
        "Point"@
    } else {
        text::decimal(2 * radius + 1) + seq!['\u{00D7}'] + text::decimal(2 * radius + 1)
    }
}

/// How a patch is spelled on a bar.
pub fn patch_word(radius: u32) -> (word: String)
    requires
        2 * radius + 1 <= u32::MAX,
    ensures
        word@ == spelled(radius as nat),
{
    if radius == 0 {
        "Point".to_owned()
    } else {
        let n: u32 = 2 * radius + 1;
        let mut word: String = text::decimal_string(n as u128);
        word.push('\u{00D7}');
        word.append(text::decimal_string(n as u128).as_str());
        assert(word@ =~= spelled(radius as nat));
        word
    }
}

/// What the eyedropper's options bar holds: the two questions a sample answers to, and how
/// much canvas one averages.
#[derive(Clone, Copy, PartialEq, Eq, Structural, Debug)]
pub struct Sampler {
    /// How far up the stack a sample sees.
    pub scope: PickScope,
    /// Whether the reach is confined to the selected layer's **group**. On by default.
    pub group_only: bool,
    /// Half-width of the averaged square, in canvas pixels (0 = point sample).
    pub radius: u32,
}

impl Default for Sampler {
    fn default() -> (sampler: Self)
        ensures
            sampler == (Sampler { scope: PickScope::AllLayers, group_only: true, radius: 0 }),
    {
        Sampler { scope: PickScope::default(), group_only: true, radius: 0 }
    }
}

impl Sampler {
    /// The answer that names no layer. The fence is the whole of the choice: on, bare
    /// canvas answers nothing; off, the document answers over the substrate.
    pub open spec fn everything(self) -> PickSource {
        if self.group_only {
            PickSource::Composite
        } else {
            PickSource::CompositeOverSubstrate
        }
    }

    /// The source a reach resolves to: everything where no layer is selected, and else by
    /// reach, the fence choosing between the group and the plain reach.
    pub open spec fn source(self, active: Option<LayerId>) -> PickSource {
        match active {
            None => self.everything(),
            Some(id) => match self.scope {
                PickScope::ThisLayer => PickSource::Layer(id),
                PickScope::AndBelow => if self.group_only {
                    PickSource::Group { layer: id, below: true }
                } else {
                    PickSource::Below(id)
                },
                PickScope::AllLayers => if self.group_only {
                    PickSource::Group { layer: id, below: false }
                } else {
                    PickSource::CompositeOverSubstrate
                },
            },
        }
    }

    /// What the engine is asked for, resolved against `active`, the layer selected at the
    /// moment of the sample.
    ///
    /// A document with no layer selected falls back to the whole document rather than
    /// sampling nothing. The canvas colour stands behind the sample exactly when the group
    /// fence is down. One arm per reach, each answering the layer and the fence for itself.
    pub fn options(self, active: Option<LayerId>) -> (options: PickOptions)
        ensures
            options == (PickOptions { source: self.source(active), radius: self.radius }),
    {
        let source = match self.scope {
            PickScope::ThisLayer => match active {
                // One layer alone is one layer alone whichever side of the fence it is
                // asked from.
                Some(id) => PickSource::Layer(id),
                None => self.whole_document(),
            },
            PickScope::AndBelow => match active {
                Some(id) => if self.group_only {
                    PickSource::Group { layer: id, below: true }
                } else {
                    PickSource::Below(id)
                },
                None => self.whole_document(),
            },
            PickScope::AllLayers => match active {
                Some(id) => if self.group_only {
                    PickSource::Group { layer: id, below: false }
                } else {
                    // Unfenced, "every visible layer" already *is* the whole document.
                    self.whole_document()
                },
                None => self.whole_document(),
            },
        };
        PickOptions { source, radius: self.radius }
    }

    /// The two answers that name no layer.
    pub fn whole_document(self) -> (source: PickSource)
        ensures
            source == self.everything(),
    {
        if self.group_only {
            PickSource::Composite
        } else {
            PickSource::CompositeOverSubstrate
        }
    }
}

/// The patches widen along the row, and the row leads with the single pixel.
pub proof fn law_the_patches_widen(i: int)
    requires
        0 <= i < 3,
    ensures
        PATCHES[0] == 0,
        PATCHES[i] < PATCHES[i + 1],
{
}

/// Two patches are never spelled alike, so no bar can offer a word that averages some other
/// square.
pub proof fn law_patch_words_differ(a: nat, b: nat)
    requires
        spelled(a) == spelled(b),
    ensures
        a == b,
{
    reveal_strlit("Point");
    if a != 0 {
        lemma_spelled_number(a);
    }
    if b != 0 {
        lemma_spelled_number(b);
    }
    if a == 0 && b != 0 {
        assert(spelled(a)[0] == 'P');
    }
    if b == 0 && a != 0 {
        assert(spelled(b)[0] == 'P');
    }
    if a != 0 && b != 0 {
        let m = text::decimal(2 * a + 1);
        let n = text::decimal(2 * b + 1);
        assert(spelled(a).len() == 2 * m.len() + 1);
        assert(spelled(b).len() == 2 * n.len() + 1);
        assert(spelled(a).take(m.len() as int) =~= m);
        assert(spelled(b).take(n.len() as int) =~= n);
        text::law_decimals_differ(2 * a + 1, 2 * b + 1);
    }
}

proof fn lemma_spelled_number(radius: nat)
    requires
        radius != 0,
    ensures
        spelled(radius)[0] != 'P',
{
    lemma_decimal_leads_with_a_digit(2 * radius + 1);
    assert(spelled(radius)[0] == text::decimal(2 * radius + 1)[0]);
}

proof fn lemma_decimal_leads_with_a_digit(n: nat)
    ensures
        text::decimal(n).len() > 0,
        '0' <= text::decimal(n)[0] <= '9',
    decreases n,
{
    if n >= 10 {
        lemma_decimal_leads_with_a_digit(n / 10);
    }
}

/// The canvas colour stands behind a sample only with the fence down, and every reach with
/// the fence up stays off it.
pub proof fn law_the_canvas_answers_only_with_the_fence_down(
    sampler: Sampler,
    active: Option<LayerId>,
)
    ensures
        sampler.source(active) == PickSource::CompositeOverSubstrate ==> !sampler.group_only,
        active is None ==> (sampler.source(active) == PickSource::CompositeOverSubstrate
            <==> !sampler.group_only),
{
}

/// One layer does not care about the fence.
pub proof fn law_one_layer_does_not_care_about_the_fence(
    a: Sampler,
    b: Sampler,
    id: LayerId,
)
    requires
        a.scope == PickScope::ThisLayer,
        b.scope == PickScope::ThisLayer,
    ensures
        a.source(Some(id)) == b.source(Some(id)),
        a.source(Some(id)) == PickSource::Layer(id),
{
}

/// What is asked for goes by the reach and the fence: one layer is that layer, a layer and what is
/// below it is held to the group with the fence up and runs to the bottom with it down, and every
/// layer is the group's with the fence up and the whole document with it down. The patch is the
/// one that was chosen.
pub proof fn law_a_sample_reaches_as_far_as_it_was_asked_to(
    sampler: Sampler,
    active: Option<LayerId>,
    options: PickOptions,
)
    requires
        call_ensures(Sampler::options, (sampler, active), options),
    ensures
        options.radius == sampler.radius,
        active is None && sampler.group_only ==> options.source == PickSource::Composite,
        active is None && !sampler.group_only ==> options.source
            == PickSource::CompositeOverSubstrate,
        active matches Some(id) ==> {
            &&& sampler.scope is ThisLayer ==> options.source == PickSource::Layer(id)
            &&& sampler.scope is AndBelow && sampler.group_only ==> options.source == (
            PickSource::Group { layer: id, below: true })
            &&& sampler.scope is AndBelow && !sampler.group_only ==> options.source
                == PickSource::Below(id)
            &&& sampler.scope is AllLayers && sampler.group_only ==> options.source == (
            PickSource::Group { layer: id, below: false })
            &&& sampler.scope is AllLayers && !sampler.group_only ==> options.source
                == PickSource::CompositeOverSubstrate
        },
{
}

/// A patch of radius `r` is a square of `2r + 1` pixels either way, and its word says both.
pub proof fn law_a_patch_word_gives_both_sides_of_the_square(radius: nat)
    requires
        radius > 0,
    ensures
        ({
            let word = spelled(radius);
            let half = (word.len() - 1) / 2;
            &&& word[half] == '\u{00D7}'
            &&& text::value(word.take(half)) == radius + 1 + radius
            &&& word.skip(half + 1) == word.take(half)
        }),
        spelled(0) == "Point"@,
{
    let n = 2 * radius + 1;
    let m = text::decimal(n);
    let word = spelled(radius);
    assert(word.len() == 2 * m.len() + 1);
    let half = (word.len() - 1) / 2;
    assert(half == m.len());
    assert(word.take(half) =~= m);
    assert(word.skip(half + 1) =~= m);
    text::law_decimal_reads_back(n);
}

} // verus!
