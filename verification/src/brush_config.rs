//! The brush as the interface holds it: the durable half, which is what the tool *is*, and
//! the transient half, which is how the hand has it tuned.
//!
//! Two brushes are compared by their numbers: a zero has no sign, and what is not a number is the
//! same as nothing.
use crate::amount::Amount;
use vstd::prelude::*;

verus! {

/// The identity of an imported stamp: the hash of its bytes.
#[derive(Clone, Copy, PartialEq, Eq, Structural, Debug)]
pub struct ContentId {
    pub high: u128,
    pub low: u128,
}

/// The tip.
#[derive(Clone, Copy, PartialEq, Eq, Structural, Debug)]
pub enum BrushShape {
    Round { hardness: Amount },
    Stamp(ContentId),
}

impl BrushShape {
    pub open spec fn equals(self, other: BrushShape) -> bool {
        match (self, other) {
            (BrushShape::Round { hardness: a }, BrushShape::Round { hardness: b }) => a.equals(b),
            (BrushShape::Stamp(a), BrushShape::Stamp(b)) => a == b,
            _ => false,
        }
    }

    pub fn same(self, other: BrushShape) -> (same: bool)
        ensures
            same == self.equals(other),
    {
        match (self, other) {
            (BrushShape::Round { hardness: a }, BrushShape::Round { hardness: b }) => a.same(b),
            (BrushShape::Stamp(a), BrushShape::Stamp(b)) => a == b,
            _ => false,
        }
    }
}

/// What a stroke does to the paint under it.
#[derive(Clone, Copy, PartialEq, Eq, Structural, Debug)]
pub enum BrushEffectType {
    Paint,
    Wet,
    Erase,
    Liquify,
}

/// What turns the tip as it sweeps.
#[derive(Clone, Copy, PartialEq, Eq, Structural, Debug)]
pub enum OrientationSource {
    Fixed,
    Travel,
    Pen,
}

#[derive(Clone, Copy, PartialEq, Eq, Structural, Debug)]
pub enum NoiseKind {
    Simplex,
    White,
}

/// What the pen reports that a knob can follow.
#[derive(Clone, Copy, PartialEq, Eq, Structural, Debug)]
pub enum ModSource {
    Pressure,
    Tilt,
}

/// A knob following the pen: from `floor` up, along a curve.
#[derive(Clone, Copy, PartialEq, Eq, Structural, Debug)]
pub struct Modulation {
    pub source: ModSource,
    pub floor: Amount,
    pub curve: Amount,
}

impl Modulation {
    pub open spec fn equals(self, other: Modulation) -> bool {
        &&& self.source == other.source
        &&& self.floor.equals(other.floor)
        &&& self.curve.equals(other.curve)
    }

    pub fn same(self, other: Modulation) -> (same: bool)
        ensures
            same == self.equals(other),
    {
        self.source == other.source
            && self.floor.same(other.floor)
            && self.curve.same(other.curve)
    }
}

/// A knob that follows the pen the same way as another, or as little.
pub open spec fn both(a: Option<Modulation>, b: Option<Modulation>) -> bool {
    match (a, b) {
        (Some(a), Some(b)) => a.equals(b),
        (None, None) => true,
        _ => false,
    }
}

fn same_following(a: Option<Modulation>, b: Option<Modulation>) -> (same: bool)
    ensures
        same == both(a, b),
{
    match (a, b) {
        (Some(a), Some(b)) => a.same(b),
        (None, None) => true,
        _ => false,
    }
}

/// Which of the tip's knobs follow the pen.
#[derive(Clone, Copy, PartialEq, Eq, Structural, Debug)]
pub struct BrushModulations {
    pub size: Option<Modulation>,
    pub stretch: Option<Modulation>,
    pub tooth_give: Option<Modulation>,
}

impl BrushModulations {
    pub open spec fn equals(self, other: BrushModulations) -> bool {
        &&& both(self.size, other.size)
        &&& both(self.stretch, other.stretch)
        &&& both(self.tooth_give, other.tooth_give)
    }

    pub fn same(self, other: BrushModulations) -> (same: bool)
        ensures
            same == self.equals(other),
    {
        same_following(self.size, other.size)
            && same_following(self.stretch, other.stretch)
            && same_following(self.tooth_give, other.tooth_give)
    }
}

/// How the colour wanders, along the stroke and across it.
#[derive(Clone, Copy, PartialEq, Eq, Structural, Debug)]
pub struct Frequency {
    pub along: Amount,
    pub across: Amount,
}

impl Frequency {
    pub open spec fn equals(self, other: Frequency) -> bool {
        &&& self.along.equals(other.along)
        &&& self.across.equals(other.across)
    }

    pub fn same(self, other: Frequency) -> (same: bool)
        ensures
            same == self.equals(other),
    {
        self.along.same(other.along)
            && self.across.same(other.across)
    }
}

/// How far the colour wanders: lightness and the two colour axes.
#[derive(Clone, Copy, PartialEq, Eq, Structural, Debug)]
pub struct Amplitude {
    pub lightness: Amount,
    pub a: Amount,
    pub b: Amount,
}

impl Amplitude {
    pub open spec fn equals(self, other: Amplitude) -> bool {
        &&& self.lightness.equals(other.lightness)
        &&& self.a.equals(other.a)
        &&& self.b.equals(other.b)
    }

    pub fn same(self, other: Amplitude) -> (same: bool)
        ensures
            same == self.equals(other),
    {
        self.lightness.same(other.lightness)
            && self.a.same(other.a)
            && self.b.same(other.b)
    }
}

#[derive(Clone, Copy, PartialEq, Eq, Structural, Debug)]
pub struct ColorDynamics {
    pub noise: NoiseKind,
    pub frequency: Frequency,
    pub amplitude: Amplitude,
}

impl ColorDynamics {
    pub open spec fn equals(self, other: ColorDynamics) -> bool {
        &&& self.noise == other.noise
        &&& self.frequency.equals(other.frequency)
        &&& self.amplitude.equals(other.amplitude)
    }

    pub fn same(self, other: ColorDynamics) -> (same: bool)
        ensures
            same == self.equals(other),
    {
        self.noise == other.noise
            && self.frequency.same(other.frequency)
            && self.amplitude.same(other.amplitude)
    }
}

/// How the paint gives to the tooth of the paper.
#[derive(Clone, Copy, PartialEq, Eq, Structural, Debug)]
pub struct ToothParams {
    pub give: Amount,
    pub softness: Amount,
}

impl ToothParams {
    pub open spec fn equals(self, other: ToothParams) -> bool {
        &&& self.give.equals(other.give)
        &&& self.softness.equals(other.softness)
    }

    pub fn same(self, other: ToothParams) -> (same: bool)
        ensures
            same == self.equals(other),
    {
        self.give.same(other.give)
            && self.softness.same(other.softness)
    }
}

/// How a wet brush trades paint with the canvas, per pass at the neutral flow.
#[derive(Clone, Copy, PartialEq, Eq, Structural, Debug)]
pub struct WetDynamics {
    pub add: Amount,
    pub lift: Amount,
    pub deposit: Amount,
    pub bleed: Amount,
    pub lift_modulation: Option<Modulation>,
    pub bleed_modulation: Option<Modulation>,
}

impl WetDynamics {
    pub open spec fn equals(self, other: WetDynamics) -> bool {
        &&& self.add.equals(other.add)
        &&& self.lift.equals(other.lift)
        &&& self.deposit.equals(other.deposit)
        &&& self.bleed.equals(other.bleed)
        &&& both(self.lift_modulation, other.lift_modulation)
        &&& both(self.bleed_modulation, other.bleed_modulation)
    }

    pub fn same(self, other: WetDynamics) -> (same: bool)
        ensures
            same == self.equals(other),
    {
        self.add.same(other.add)
            && self.lift.same(other.lift)
            && self.deposit.same(other.deposit)
            && self.bleed.same(other.bleed)
            && same_following(self.lift_modulation, other.lift_modulation)
            && same_following(self.bleed_modulation, other.bleed_modulation)
    }
}

#[derive(Clone, Copy, PartialEq, Eq, Structural, Debug)]
pub struct EraseConfig {
    pub opacity: Amount,
    pub opacity_modulation: Option<Modulation>,
}

impl EraseConfig {
    pub open spec fn equals(self, other: EraseConfig) -> bool {
        &&& self.opacity.equals(other.opacity)
        &&& both(self.opacity_modulation, other.opacity_modulation)
    }

    pub fn same(self, other: EraseConfig) -> (same: bool)
        ensures
            same == self.equals(other),
    {
        self.opacity.same(other.opacity)
            && same_following(self.opacity_modulation, other.opacity_modulation)
    }
}

#[derive(Clone, Copy, PartialEq, Eq, Structural, Debug)]
pub struct LiquifyConfig {
    pub strength: Amount,
    pub strength_modulation: Option<Modulation>,
}

impl LiquifyConfig {
    pub open spec fn equals(self, other: LiquifyConfig) -> bool {
        &&& self.strength.equals(other.strength)
        &&& both(self.strength_modulation, other.strength_modulation)
    }

    pub fn same(self, other: LiquifyConfig) -> (same: bool)
        ensures
            same == self.equals(other),
    {
        self.strength.same(other.strength)
            && same_following(self.strength_modulation, other.strength_modulation)
    }
}

/// The durable half of a brush.
#[derive(Clone, Copy, PartialEq, Eq, Structural, Debug)]
pub struct BrushConfig {
    pub shape: BrushShape,
    pub effect: BrushEffectType,
    pub opacity: Amount,
    pub drain: Amount,
    pub jitter: Amount,
    pub stretch: Amount,
    pub smoothing: Amount,
    pub start_taper_length: Amount,
    pub end_taper_length: Amount,
    pub orientation: OrientationSource,
    pub tooth: ToothParams,
    pub flow_modulation: Option<Modulation>,
    pub opacity_modulation: Option<Modulation>,
    pub color_dynamics: ColorDynamics,
    pub modulation: BrushModulations,
    pub wet: WetDynamics,
    pub erase: EraseConfig,
    pub liquify: LiquifyConfig,
}

impl BrushConfig {
    pub open spec fn equals(self, other: BrushConfig) -> bool {
        &&& self.shape.equals(other.shape)
        &&& self.effect == other.effect
        &&& self.opacity.equals(other.opacity)
        &&& self.drain.equals(other.drain)
        &&& self.jitter.equals(other.jitter)
        &&& self.stretch.equals(other.stretch)
        &&& self.smoothing.equals(other.smoothing)
        &&& self.start_taper_length.equals(other.start_taper_length)
        &&& self.end_taper_length.equals(other.end_taper_length)
        &&& self.orientation == other.orientation
        &&& self.tooth.equals(other.tooth)
        &&& both(self.flow_modulation, other.flow_modulation)
        &&& both(self.opacity_modulation, other.opacity_modulation)
        &&& self.color_dynamics.equals(other.color_dynamics)
        &&& self.modulation.equals(other.modulation)
        &&& self.wet.equals(other.wet)
        &&& self.erase.equals(other.erase)
        &&& self.liquify.equals(other.liquify)
    }

    pub fn same(self, other: BrushConfig) -> (same: bool)
        ensures
            same == self.equals(other),
    {
        self.shape.same(other.shape)
            && self.effect == other.effect
            && self.opacity.same(other.opacity)
            && self.drain.same(other.drain)
            && self.jitter.same(other.jitter)
            && self.stretch.same(other.stretch)
            && self.smoothing.same(other.smoothing)
            && self.start_taper_length.same(other.start_taper_length)
            && self.end_taper_length.same(other.end_taper_length)
            && self.orientation == other.orientation
            && self.tooth.same(other.tooth)
            && same_following(self.flow_modulation, other.flow_modulation)
            && same_following(self.opacity_modulation, other.opacity_modulation)
            && self.color_dynamics.same(other.color_dynamics)
            && self.modulation.same(other.modulation)
            && self.wet.same(other.wet)
            && self.erase.same(other.erase)
            && self.liquify.same(other.liquify)
    }
}

/// The painting colour.
#[derive(Clone, Copy, PartialEq, Eq, Structural, Debug)]
pub struct Color {
    pub r: Amount,
    pub g: Amount,
    pub b: Amount,
}

/// The transient half of a brush: the tune the hand has it at.
#[derive(Clone, Copy, PartialEq, Eq, Structural, Debug)]
pub struct Transient {
    pub size: Amount,
    pub flow: Amount,
    pub color: Color,
}

impl Transient {
    /// The two tunes are the same, the painting colour set aside.
    pub open spec fn in_tune(self, other: Transient) -> bool {
        self.size.equals(other.size) && self.flow.equals(other.flow)
    }

    /// Whether two tunes are the same, the painting colour set aside.
    pub fn same_tune(&self, other: &Transient) -> (same: bool)
        ensures
            same == self.in_tune(*other),
    {
        self.size.same(other.size) && self.flow.same(other.flow)
    }
}

/// What a brush is before anything is said about it: the engine's own settings, part by
/// part.
#[derive(Clone, Copy, PartialEq, Eq, Structural, Debug)]
pub struct BrushDefaults {
    pub brush: BrushConfig,
    pub shape: BrushShape,
    pub modulation: BrushModulations,
    pub tooth: ToothParams,
    pub wet: WetDynamics,
    pub erase: EraseConfig,
    pub liquify: LiquifyConfig,
    pub transient: Transient,
}

} // verus!
