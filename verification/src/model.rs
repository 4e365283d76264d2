//! What the interface knows of the document: identities, layers, and the edits that its
//! controls ask for.
use crate::amount::{amount, Amount, At, ONE, ZERO};
use crate::panels::color::Rgb;
use crate::panels::guides::Camera;
use vstd::prelude::*;

verus! {

/// The identity of a layer.
#[derive(Clone, Copy, PartialEq, Eq, Structural, Debug)]
pub struct LayerId(pub u64);

impl LayerId {
    /// The layer every document starts with.
    pub fn root() -> (id: LayerId)
        ensures
            id == LayerId(0),
    {
        LayerId(0)
    }
}

/// A place on the canvas, in 64ths of a pixel.
#[derive(Clone, Copy, PartialEq, Eq, Structural, Debug)]
pub struct Point {
    pub x: i64,
    pub y: i64,
}

/// A place on the canvas, in 128ths of a pixel: fine enough for the middle of any two points.
#[derive(Clone, Copy, PartialEq, Eq, Structural, Debug)]
pub struct FinePoint {
    pub x: i128,
    pub y: i128,
}

/// An upright rectangle on the canvas.
#[derive(Clone, Copy, PartialEq, Eq, Structural, Debug)]
pub struct Rect {
    pub min: Point,
    pub max: Point,
}

/// How a layer's paint meets what is below it.
#[derive(Clone, Copy, PartialEq, Eq, Structural, Debug)]
pub enum BlendMode {
    Normal,
    Reinhard,
    /// `k` is the bend of the curve.
    Drago { k: Amount },
    Multiply,
}

impl BlendMode {
    /// The same mode, whatever its own settings.
    pub open spec fn alike(self, other: BlendMode) -> bool {
        match (self, other) {
            (BlendMode::Normal, BlendMode::Normal) => true,
            (BlendMode::Reinhard, BlendMode::Reinhard) => true,
            (BlendMode::Drago { .. }, BlendMode::Drago { .. }) => true,
            (BlendMode::Multiply, BlendMode::Multiply) => true,
            _ => false,
        }
    }

    /// Whether this is the same mode, whatever its own settings: a layer whose bend has
    /// been dragged is still on its mode's row.
    pub fn same_mode(self, other: BlendMode) -> (same: bool)
        ensures
            same == self.alike(other),
    {
        match (self, other) {
            (BlendMode::Normal, BlendMode::Normal) => true,
            (BlendMode::Reinhard, BlendMode::Reinhard) => true,
            (BlendMode::Drago { .. }, BlendMode::Drago { .. }) => true,
            (BlendMode::Multiply, BlendMode::Multiply) => true,
            _ => false,
        }
    }
}

/// A colour adjustment: stops of light, the two factors about grey, and a turn of the wheel
/// in radians.
#[derive(Clone, Copy, PartialEq, Eq, Structural, Debug)]
pub struct ColorAdjust {
    pub exposure: Amount,
    pub contrast: Amount,
    pub saturation: Amount,
    pub hue: Amount,
}

/// The adjustment that changes nothing.
pub open spec fn neutral() -> ColorAdjust {
    ColorAdjust {
        exposure: amount(ZERO),
        contrast: amount(ONE),
        saturation: amount(ONE),
        hue: amount(ZERO),
    }
}

impl ColorAdjust {
    /// The adjustment that changes nothing.
    pub fn neutral_adjust() -> (adjust: ColorAdjust)
        ensures
            adjust == neutral(),
    {
        ColorAdjust {
            exposure: amount(ZERO),
            contrast: amount(ONE),
            saturation: amount(ONE),
            hue: amount(ZERO),
        }
    }

    /// The two adjust alike, number by number.
    pub open spec fn equals(self, other: ColorAdjust) -> bool {
        &&& self.exposure.equals(other.exposure)
        &&& self.contrast.equals(other.contrast)
        &&& self.saturation.equals(other.saturation)
        &&& self.hue.equals(other.hue)
    }

    pub fn same(self, other: ColorAdjust) -> (same: bool)
        ensures
            same == self.equals(other),
    {
        self.exposure.same(other.exposure) && self.contrast.same(other.contrast)
            && self.saturation.same(other.saturation) && self.hue.same(other.hue)
    }
}

/// What a matte layer covers: a region, and the flat colour it covers it with.
#[derive(Clone, Copy, PartialEq, Eq, Structural, Debug)]
pub struct Matte {
    /// A frame is defined against a rectangle, a background against none.
    pub rect: Option<Rect>,
    pub color: Rgb,
}

/// What a filter layer does to what is below it, and what it is called.
#[derive(Clone, PartialEq, Eq, Debug)]
pub struct FilterInfo {
    pub adjust: ColorAdjust,
    pub label: String,
}

/// A layer, as the panels draw it.
#[derive(Clone, PartialEq, Eq, Debug)]
pub struct LayerInfo {
    pub id: LayerId,
    /// The layer's number, which it keeps for its whole life.
    pub ordinal: u64,
    pub name: Option<String>,
    pub matte: Option<Matte>,
    pub filter: Option<FilterInfo>,
    pub blend: BlendMode,
    pub opacity: Amount,
    pub clip: bool,
    pub visible: bool,
    /// It carries other layers.
    pub is_group: bool,
    /// Something composites under it.
    pub has_backdrop: bool,
    /// Something is beneath it in its own stack, the base that carries it included.
    pub has_underlay: bool,
    pub carrier: Option<LayerId>,
    pub depth: u32,
    /// The layer it folds into, where a merge would leave the picture as it is.
    pub merge_down: Option<LayerId>,
}

impl LayerInfo {
    /// It can be painted on: neither a matte nor a filter.
    pub open spec fn takes_paint(self) -> bool {
        self.matte is None && self.filter is None
    }

    pub fn is_paintable(&self) -> (paintable: bool)
        ensures
            paintable == self.takes_paint(),
    {
        self.matte.is_none() && self.filter.is_none()
    }
}

/// A straight sRGB colour.
#[derive(Clone, Copy, PartialEq, Eq, Structural, Debug)]
pub struct Srgb {
    pub r: Amount,
    pub g: Amount,
    pub b: Amount,
}

/// A ramp of colours, by the number the library knows it by.
#[derive(Clone, Copy, PartialEq, Eq, Structural, Debug)]
pub struct Ramp(pub u64);

/// What a matte is painted with.
#[derive(Clone, Copy, PartialEq, Eq, Structural, Debug)]
pub enum MattePaint {
    Solid(Srgb),
    Gradient { ramp: Ramp, drag: Drag },
}

/// The two readings of a drag that lays a ramp.
#[derive(Clone, Copy, PartialEq, Eq, Structural, Debug)]
pub enum GradientAxisKind {
    /// The drag is the ramp.
    Linear,
    /// The drag is the reach: from the centre to the rim.
    Radial,
}

/// The axis that a ramp on a matte runs along.
#[derive(Clone, Copy, PartialEq, Eq, Structural, Debug)]
pub enum GradientAxis {
    Linear { from: FinePoint, to: FinePoint },
    /// The radius is in 128ths of a pixel too.
    Radial { center: FinePoint, radius: i128 },
}

/// A drag that lays a ramp, and how it is read.
#[derive(Clone, Copy, PartialEq, Eq, Structural, Debug)]
pub struct Drag {
    pub kind: GradientAxisKind,
    pub from: FinePoint,
    pub to: FinePoint,
}

/// What is filled.
#[derive(Clone, Copy, PartialEq, Eq, Structural, Debug)]
pub enum SelectionShape {
    All,
    Rect(Rect),
    Ellipse(Rect),
}

/// A fill.
#[derive(Clone, Copy, PartialEq, Eq, Structural, Debug)]
pub enum FillOp {
    /// One colour over a shape.
    Solid { shape: SelectionShape, feather: Amount, color: Srgb, opacity: Amount },
    /// One colour through the selection, which carries the strength it lands at.
    OfSelection(Srgb),
    /// A ramp through the selection, on the same terms.
    GradientOfSelection { ramp: Ramp, drag: Drag },
    /// A ramp through the selection at the strength and the amount that the brush had.
    GradientWash { ramp: Ramp, drag: Drag, opacity: Amount, height: Amount },
}

/// The identity of a guide.
#[derive(Clone, Copy, PartialEq, Eq, Structural, Debug)]
pub struct GuideId {
    pub lamport: u64,
    pub actor: u64,
}

/// The families of deformation.
#[derive(Clone, Copy, PartialEq, Eq, Structural, Debug)]
pub enum Family {
    Free,
    Perspective,
    Warp,
}

/// A deformation, by its family and the bits of the numbers that say it: the six of an affine
/// map, or the four of the source rectangle and the two of each corner, or of each of the
/// mesh's sixteen points.
#[derive(Clone, Copy, PartialEq, Eq, Debug)]
pub struct TransformMap {
    pub family: Family,
    pub bits: [u32; 36],
}

/// How a shape lands on the selection.
#[derive(Clone, Copy, PartialEq, Eq, Structural, Debug)]
pub enum SelectionMode {
    Replace,
    Union,
    Subtract,
    Intersect,
}

/// What the next shape does.
#[derive(Clone, Copy, PartialEq, Eq, Structural, Debug)]
pub enum ShapeAction {
    Select(SelectionMode),
    Fill,
}

/// What the next gesture on the canvas draws with.
#[derive(Clone, Copy, PartialEq, Eq, Structural, Debug)]
pub enum Tool {
    Brush,
    SelectRect,
    SelectEllipse,
    SelectLasso,
}

/// The lights that the canvas can be seen under.
#[derive(Clone, Copy, PartialEq, Eq, Structural, Debug)]
pub enum EnvironmentId {
    Neutral,
    Ferndale,
    BloemHill,
    KloofendalOvercast,
    QwantaniDusk,
}

/// How the relief of the paint and of the canvas catches the light.
#[derive(Clone, Copy, PartialEq, Eq, Structural, Debug)]
pub struct MediaParams {
    pub height_strength: Amount,
    pub substrate_strength: Amount,
    pub specular: Amount,
}

/// Where in a stack a layer goes.
#[derive(Clone, Copy, PartialEq, Eq, Structural, Debug)]
pub enum Place {
    Top,
    Above(LayerId),
    Bottom,
}

/// An edit of the document: one undo step, and one replicated action.
#[derive(Clone, PartialEq, Eq, Debug)]
pub enum DocCommand {
    AddLayer { carrier: Option<LayerId>, above: Option<LayerId> },
    AddFilter { carrier: Option<LayerId>, above: Option<LayerId>, adjust: ColorAdjust },
    AddFrame { rect: Rect, color: Srgb },
    MoveLayer { id: LayerId, carrier: Option<LayerId>, at: Place },
    MergeLayerDown(LayerId),
    DuplicateLayer(LayerId),
    RemoveLayer(LayerId),
    SetLayerName(LayerId, String),
    SetLayerVisible(LayerId, bool),
    SetLayerClip(LayerId, bool),
    SetLayerBlend(LayerId, BlendMode),
    SetFilter(LayerId, ColorAdjust),
    SetMatteRect(LayerId, Rect),
    SetMatteColor(LayerId, Rgb),
    SetMattePaint(LayerId, MattePaint),
    SetLayerOpacity(LayerId, Amount),
    SetSelectionOpacity(Amount),
    SetSubstrateColor(Srgb),
    SetSubstrateScale(u32),
    SetGuide(GuideId, Camera),
    Fill(LayerId, FillOp),
    Transform(LayerId, TransformMap),
    /// Stand at a step of the history.
    Seek(usize),
}

/// What changes on the canvas without the document being changed: one for each control that
/// shows a value before laying it down, with the value or with nothing to drop it, and the
/// settings of the view and of the tools.
#[derive(Clone, Copy, PartialEq, Eq, Debug)]
pub enum ViewCommand {
    PreviewSelectionOpacity(Option<Amount>),
    PreviewLayerOpacity(Option<(LayerId, Amount)>),
    PreviewLayerBlend(Option<(LayerId, BlendMode)>),
    PreviewFilter(Option<(LayerId, ColorAdjust)>),
    PreviewMatteRect(Option<(LayerId, Rect)>),
    PreviewMattePaint(Option<(LayerId, MattePaint)>),
    PreviewSubstrateColor(Option<Srgb>),
    PreviewSubstrateScale(Option<u32>),
    PreviewFill(Option<(LayerId, FillOp)>),
    PreviewGuide(Option<(GuideId, Camera)>),
    PreviewTransform(Option<(LayerId, TransformMap)>),
    SetShapeAction(ShapeAction),
    SetShapeOpacity(Amount),
    SetSelectionFeather(Amount),
    CenterOn(At),
    SetEnvironment(EnvironmentId),
    SetMediaParams(MediaParams),
}

/// Where the layer with an identity is, or past the end if there is none.
pub open spec fn place_of(layers: Seq<LayerInfo>, id: LayerId) -> nat
    decreases layers.len(),
{
    if layers.len() == 0 || layers[0].id == id {
        0
    } else {
        1 + place_of(layers.drop_first(), id)
    }
}

/// The layer with an identity.
pub open spec fn layer_of(layers: Seq<LayerInfo>, id: LayerId) -> Option<LayerInfo> {
    if place_of(layers, id) < layers.len() {
        Some(layers[place_of(layers, id) as int])
    } else {
        None
    }
}

/// The selected layer, where the document still has it.
pub fn selected<'a>(layers: &'a Vec<LayerInfo>, active: LayerId) -> (layer: Option<&'a LayerInfo>)
    ensures
        layer is Some <==> layer_of(layers@, active) is Some,
        layer matches Some(l) ==> layer_of(layers@, active) == Some(*l) && l.id == active,
{
    let mut i: usize = 0;
    assert(layers@.skip(0) =~= layers@);
    while i < layers.len()
        invariant
            i <= layers@.len(),
            place_of(layers@, active) == i + place_of(layers@.skip(i as int), active),
        decreases layers@.len() - i,
    {
        assert(layers@.skip(i as int)[0] == layers@[i as int]);
        assert(layers@.skip(i as int).drop_first() =~= layers@.skip(i as int + 1));
        if layers[i].id == active {
            return Some(&layers[i]);
        }
        i = i + 1;
    }
    None
}

/// The topmost layer that can be painted on. Layers are listed from the bottom up.
pub open spec fn topmost_paint(layers: Seq<LayerInfo>) -> Option<LayerId>
    decreases layers.len(),
{
    if layers.len() == 0 {
        None
    } else if layers.last().takes_paint() {
        Some(layers.last().id)
    } else {
        topmost_paint(layers.drop_last())
    }
}

pub fn topmost_paintable(layers: &Vec<LayerInfo>) -> (id: Option<LayerId>)
    ensures
        id == topmost_paint(layers@),
{
    let mut i: usize = layers.len();
    assert(layers@.take(i as int) =~= layers@);
    while i > 0
        invariant
            i <= layers@.len(),
            topmost_paint(layers@) == topmost_paint(layers@.take(i as int)),
        decreases i,
    {
        assert(layers@.take(i as int).drop_last() =~= layers@.take(i as int - 1));
        if layers[i - 1].is_paintable() {
            return Some(layers[i - 1].id);
        }
        i = i - 1;
    }
    None
}

/// Some layer in the list has this identity and can be painted on.
pub open spec fn paints_on(layers: Seq<LayerInfo>, id: LayerId) -> bool {
    exists|i: int| 0 <= i < layers.len() && (#[trigger] layers[i]).id == id && layers[i].takes_paint()
}

/// The layer that a gesture acts on: the selected one if it can be painted on, otherwise the
/// topmost that can. A matte refuses a gesture the way it refuses a stroke.
pub open spec fn target_of(layers: Seq<LayerInfo>, active: LayerId) -> Option<LayerId> {
    if paints_on(layers, active) {
        Some(active)
    } else {
        topmost_paint(layers)
    }
}

pub fn paint_target(layers: &Vec<LayerInfo>, active: LayerId) -> (id: Option<LayerId>)
    ensures
        id == target_of(layers@, active),
{
    let mut i: usize = 0;
    while i < layers.len()
        invariant
            i <= layers@.len(),
            forall|j: int|
                0 <= j < i ==> !((#[trigger] layers@[j]).id == active && layers@[j].takes_paint()),
        decreases layers@.len() - i,
    {
        if layers[i].id == active && layers[i].is_paintable() {
            assert(paints_on(layers@, active));
            return Some(active);
        }
        i = i + 1;
    }
    topmost_paintable(layers)
}

/// Two modes are alike where they are the same one, and a bent one is alike whatever its bend.
pub proof fn law_a_bend_makes_no_other_mode(a: BlendMode, b: BlendMode, same: bool)
    requires
        call_ensures(BlendMode::same_mode, (a, b), same),
    ensures
        same == a.alike(b),
        same <==> a == b || a is Drago && b is Drago,
{
}

/// Two adjustments are the same where all four of their numbers are.
pub proof fn law_the_same_adjustment_agrees_in_every_number(a: ColorAdjust, b: ColorAdjust, same: bool)
    requires
        call_ensures(ColorAdjust::same, (a, b), same),
    ensures
        same == a.equals(b),
        same <==> a.exposure.equals(b.exposure) && a.contrast.equals(b.contrast)
            && a.saturation.equals(b.saturation) && a.hue.equals(b.hue),
{
}

/// The adjustment that changes nothing adds no light and no turn, and scales by one.
pub proof fn law_the_neutral_adjustment_adds_nothing_and_scales_by_one(adjust: ColorAdjust)
    requires
        call_ensures(ColorAdjust::neutral_adjust, (), adjust),
    ensures
        adjust == neutral(),
        adjust.exposure.bits == 0 && adjust.hue.bits == 0,
        adjust.contrast.bits == 0x3f80_0000 && adjust.saturation.bits == 0x3f80_0000,
{
}

/// A layer is found by its identity: the first that has it, and none where none has.
pub proof fn law_a_layer_is_found_by_its_identity(layers: Seq<LayerInfo>, id: LayerId)
    ensures
        layer_of(layers, id) is None <==> forall|i: int|
            0 <= i < layers.len() ==> (#[trigger] layers[i]).id != id,
        forall|i: int|
            0 <= i < layers.len() && (#[trigger] layers[i]).id == id && (forall|j: int|
                0 <= j < i ==> (#[trigger] layers[j]).id != id) ==> layer_of(layers, id) == Some(
                layers[i],
            ),
    decreases layers.len(),
{
    lemma_place_is_the_first(layers, id);
    let p = place_of(layers, id) as int;
    if p < layers.len() {
        assert(layers[p].id == id);
        assert forall|i: int|
            0 <= i < layers.len() && (#[trigger] layers[i]).id == id && (forall|j: int|
                0 <= j < i ==> (#[trigger] layers[j]).id != id) implies layer_of(layers, id) == Some(
            layers[i],
        ) by {
            if i < p {
                assert(layers[i].id != id);
            }
            if p < i {
                assert(layers[p].id != id);
            }
        }
    }
}

proof fn lemma_place_is_the_first(layers: Seq<LayerInfo>, id: LayerId)
    ensures
        place_of(layers, id) <= layers.len(),
        place_of(layers, id) < layers.len() ==> layers[place_of(layers, id) as int].id == id,
        forall|j: int| 0 <= j < place_of(layers, id) ==> (#[trigger] layers[j]).id != id,
    decreases layers.len(),
{
    if layers.len() > 0 && layers[0].id != id {
        let rest = layers.drop_first();
        lemma_place_is_the_first(rest, id);
        assert forall|j: int| 0 <= j < place_of(layers, id) implies (#[trigger] layers[j]).id
            != id by {
            if j > 0 {
                assert(rest[j - 1] == layers[j]);
            }
        }
    }
}

/// The topmost layer that can be painted on has none above it that can, layers being listed from
/// the bottom up. A matte cannot be painted on, nor can a filter; everything else can.
pub proof fn law_the_topmost_paintable_has_none_above_it(layers: Seq<LayerInfo>, i: int)
    requires
        -1 <= i < layers.len(),
        i >= 0 ==> layers[i].matte is None && layers[i].filter is None,
        forall|j: int|
            i < j < layers.len() ==> (#[trigger] layers[j]).matte is Some || layers[j].filter is Some,
    ensures
        topmost_paint(layers) == if i >= 0 {
            Some(layers[i].id)
        } else {
            None
        },
    decreases layers.len(),
{
    if layers.len() > 0 && i < layers.len() - 1 {
        let rest = layers.drop_last();
        let last = layers[layers.len() - 1];
        assert(last.matte is Some || last.filter is Some);
        assert forall|j: int| i < j < rest.len() implies (#[trigger] rest[j]).matte is Some
            || rest[j].filter is Some by {
            assert(rest[j] == layers[j]);
        }
        law_the_topmost_paintable_has_none_above_it(rest, i);
    }
}

/// A gesture acts on the selected layer where that can be painted on, and on the topmost that can
/// where it cannot.
pub proof fn law_a_gesture_acts_where_paint_can_go(
    layers: &Vec<LayerInfo>,
    active: LayerId,
    target: Option<LayerId>,
    top: Option<LayerId>,
)
    requires
        call_ensures(paint_target, (layers, active), target),
        call_ensures(topmost_paintable, (layers,), top),
    ensures
        (exists|i: int|
            0 <= i < layers@.len() && (#[trigger] layers@[i]).id == active && layers@[i].matte is None
                && layers@[i].filter is None) ==> target == Some(active),
        (forall|i: int|
            0 <= i < layers@.len() && (#[trigger] layers@[i]).id == active ==> layers@[i].matte is Some
                || layers@[i].filter is Some) ==> target == top,
{
    if exists|i: int|
        0 <= i < layers@.len() && (#[trigger] layers@[i]).id == active && layers@[i].matte is None
            && layers@[i].filter is None {
        let i = choose|i: int|
            0 <= i < layers@.len() && (#[trigger] layers@[i]).id == active && layers@[i].matte is None
                && layers@[i].filter is None;
        assert(layers@[i].takes_paint());
        assert(paints_on(layers@, active));
    }
}

} // verus!
