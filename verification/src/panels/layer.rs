//! The Layers panel: the layer tree, and the controls of whichever layer is selected.
//!
//! Indent means **membership** and the rail down the left of a row means **clipping**, and
//! they are drawn as different marks because they are different facts. A control drawn *in*
//! a row acts on the layer of that row, and is not there when the move it makes has nowhere
//! to go.
use crate::amount::Amount;
use crate::model::{BlendMode, DocCommand, LayerId, LayerInfo, Place};
use crate::render::PeerInfo;
use crate::reorder::{Grab, Motion, Phase};
use crate::text;
use std::collections::HashSet;
use vstd::prelude::*;

verus! {

// --- the panel's own state ---

/// Which groups are shut. Whether *you* have a group folded away is not part of the
/// painting.
#[derive(PartialEq, Eq, Debug)]
pub struct Folds {
    shut: HashSet<u64>,
}

impl View for Folds {
    type V = Set<LayerId>;

    closed spec fn view(&self) -> Set<LayerId> {
        Set::new(|id: LayerId| self.shut@.contains(id.0))
    }
}

impl Folds {
    /// Every group open.
    pub fn new() -> (folds: Self)
        ensures
            folds@ == Set::<LayerId>::empty(),
    {
        let folds = Folds { shut: HashSet::new() };
        assert(folds@ =~= Set::<LayerId>::empty());
        folds
    }

    /// Whether a group is shut.
    pub fn is_shut(&self, id: LayerId) -> (shut: bool)
        ensures
            shut == self@.contains(id),
    {
        broadcast use vstd::std_specs::hash::group_hash_axioms;

        self.shut.contains(&id.0)
    }

    /// Open a group, if it was shut.
    pub fn open(&mut self, id: LayerId)
        ensures
            final(self)@ == old(self)@.remove(id),
    {
        broadcast use vstd::std_specs::hash::group_hash_axioms;

        self.shut.remove(&id.0);
        assert(self@ =~= old(self)@.remove(id));
    }

    /// Shut a group that is open, or open one that is shut.
    pub fn toggle(&mut self, id: LayerId)
        ensures
            final(self)@ == if old(self)@.contains(id) {
                old(self)@.remove(id)
            } else {
                old(self)@.insert(id)
            },
    {
        broadcast use vstd::std_specs::hash::group_hash_axioms;

        if self.is_shut(id) {
            self.open(id);
        } else {
            self.shut.insert(id.0);
            assert(self@ =~= old(self)@.insert(id));
        }
    }
}

/// Folding and unfolding a group again leaves the panel as it was.
pub proof fn law_toggling_twice_changes_nothing(shut: Set<LayerId>, id: LayerId)
    ensures
        !shut.contains(id) ==> shut.insert(id).remove(id) == shut,
        shut.contains(id) ==> shut.remove(id).insert(id) == shut,
{
    if shut.contains(id) {
        assert(shut.remove(id).insert(id) =~= shut);
    } else {
        assert(shut.insert(id).remove(id) =~= shut);
    }
}

// --- the selected layer's controls ---

/// The blend mode has nothing to say: there is no layer, nothing composites under it, or it
/// is a filter, which has no paint of its own to blend.
pub open spec fn no_blend(layer: Option<LayerInfo>) -> bool {
    match layer {
        None => true,
        Some(l) => !l.has_backdrop || l.filter is Some,
    }
}

/// The clip has nothing to say. A filter's is inert exactly where the filter is, which is
/// with nothing beneath it in its own stack; any other layer's is with nothing composited
/// under it.
pub open spec fn no_clip(layer: Option<LayerInfo>) -> bool {
    match layer {
        None => true,
        Some(l) => if l.filter is Some {
            !l.has_underlay
        } else {
            !l.has_backdrop
        },
    }
}

/// What a reference may point at, as a value.
pub open spec fn value_of(layer: Option<&LayerInfo>) -> Option<LayerInfo> {
    match layer {
        None => None,
        Some(l) => Some(*l),
    }
}

/// Whether the blend picker is inert.
pub fn blend_inert(layer: Option<&LayerInfo>) -> (inert: bool)
    ensures
        inert == no_blend(value_of(layer)),
{
    match layer {
        None => true,
        Some(l) => !l.has_backdrop || l.filter.is_some(),
    }
}

/// Whether the clip chip is inert.
pub fn clip_inert(layer: Option<&LayerInfo>) -> (inert: bool)
    ensures
        inert == no_clip(value_of(layer)),
{
    match layer {
        None => true,
        Some(l) => if l.filter.is_some() {
            !l.has_underlay
        } else {
            !l.has_backdrop
        },
    }
}

/// The two relational controls part only on a filter: on any other layer they are inert
/// together, and on a filter with something beneath it the clip alone is live.
pub proof fn law_blend_and_clip_part_only_on_a_filter(l: LayerInfo)
    ensures
        l.filter is None ==> no_blend(Some(l)) == no_clip(Some(l)),
        l.filter is Some ==> no_blend(Some(l)),
        l.filter is Some && l.has_underlay ==> !no_clip(Some(l)),
{
}

/// Where a new layer goes: into the selected layer's own stack, above it.
pub fn add_at(layer: Option<&LayerInfo>) -> (at: (Option<LayerId>, Option<LayerId>))
    ensures
        at == match layer {
            Some(l) => (l.carrier, Some(l.id)),
            None => (None, None),
        },
{
    match layer {
        Some(l) => (l.carrier, Some(l.id)),
        None => (None, None),
    }
}

/// The edit that adds a paint layer.
pub fn add_layer(layer: Option<&LayerInfo>) -> (edit: DocCommand)
    ensures
        edit == (match layer {
            Some(l) => DocCommand::AddLayer { carrier: l.carrier, above: Some(l.id) },
            None => DocCommand::AddLayer { carrier: None, above: None },
        }),
{
    let (carrier, above) = add_at(layer);
    DocCommand::AddLayer { carrier, above }
}

/// What the opacity slider is called. A filter's opacity is its strength: it is half
/// applied, not half transparent.
pub fn opacity_label(l: &LayerInfo) -> (words: &'static str)
    ensures
        words@ == if l.is_group {
            "Opacity \u{2014} of the group"@
        } else if l.filter is Some {
            "Strength"@
        } else {
            "Opacity"@
        },
{
    if l.is_group {
        "Opacity \u{2014} of the group"
    } else if l.filter.is_some() {
        "Strength"
    } else {
        "Opacity"
    }
}

/// What the blend row is called.
pub fn blend_label(l: &LayerInfo) -> (words: &'static str)
    ensures
        words@ == if l.is_group {
            "Blend \u{2014} of the group"@
        } else {
            "Blend"@
        },
{
    if l.is_group {
        "Blend \u{2014} of the group"
    } else {
        "Blend"
    }
}

/// What the opacity slider fades, in one line.
pub fn opacity_hint(l: &LayerInfo) -> (words: &'static str)
    ensures
        words@ == if l.is_group {
            "Fades this layer and everything it carries, as one"@
        } else if l.filter is Some {
            "How much of the adjustment lands \u{2014} at 0 the filter is the identity"@
        } else if l.takes_paint() {
            "Opacity of the selected layer"@
        } else {
            "Frame opacity \u{2014} drag down to see through it while composing"@
        },
{
    if l.is_group {
        "Fades this layer and everything it carries, as one"
    } else if l.filter.is_some() {
        "How much of the adjustment lands \u{2014} at 0 the filter is the identity"
    } else if l.is_paintable() {
        "Opacity of the selected layer"
    } else {
        "Frame opacity \u{2014} drag down to see through it while composing"
    }
}

/// What clipping would do to *this* layer, in one line.
pub fn clip_hint(l: &LayerInfo) -> (words: &'static str)
    ensures
        words@ == if !l.has_backdrop {
            "Nothing composites under this layer, so clipping it would leave nothing to show."@
        } else if l.filter is Some {
            "Clip: keep this filter inside the paint it is filtering \u{2014} it may change the color that is there, never spread past its edge."@
        } else if l.is_group {
            "Clip: this group shows only where there is paint under the group."@
        } else if l.carrier is Some {
            "Clip: show only where there is paint under this layer *within its group* \u{2014} the whole stack below it, not just the one layer."@
        } else {
            "Clip: show only where there is paint under this layer. To clip to one layer alone, Carry it onto that layer first."@
        },
{
    if !l.has_backdrop {
        "Nothing composites under this layer, so clipping it would leave nothing to show."
    } else if l.filter.is_some() {
        "Clip: keep this filter inside the paint it is filtering \u{2014} it may change the color that is there, never spread past its edge."
    } else if l.is_group {
        "Clip: this group shows only where there is paint under the group."
    } else if l.carrier.is_some() {
        "Clip: show only where there is paint under this layer *within its group* \u{2014} the whole stack below it, not just the one layer."
    } else {
        "Clip: show only where there is paint under this layer. To clip to one layer alone, Carry it onto that layer first."
    }
}

/// What a blend mode does to *this* layer, in one line. The two cases where the control is
/// not saying what it usually says come first, because they are about this row rather than
/// about the mode.
pub fn blend_hint(mode: BlendMode, l: &LayerInfo) -> (words: &'static str)
    ensures
        words@ == if !l.has_backdrop {
            "Nothing composites under this layer, so every mode looks the same here."@
        } else if l.is_group && mode is Normal {
            "This group sits on top of what is below it."@
        } else if l.is_group {
            "How this group \u{2014} everything it carries, composited \u{2014} meets what is below it."@
        } else if mode is Normal {
            "The layer sits on top of what is below it."@
        } else if mode is Reinhard {
            "Combines light instead of covering it \u{2014} softer than Screen, and it cannot blow out however deep you stack it. For glazes, mist and rim light."@
        } else if mode is Drago {
            "Combines light on a log curve \u{2014} hotter, and where two lights coincide it pushes past white into the highlight roll-off. For flame and speculars."@
        } else {
            "Takes light away instead of adding it, the way stacked glazes do \u{2014} white leaves the layer below alone, black hides it. For shadows and tinting."@
        },
{
    if !l.has_backdrop {
        "Nothing composites under this layer, so every mode looks the same here."
    } else if l.is_group && matches!(mode, BlendMode::Normal) {
        "This group sits on top of what is below it."
    } else if l.is_group {
        "How this group \u{2014} everything it carries, composited \u{2014} meets what is below it."
    } else if matches!(mode, BlendMode::Normal) {
        "The layer sits on top of what is below it."
    } else if matches!(mode, BlendMode::Reinhard) {
        "Combines light instead of covering it \u{2014} softer than Screen, and it cannot blow out however deep you stack it. For glazes, mist and rim light."
    } else if matches!(mode, BlendMode::Drago { .. }) {
        "Combines light on a log curve \u{2014} hotter, and where two lights coincide it pushes past white into the highlight roll-off. For flame and speculars."
    } else {
        "Takes light away instead of adding it, the way stacked glazes do \u{2014} white leaves the layer below alone, black hides it. For shadows and tinting."
    }
}

/// The clip chip, lit where the layer is clipped.
pub fn clip_class(l: &LayerInfo) -> (words: &'static str)
    ensures
        words@ == if l.clip {
            "chip active"@
        } else {
            "chip"@
        },
{
    if l.clip {
        "chip active"
    } else {
        "chip"
    }
}

/// What the bend slider does, in one line.
pub fn bend_hint() -> (words: &'static str)
    ensures
        words@ == "How hard Radiance's curve bends. Left, coincident lights barely add and the brighter one simply wins; right, they add outright and reach the highlight roll-off sooner."@,
{
    "How hard Radiance's curve bends. Left, coincident lights barely add and the brighter one simply wins; right, they add outright and reach the highlight roll-off sooner."
}

/// The bend that the selected layer's mode has, where it has one: the slider for it is there
/// only while the mode is.
pub fn bend(l: &LayerInfo) -> (k: Option<Amount>)
    ensures
        k == match l.blend {
            BlendMode::Drago { k } => Some(k),
            _ => None,
        },
{
    match l.blend {
        BlendMode::Drago { k } => Some(k),
        _ => None,
    }
}

/// The mode that the picker's value names, by the labels of the modes on offer: the first
/// that matches.
pub fn picked_mode(offered: &Vec<(String, BlendMode)>, value: &str) -> (mode: Option<BlendMode>)
    ensures
        mode is None ==> forall|i: int| 0 <= i < offered@.len() ==> (#[trigger] offered@[i]).0@ != value@,
        mode matches Some(m) ==> exists|i: int|
            0 <= i < offered@.len() && (#[trigger] offered@[i]).0@ == value@ && offered@[i].1 == m
                && forall|k: int| 0 <= k < i ==> (#[trigger] offered@[k]).0@ != value@,
{
    let mut i: usize = 0;
    while i < offered.len()
        invariant
            i <= offered@.len(),
            forall|k: int| 0 <= k < i ==> (#[trigger] offered@[k]).0@ != value@,
        decreases offered@.len() - i,
    {
        if text::same(offered[i].0.as_str(), value) {
            assert(offered@[i as int].0@ == value@);
            return Some(offered[i].1);
        }
        i = i + 1;
    }
    None
}

/// The edit that the clip chip asks for.
pub fn toggle_clip(l: &LayerInfo) -> (edit: DocCommand)
    ensures
        edit == DocCommand::SetLayerClip(l.id, !l.clip),
{
    DocCommand::SetLayerClip(l.id, !l.clip)
}

// --- what a row says ---

/// What a layer is called: the name its author gave it, or what it *is* where that says
/// more than a number, or its number.
pub open spec fn called(l: LayerInfo) -> Seq<char> {
    if l.name is Some {
        l.name->0@
    } else if l.matte is Some && l.matte->0.rect is Some {
        "Frame"@
    } else if l.matte is Some {
        "Background"@
    } else if l.filter is Some {
        l.filter->0.label@
    } else {
        "Layer "@ + text::decimal(l.ordinal as nat)
    }
}

/// What to call a layer.
pub fn layer_label(l: &LayerInfo) -> (words: String)
    ensures
        words@ == called(*l),
{
    match &l.name {
        Some(name) => name.clone(),
        None => match &l.matte {
            Some(m) => if m.rect.is_some() {
                "Frame".to_owned()
            } else {
                "Background".to_owned()
            },
            None => match &l.filter {
                Some(f) => f.label.clone(),
                None => {
                    let mut words: String = "Layer ".to_owned();
                    words.append(text::decimal_string(l.ordinal as u128).as_str());
                    words
                },
            },
        },
    }
}

/// A row of the tree, with the moves it can make of itself.
#[derive(Clone, PartialEq, Eq, Debug)]
pub struct Row {
    pub info: LayerInfo,
    pub collapsed: bool,
    /// The layer below it in its own stack, which it could be put on.
    pub carry_onto: Option<LayerId>,
    /// The group it is in, and what carries that group, where it could be lifted out.
    pub release_to: Option<(LayerId, Option<LayerId>)>,
    /// Removing it would not empty the document.
    pub removable: bool,
}

/// What the row's kind adds to its class: the two kinds that are not paint wear their own
/// ground.
pub open spec fn kind_class(l: LayerInfo) -> Seq<char> {
    if l.matte is Some {
        " matte"@
    } else if l.filter is Some {
        " filter"@
    } else {
        ""@
    }
}

/// The class of a row.
pub fn row_class(l: &LayerInfo, active: bool, carrying: bool) -> (class: String)
    ensures
        class@ == "layer-row"@ + kind_class(*l) + (if active {
            " active"@
        } else {
            ""@
        }) + (if l.clip {
            " clipped"@
        } else {
            ""@
        }) + (if carrying {
            " carrying"@
        } else {
            ""@
        }),
{
    let mut class: String = "layer-row".to_owned();
    class.append(
        if l.matte.is_some() {
            " matte"
        } else if l.filter.is_some() {
            " filter"
        } else {
            ""
        },
    );
    class.append(
        if active {
            " active"
        } else {
            ""
        },
    );
    class.append(
        if l.clip {
            " clipped"
        } else {
            ""
        },
    );
    class.append(
        if carrying {
            " carrying"
        } else {
            ""
        },
    );
    class
}

/// The class of the element around a row, with what its place in a drag adds to it.
pub fn item_class(motion: Motion) -> (class: String)
    ensures
        class@ == "layer-item"@ + (if motion.lifted {
            " dragging"@
        } else {
            ""@
        }),
{
    let mut class: String = "layer-item".to_owned();
    class.append(motion.class());
    class
}

/// How far a row is indented, in pixels: one step for each group it is in.
pub fn indent(l: &LayerInfo, step: u32) -> (px: u64)
    ensures
        px == l.depth * step,
{
    assert(l.depth * step <= u32::MAX * u32::MAX) by (nonlinear_arith)
        requires
            l.depth <= u32::MAX,
            step <= u32::MAX,
    ;
    l.depth as u64 * step as u64
}

/// What selecting the row is for.
pub fn row_title(l: &LayerInfo) -> (words: &'static str)
    ensures
        words@ == if l.matte is Some {
            "Compose this frame \u{2014} double-click to rename"@
        } else if l.filter is Some {
            "Tune this filter \u{2014} it adjusts everything below it in its own stack. Double-click to rename"@
        } else {
            "Paint on this layer \u{2014} double-click to rename"@
        },
{
    if l.matte.is_some() {
        "Compose this frame \u{2014} double-click to rename"
    } else if l.filter.is_some() {
        "Tune this filter \u{2014} it adjusts everything below it in its own stack. Double-click to rename"
    } else {
        "Paint on this layer \u{2014} double-click to rename"
    }
}

/// What merging the row down does, and into which layer: the bottom member of a group folds
/// into the layer carrying it.
pub fn merge_title(l: &LayerInfo) -> (words: &'static str)
    ensures
        words@ == if l.filter is Some {
            "Bake this filter into the paint it is filtering \u{2014} the picture stays the same, and the row goes"@
        } else if l.merge_down is Some && l.merge_down == l.carrier {
            "Merge this layer into the one carrying it \u{2014} the picture stays the same"@
        } else {
            "Merge this layer down into the one below \u{2014} the picture stays the same"@
        },
{
    if l.filter.is_some() {
        "Bake this filter into the paint it is filtering \u{2014} the picture stays the same, and the row goes"
    } else if merges_into_carrier(l) {
        "Merge this layer into the one carrying it \u{2014} the picture stays the same"
    } else {
        "Merge this layer down into the one below \u{2014} the picture stays the same"
    }
}

fn merges_into_carrier(l: &LayerInfo) -> (yes: bool)
    ensures
        yes == (l.merge_down is Some && l.merge_down == l.carrier),
{
    match (l.merge_down, l.carrier) {
        (Some(down), Some(carrier)) => down == carrier,
        _ => false,
    }
}

/// The class of the name in a row.
pub fn name_class(l: &LayerInfo) -> (words: &'static str)
    ensures
        words@ == if l.matte is Some || l.filter is Some {
            "layer-name layer-name-kind"@
        } else {
            "layer-name"@
        },
{
    if l.matte.is_some() || l.filter.is_some() {
        "layer-name layer-name-kind"
    } else {
        "layer-name"
    }
}

/// What a group's triangle would do.
pub fn fold_title(collapsed: bool) -> (words: &'static str)
    ensures
        words@ == if collapsed {
            "Show what this layer carries"@
        } else {
            "Fold away what this layer carries"@
        },
{
    if collapsed {
        "Show what this layer carries"
    } else {
        "Fold away what this layer carries"
    }
}

/// What duplicating the row copies.
pub fn duplicate_title(is_group: bool) -> (words: &'static str)
    ensures
        words@ == if is_group {
            "Duplicate this layer, and everything it carries"@
        } else {
            "Duplicate this layer"@
        },
{
    if is_group {
        "Duplicate this layer, and everything it carries"
    } else {
        "Duplicate this layer"
    }
}

/// What removing the row removes.
pub fn remove_title(is_group: bool) -> (words: &'static str)
    ensures
        words@ == if is_group {
            "Remove this layer, and everything it carries"@
        } else {
            "Remove this layer"@
        },
{
    if is_group {
        "Remove this layer, and everything it carries"
    } else {
        "Remove this layer"
    }
}

/// The class of the row's eye.
pub fn eye_class(visible: bool) -> (words: &'static str)
    ensures
        words@ == if visible {
            "layer-eye"@
        } else {
            "layer-eye hidden"@
        },
{
    if visible {
        "layer-eye"
    } else {
        "layer-eye hidden"
    }
}

/// What the row's eye would do.
pub fn eye_title(is_group: bool, visible: bool) -> (words: &'static str)
    ensures
        words@ == if is_group && visible {
            "Hide this layer and what it carries"@
        } else if is_group {
            "Show this layer and what it carries"@
        } else if visible {
            "Hide this layer"@
        } else {
            "Show this layer"@
        },
{
    if is_group && visible {
        "Hide this layer and what it carries"
    } else if is_group {
        "Show this layer and what it carries"
    } else if visible {
        "Hide this layer"
    } else {
        "Show this layer"
    }
}

// --- what a row's controls ask for ---

/// A control drawn in a row.
#[derive(Clone, Copy, PartialEq, Eq, Structural, Debug)]
pub enum RowControl {
    /// Lift the layer out of its group.
    Release,
    /// Put the layer on the one below it.
    Carry,
    /// Fold the layer into the one beneath it.
    Merge,
    Duplicate,
    Remove,
    Eye,
}

/// The edit that a control of a row asks for, or none where the control is not there: a
/// layer in no group has no Release, one with nothing below it in its stack no Carry, one
/// whose merge would change the picture no Merge, and one whose removal would empty the
/// document no Remove.
pub open spec fn asked(row: Row, control: RowControl) -> Option<DocCommand> {
    let id = row.info.id;
    match control {
        RowControl::Release => match row.release_to {
            Some((group, outer)) => Some(
                DocCommand::MoveLayer { id, carrier: outer, at: Place::Above(group) },
            ),
            None => None,
        },
        RowControl::Carry => match row.carry_onto {
            Some(onto) => Some(
                DocCommand::MoveLayer { id, carrier: Some(onto), at: Place::Top },
            ),
            None => None,
        },
        RowControl::Merge => if row.info.merge_down is Some {
            Some(DocCommand::MergeLayerDown(id))
        } else {
            None
        },
        RowControl::Duplicate => Some(DocCommand::DuplicateLayer(id)),
        RowControl::Remove => if row.removable {
            Some(DocCommand::RemoveLayer(id))
        } else {
            None
        },
        RowControl::Eye => Some(DocCommand::SetLayerVisible(id, !row.info.visible)),
    }
}

/// The edit that a control of a row asks for, or none where the control is not there.
pub fn row_control(row: &Row, control: RowControl) -> (edit: Option<DocCommand>)
    ensures
        edit == asked(*row, control),
{
    let id: LayerId = row.info.id;
    match control {
        RowControl::Release => match row.release_to {
            Some((group, outer)) => Some(
                DocCommand::MoveLayer { id, carrier: outer, at: Place::Above(group) },
            ),
            None => None,
        },
        RowControl::Carry => match row.carry_onto {
            Some(onto) => Some(
                DocCommand::MoveLayer { id, carrier: Some(onto), at: Place::Top },
            ),
            None => None,
        },
        RowControl::Merge => if row.info.merge_down.is_some() {
            Some(DocCommand::MergeLayerDown(id))
        } else {
            None
        },
        RowControl::Duplicate => Some(DocCommand::DuplicateLayer(id)),
        RowControl::Remove => if row.removable {
            Some(DocCommand::RemoveLayer(id))
        } else {
            None
        },
        RowControl::Eye => Some(DocCommand::SetLayerVisible(id, !row.info.visible)),
    }
}

/// A click on a row's name selects its layer, unless it is the click that a drag left
/// behind, which names whichever row took the dragged one's place. The grab is done with
/// either way.
pub fn click(drag: &mut Option<Grab>, id: LayerId) -> (select: Option<LayerId>)
    ensures
        select == if *old(drag) matches Some(g) && g.stage() == Phase::Spent {
            None
        } else {
            Some(id)
        },
        *final(drag) is None,
{
    if crate::reorder::claimed(drag) {
        None
    } else {
        Some(id)
    }
}

/// Where a drop would put a layer: in some stack, at some place in it.
#[derive(Clone, Copy, PartialEq, Eq, Structural, Debug)]
pub struct Landing {
    pub carrier: Option<LayerId>,
    pub at: Place,
    /// It would end up where it came from.
    pub inert: bool,
}

/// What letting a row go comes to.
#[derive(Clone, PartialEq, Eq, Debug)]
pub struct Dropped {
    /// The layer that was in the hand, which is selected, drop or no drop.
    pub select: Option<LayerId>,
    pub edit: Option<DocCommand>,
}

/// A row was let go. A press that never travelled is a click, and the browser is about to
/// send one, so the grab is dropped and nothing is said. A drag is spent first, and selects
/// its layer; one that goes somewhere moves it, and opens the group it went into, so that a
/// layer dropped into a folded group does not vanish into it.
pub fn land(
    drag: &mut Option<Grab>,
    folds: &mut Folds,
    id: LayerId,
    landing: Option<Landing>,
) -> (dropped: Dropped)
    ensures
        !(*old(drag) matches Some(g) && g.stage() == Phase::Dragging) ==> {
            &&& *final(drag) is None
            &&& final(folds)@ == old(folds)@
            &&& dropped.select is None
            &&& dropped.edit is None
        },
        *old(drag) matches Some(g) ==> g.stage() == Phase::Dragging ==> {
            &&& *final(drag) is Some
            &&& final(drag)->0.stage() == Phase::Spent
            &&& final(drag)->0.same_press(&g)
            &&& dropped.select == Some(id)
            &&& match landing {
                Some(l) if !l.inert => {
                    &&& dropped.edit == Some(
                        DocCommand::MoveLayer { id, carrier: l.carrier, at: l.at },
                    )
                    &&& final(folds)@ == match l.carrier {
                        Some(c) => old(folds)@.remove(c),
                        None => old(folds)@,
                    }
                },
                _ => dropped.edit is None && final(folds)@ == old(folds)@,
            }
        },
{
    let live: bool = match drag {
        Some(d) => d.live(),
        None => false,
    };
    if !live {
        *drag = None;
        return Dropped { select: None, edit: None };
    }
    if let Some(d) = drag {
        d.spend();
    }
    match landing {
        Some(l) => if l.inert {
            Dropped { select: Some(id), edit: None }
        } else {
            if let Some(c) = l.carrier {
                folds.open(c);
            }
            Dropped {
                select: Some(id),
                edit: Some(DocCommand::MoveLayer { id, carrier: l.carrier, at: l.at }),
            }
        },
        None => Dropped { select: Some(id), edit: None },
    }
}

/// The row that would carry what is being dropped.
pub fn carries(landing: Option<Landing>, id: LayerId) -> (carries: bool)
    ensures
        carries == (landing matches Some(l) && l.carrier == Some(id)),
{
    match landing {
        Some(l) => match l.carrier {
            Some(c) => c == id,
            None => false,
        },
        None => false,
    }
}

/// The collaborators among the first `n` whose selected layer is `id`, by their places in
/// the list.
pub open spec fn working_on(peers: Seq<PeerInfo>, id: LayerId, n: nat) -> Seq<int>
    decreases n,
{
    if n == 0 {
        Seq::empty()
    } else if peers[n - 1].active_layer == id {
        working_on(peers, id, (n - 1) as nat).push(n - 1)
    } else {
        working_on(peers, id, (n - 1) as nat)
    }
}

/// The collaborators whose selected layer is `id`, in order, by their places in the list.
pub fn peers_on(peers: &Vec<PeerInfo>, id: LayerId) -> (on: Vec<usize>)
    ensures
        on@.map_values(|i: usize| i as int) == working_on(peers@, id, peers@.len()),
{
    let mut on: Vec<usize> = Vec::new();
    let mut i: usize = 0;
    assert(on@.map_values(|k: usize| k as int) =~= working_on(peers@, id, 0));
    while i < peers.len()
        invariant
            i <= peers@.len(),
            on@.map_values(|k: usize| k as int) == working_on(peers@, id, i as nat),
        decreases peers@.len() - i,
    {
        let ghost before = on@;
        if peers[i].active_layer == id {
            on.push(i);
            assert(on@.map_values(|k: usize| k as int) =~= before.map_values(
                |k: usize| k as int,
            ).push(i as int));
        }
        i = i + 1;
    }
    on
}

/// Every collaborator at work on a layer is listed for it, and none that is not.
pub proof fn law_a_peer_is_shown_where_it_works(peers: Seq<PeerInfo>, id: LayerId, n: nat, i: int)
    requires
        n <= peers.len(),
    ensures
        working_on(peers, id, n).contains(i) <==> 0 <= i < n && peers[i].active_layer == id,
    decreases n,
{
    if n > 0 {
        law_a_peer_is_shown_where_it_works(peers, id, (n - 1) as nat, i);
        let rest = working_on(peers, id, (n - 1) as nat);
        if peers[n - 1].active_layer == id {
            let all = rest.push(n - 1);
            if rest.contains(i) {
                let k = choose|k: int| 0 <= k < rest.len() && rest[k] == i;
                assert(all[k] == i);
            }
            if i == n - 1 {
                assert(all[rest.len() as int] == i);
            }
            if all.contains(i) && i != n - 1 {
                let k = choose|k: int| 0 <= k < all.len() && all[k] == i;
                assert(rest[k] == i);
            }
        }
    }
}

/// The edit that a row's field asks for as it closes: the name it held, if it held one.
pub fn renamed(id: LayerId, committed: Option<String>) -> (edit: Option<DocCommand>)
    ensures
        edit == match committed {
            Some(name) => Some(DocCommand::SetLayerName(id, name)),
            None => None,
        },
{
    match committed {
        Some(name) => Some(DocCommand::SetLayerName(id, name)),
        None => None,
    }
}

/// The blend picker is dead without a layer, on a filter, and with nothing composited under it.
/// The clip is dead without a layer, on a filter with nothing beneath it in its own stack, and on
/// any other with nothing composited under it. Elsewhere both are live.
pub proof fn law_a_control_is_dead_where_it_would_change_nothing(
    l: LayerInfo,
    blend: bool,
    clip: bool,
    no_blends: bool,
    no_clips: bool,
)
    requires
        call_ensures(blend_inert, (Some(&l),), blend),
        call_ensures(clip_inert, (Some(&l),), clip),
        call_ensures(blend_inert, (None::<&LayerInfo>,), no_blends),
        call_ensures(clip_inert, (None::<&LayerInfo>,), no_clips),
    ensures
        no_blends && no_clips,
        !blend <==> l.has_backdrop && l.filter is None,
        l.filter is Some ==> (clip <==> !l.has_underlay),
        l.filter is None ==> (clip <==> !l.has_backdrop),
{
}

/// A layer is called by its own name where it has one, whatever it is. Without one a matte is a
/// frame or a background by whether it has bounds, a filter is what it does, and any other is its
/// number.
pub proof fn law_a_layer_is_called_by_its_name_before_its_kind(l: LayerInfo, words: String)
    requires
        call_ensures(layer_label, (&l,), words),
    ensures
        l.name matches Some(name) ==> words@ == name@,
        l.name is None ==> (l.matte matches Some(m) ==> words@ == if m.rect is Some {
            "Frame"@
        } else {
            "Background"@
        }),
        l.name is None && l.matte is None ==> (l.filter matches Some(f) ==> words@ == f.label@),
        l.name is None && l.matte is None && l.filter is None ==> words@ == "Layer "@ + text::decimal(
            l.ordinal as nat,
        ),
{
}

/// A row wears the ground of what it is, and a matte's before a filter's.
pub proof fn law_a_row_wears_the_ground_of_its_kind(l: LayerInfo)
    ensures
        l.matte is Some ==> kind_class(l) == " matte"@,
        l.matte is None && l.filter is Some ==> kind_class(l) == " filter"@,
        l.matte is None && l.filter is None ==> kind_class(l) == ""@,
{
}

/// A control of a row acts on the layer of that row: Release puts it above the group it was in, in
/// whatever carries that, Carry puts it at the top of the one below it, and the eye shows what was
/// hidden and hides what was shown. A control whose move has nowhere to go asks for nothing.
pub proof fn law_a_control_acts_on_the_layer_of_its_row(
    row: Row,
    control: RowControl,
    edit: Option<DocCommand>,
)
    requires
        call_ensures(row_control, (&row, control), edit),
    ensures
        edit == asked(row, control),
        control is Release && row.release_to is None ==> edit is None,
        row.release_to matches Some((group, outer)) ==> (control is Release ==> edit == Some(
            DocCommand::MoveLayer { id: row.info.id, carrier: outer, at: Place::Above(group) },
        )),
        control is Carry && row.carry_onto is None ==> edit is None,
        control is Carry && row.carry_onto is Some ==> edit == Some(
            DocCommand::MoveLayer { id: row.info.id, carrier: row.carry_onto, at: Place::Top },
        ),
        control is Merge ==> edit == if row.info.merge_down is Some {
            Some(DocCommand::MergeLayerDown(row.info.id))
        } else {
            None
        },
        control is Duplicate ==> edit == Some(DocCommand::DuplicateLayer(row.info.id)),
        control is Remove ==> edit == if row.removable {
            Some(DocCommand::RemoveLayer(row.info.id))
        } else {
            None
        },
        control is Eye ==> edit == Some(
            DocCommand::SetLayerVisible(row.info.id, !row.info.visible),
        ),
{
}

/// Collaborators are shown in the order they are listed, none of them twice.
pub proof fn law_peers_are_shown_in_order(peers: Seq<PeerInfo>, id: LayerId, n: nat, i: int, j: int)
    requires
        n <= peers.len(),
        0 <= i < j < working_on(peers, id, n).len(),
    ensures
        0 <= working_on(peers, id, n)[i] < working_on(peers, id, n)[j] < n,
    decreases n,
{
    if n > 0 {
        let m = (n - 1) as nat;
        let rest = working_on(peers, id, m);
        if j < rest.len() {
            law_peers_are_shown_in_order(peers, id, m, i, j);
        } else {
            law_a_peer_is_shown_where_it_works(peers, id, m, rest[i]);
            assert(rest.contains(rest[i]));
        }
    }
}

} // verus!
