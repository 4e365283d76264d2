//! Showing an edit on the canvas before laying it down: the bargain every continuous control
//! makes, stated once.
//!
//! A value is judged by looking, so every value the pointer crosses has to reach the canvas,
//! and only the answer belongs in the log. So each control shows a value by a command that
//! logs nothing, and commits once, by an edit, when the gesture settles. The two are not two
//! decisions that a control makes but **one fact about the control**: the type of its value.
use crate::amount::Amount;
use crate::model::{
    BlendMode, ColorAdjust, DocCommand, FillOp, GuideId, LayerId, MattePaint, Rect, Srgb,
    TransformMap, ViewCommand,
};
use crate::panels::guides::Camera;
use vstd::prelude::*;

verus! {

/// A value that a control shows before laying it down, by the pair of commands that do so.
pub trait Paired: Sized + Copy {
    /// The command that shows a value, or with nothing in it drops what is shown.
    spec fn shown(value: Option<Self>) -> ViewCommand;

    /// The edit that lays a value down.
    spec fn laid(self) -> DocCommand;

    /// The value that a showing command of this pair carries.
    spec fn read_shown(command: ViewCommand) -> Option<Option<Self>>;

    /// The value that a laying edit of this pair carries.
    spec fn read_laid(edit: DocCommand) -> Option<Self>;

    /// Both halves carry the value that went into them.
    proof fn pair(value: Option<Self>)
        ensures
            Self::read_shown(Self::shown(value)) == Some(value),
            value matches Some(v) ==> Self::read_laid(v.laid()) == Some(v),
    ;

    fn to_show(value: Option<Self>) -> (command: ViewCommand)
        ensures
            command == Self::shown(value),
    ;

    fn to_lay(self) -> (edit: DocCommand)
        ensures
            edit == self.laid(),
    ;
}

/// One control's pair, and what it is showing: the value that a settle would lay.
///
/// The value is held rather than read back when it is committed, because what is read back
/// in the middle of a drag is the preview itself.
#[derive(Clone, Copy, PartialEq, Eq, Debug)]
pub struct Preview<T> {
    pub pending: Option<T>,
}

impl<T: Paired> Preview<T> {
    /// Nothing pending.
    pub fn new() -> (preview: Self)
        ensures
            preview.pending is None,
    {
        Preview { pending: None }
    }

    /// Show `value` on the canvas, logging nothing.
    pub fn show(&self, value: T) -> (command: ViewCommand)
        ensures
            command == T::shown(Some(value)),
    {
        T::to_show(Some(value))
    }

    /// Drop whatever is being shown, laying nothing. Deliberately not a commit of some
    /// neutral value, which would be an edit that says the artist chose it.
    pub fn clear(&self) -> (command: ViewCommand)
        ensures
            command == T::shown(None),
    {
        T::to_show(None)
    }

    /// Lay `value` down: one logged action, one undo step.
    pub fn commit(&self, value: T) -> (edit: DocCommand)
        ensures
            edit == value.laid(),
    {
        value.to_lay()
    }

    /// One sample of a drag: show `value`, and remember it as what a settle would lay. The
    /// two are one act, so the pending value **is** what the canvas is showing.
    pub fn during(&mut self, value: T) -> (command: ViewCommand)
        ensures
            final(self).pending == Some(value),
            command == T::shown(final(self).pending),
    {
        self.pending = Some(value);
        T::to_show(Some(value))
    }

    /// End a drag: lay down what has been shown, once, and disarm. **A no-op when nothing is
    /// pending**, which is what lets a control wire this to every event that can end a drag.
    pub fn settle(&mut self) -> (edit: Option<DocCommand>)
        ensures
            final(self).pending is None,
            edit == match old(self).pending {
                Some(value) => Some(value.laid()),
                None => None,
            },
    {
        match self.pending {
            Some(value) => {
                self.pending = None;
                Some(value.to_lay())
            },
            None => None,
        }
    }
}

/// What leaving a composing mode by "Done" comes to.
#[derive(Clone, PartialEq, Eq, Debug)]
pub enum Finish {
    /// The mode was not in hand.
    Nothing,
    /// Nothing was composed: the preview is dropped rather than an undo step spent.
    Clear(ViewCommand),
    /// One undo step. It drops the preview itself.
    Commit(DocCommand),
}

/// A pair shows and lays the same value, for every control: what the showing command carries
/// and what the laying edit carries are the value that went into both.
pub proof fn law_a_pair_shows_and_lays_the_same_value<T: Paired>(value: T)
    ensures
        T::read_shown(T::shown(Some(value))) == Some(T::read_laid(value.laid())),
        T::read_laid(value.laid()) == Some(value),
{
    T::pair(Some(value));
}

/// Clearing is the showing command with nothing in it.
pub proof fn law_clearing_is_the_showing_command_with_nothing_in_it<T: Paired>()
    ensures
        T::read_shown(T::shown(None)) == Some(None::<T>),
{
    T::pair(None);
}

/// The selection's overall strength: the selection bar's slider. Its preview shows nothing on
/// the canvas, and it is still a pair: a drag that logged every value it crossed would spend
/// an undo step on each.
#[derive(Clone, Copy, PartialEq, Eq, Debug)]
pub struct SelectionOpacity {
    pub opacity: Amount,
}

impl Paired for SelectionOpacity {
    open spec fn shown(value: Option<Self>) -> ViewCommand {
        ViewCommand::PreviewSelectionOpacity(
            match value {
                Some(v) => Some(v.opacity),
                None => None,
            },
        )
    }

    open spec fn laid(self) -> DocCommand {
        DocCommand::SetSelectionOpacity(self.opacity)
    }

    open spec fn read_shown(command: ViewCommand) -> Option<Option<Self>> {
        match command {
            ViewCommand::PreviewSelectionOpacity(Some(opacity)) => Some(Some(SelectionOpacity { opacity })),
            ViewCommand::PreviewSelectionOpacity(None) => Some(None),
            _ => None,
        }
    }

    open spec fn read_laid(edit: DocCommand) -> Option<Self> {
        match edit {
            DocCommand::SetSelectionOpacity(opacity) => Some(SelectionOpacity { opacity }),
            _ => None,
        }
    }

    proof fn pair(value: Option<Self>) {
    }

    fn to_show(value: Option<Self>) -> (command: ViewCommand) {
        ViewCommand::PreviewSelectionOpacity(
            match value {
                Some(v) => Some(v.opacity),
                None => None,
            },
        )
    }

    fn to_lay(self) -> (edit: DocCommand) {
        DocCommand::SetSelectionOpacity(self.opacity)
    }
}

/// A layer's opacity: the Layers panel's slider.
#[derive(Clone, Copy, PartialEq, Eq, Debug)]
pub struct LayerOpacity {
    pub layer: LayerId,
    pub opacity: Amount,
}

impl Paired for LayerOpacity {
    open spec fn shown(value: Option<Self>) -> ViewCommand {
        ViewCommand::PreviewLayerOpacity(
            match value {
                Some(v) => Some((v.layer, v.opacity)),
                None => None,
            },
        )
    }

    open spec fn laid(self) -> DocCommand {
        DocCommand::SetLayerOpacity(self.layer, self.opacity)
    }

    open spec fn read_shown(command: ViewCommand) -> Option<Option<Self>> {
        match command {
            ViewCommand::PreviewLayerOpacity(Some((layer, opacity))) => Some(Some(LayerOpacity { layer, opacity })),
            ViewCommand::PreviewLayerOpacity(None) => Some(None),
            _ => None,
        }
    }

    open spec fn read_laid(edit: DocCommand) -> Option<Self> {
        match edit {
            DocCommand::SetLayerOpacity(layer, opacity) => Some(LayerOpacity { layer, opacity }),
            _ => None,
        }
    }

    proof fn pair(value: Option<Self>) {
    }

    fn to_show(value: Option<Self>) -> (command: ViewCommand) {
        ViewCommand::PreviewLayerOpacity(
            match value {
                Some(v) => Some((v.layer, v.opacity)),
                None => None,
            },
        )
    }

    fn to_lay(self) -> (edit: DocCommand) {
        DocCommand::SetLayerOpacity(self.layer, self.opacity)
    }
}

/// A layer's blend mode: the bend slider, which drags a parameter *of* the mode and so carries
/// the whole mode.
#[derive(Clone, Copy, PartialEq, Eq, Debug)]
pub struct LayerBlend {
    pub layer: LayerId,
    pub mode: BlendMode,
}

impl Paired for LayerBlend {
    open spec fn shown(value: Option<Self>) -> ViewCommand {
        ViewCommand::PreviewLayerBlend(
            match value {
                Some(v) => Some((v.layer, v.mode)),
                None => None,
            },
        )
    }

    open spec fn laid(self) -> DocCommand {
        DocCommand::SetLayerBlend(self.layer, self.mode)
    }

    open spec fn read_shown(command: ViewCommand) -> Option<Option<Self>> {
        match command {
            ViewCommand::PreviewLayerBlend(Some((layer, mode))) => Some(Some(LayerBlend { layer, mode })),
            ViewCommand::PreviewLayerBlend(None) => Some(None),
            _ => None,
        }
    }

    open spec fn read_laid(edit: DocCommand) -> Option<Self> {
        match edit {
            DocCommand::SetLayerBlend(layer, mode) => Some(LayerBlend { layer, mode }),
            _ => None,
        }
    }

    proof fn pair(value: Option<Self>) {
    }

    fn to_show(value: Option<Self>) -> (command: ViewCommand) {
        ViewCommand::PreviewLayerBlend(
            match value {
                Some(v) => Some((v.layer, v.mode)),
                None => None,
            },
        )
    }

    fn to_lay(self) -> (edit: DocCommand) {
        DocCommand::SetLayerBlend(self.layer, self.mode)
    }
}

/// A filter layer's settings: every knob on the filter bar.
#[derive(Clone, Copy, PartialEq, Eq, Debug)]
pub struct FilterTuning {
    pub layer: LayerId,
    pub adjust: ColorAdjust,
}

impl Paired for FilterTuning {
    open spec fn shown(value: Option<Self>) -> ViewCommand {
        ViewCommand::PreviewFilter(
            match value {
                Some(v) => Some((v.layer, v.adjust)),
                None => None,
            },
        )
    }

    open spec fn laid(self) -> DocCommand {
        DocCommand::SetFilter(self.layer, self.adjust)
    }

    open spec fn read_shown(command: ViewCommand) -> Option<Option<Self>> {
        match command {
            ViewCommand::PreviewFilter(Some((layer, adjust))) => Some(Some(FilterTuning { layer, adjust })),
            ViewCommand::PreviewFilter(None) => Some(None),
            _ => None,
        }
    }

    open spec fn read_laid(edit: DocCommand) -> Option<Self> {
        match edit {
            DocCommand::SetFilter(layer, adjust) => Some(FilterTuning { layer, adjust }),
            _ => None,
        }
    }

    proof fn pair(value: Option<Self>) {
    }

    fn to_show(value: Option<Self>) -> (command: ViewCommand) {
        ViewCommand::PreviewFilter(
            match value {
                Some(v) => Some((v.layer, v.adjust)),
                None => None,
            },
        )
    }

    fn to_lay(self) -> (edit: DocCommand) {
        DocCommand::SetFilter(self.layer, self.adjust)
    }
}

/// A frame's rectangle: the drag of a handle on the canvas.
#[derive(Clone, Copy, PartialEq, Eq, Debug)]
pub struct MatteFrame {
    pub layer: LayerId,
    pub rect: Rect,
}

impl Paired for MatteFrame {
    open spec fn shown(value: Option<Self>) -> ViewCommand {
        ViewCommand::PreviewMatteRect(
            match value {
                Some(v) => Some((v.layer, v.rect)),
                None => None,
            },
        )
    }

    open spec fn laid(self) -> DocCommand {
        DocCommand::SetMatteRect(self.layer, self.rect)
    }

    open spec fn read_shown(command: ViewCommand) -> Option<Option<Self>> {
        match command {
            ViewCommand::PreviewMatteRect(Some((layer, rect))) => Some(Some(MatteFrame { layer, rect })),
            ViewCommand::PreviewMatteRect(None) => Some(None),
            _ => None,
        }
    }

    open spec fn read_laid(edit: DocCommand) -> Option<Self> {
        match edit {
            DocCommand::SetMatteRect(layer, rect) => Some(MatteFrame { layer, rect }),
            _ => None,
        }
    }

    proof fn pair(value: Option<Self>) {
    }

    fn to_show(value: Option<Self>) -> (command: ViewCommand) {
        ViewCommand::PreviewMatteRect(
            match value {
                Some(v) => Some((v.layer, v.rect)),
                None => None,
            },
        )
    }

    fn to_lay(self) -> (edit: DocCommand) {
        DocCommand::SetMatteRect(self.layer, self.rect)
    }
}

/// A matte's paint: the frame bar's colour pop-out, and the gradient bar aimed at a matte.
#[derive(Clone, Copy, PartialEq, Eq, Debug)]
pub struct MatteFinish {
    pub layer: LayerId,
    pub paint: MattePaint,
}

impl Paired for MatteFinish {
    open spec fn shown(value: Option<Self>) -> ViewCommand {
        ViewCommand::PreviewMattePaint(
            match value {
                Some(v) => Some((v.layer, v.paint)),
                None => None,
            },
        )
    }

    open spec fn laid(self) -> DocCommand {
        DocCommand::SetMattePaint(self.layer, self.paint)
    }

    open spec fn read_shown(command: ViewCommand) -> Option<Option<Self>> {
        match command {
            ViewCommand::PreviewMattePaint(Some((layer, paint))) => Some(Some(MatteFinish { layer, paint })),
            ViewCommand::PreviewMattePaint(None) => Some(None),
            _ => None,
        }
    }

    open spec fn read_laid(edit: DocCommand) -> Option<Self> {
        match edit {
            DocCommand::SetMattePaint(layer, paint) => Some(MatteFinish { layer, paint }),
            _ => None,
        }
    }

    proof fn pair(value: Option<Self>) {
    }

    fn to_show(value: Option<Self>) -> (command: ViewCommand) {
        ViewCommand::PreviewMattePaint(
            match value {
                Some(v) => Some((v.layer, v.paint)),
                None => None,
            },
        )
    }

    fn to_lay(self) -> (edit: DocCommand) {
        DocCommand::SetMattePaint(self.layer, self.paint)
    }
}

/// The colour of the canvas.
#[derive(Clone, Copy, PartialEq, Eq, Debug)]
pub struct Background {
    pub color: Srgb,
}

impl Paired for Background {
    open spec fn shown(value: Option<Self>) -> ViewCommand {
        ViewCommand::PreviewSubstrateColor(
            match value {
                Some(v) => Some(v.color),
                None => None,
            },
        )
    }

    open spec fn laid(self) -> DocCommand {
        DocCommand::SetSubstrateColor(self.color)
    }

    open spec fn read_shown(command: ViewCommand) -> Option<Option<Self>> {
        match command {
            ViewCommand::PreviewSubstrateColor(Some(color)) => Some(Some(Background { color })),
            ViewCommand::PreviewSubstrateColor(None) => Some(None),
            _ => None,
        }
    }

    open spec fn read_laid(edit: DocCommand) -> Option<Self> {
        match edit {
            DocCommand::SetSubstrateColor(color) => Some(Background { color }),
            _ => None,
        }
    }

    proof fn pair(value: Option<Self>) {
    }

    fn to_show(value: Option<Self>) -> (command: ViewCommand) {
        ViewCommand::PreviewSubstrateColor(
            match value {
                Some(v) => Some(v.color),
                None => None,
            },
        )
    }

    fn to_lay(self) -> (edit: DocCommand) {
        DocCommand::SetSubstrateColor(self.color)
    }
}

/// How large the canvas substrate is laid.
#[derive(Clone, Copy, PartialEq, Eq, Debug)]
pub struct SubstrateScale {
    pub percent: u32,
}

impl Paired for SubstrateScale {
    open spec fn shown(value: Option<Self>) -> ViewCommand {
        ViewCommand::PreviewSubstrateScale(
            match value {
                Some(v) => Some(v.percent),
                None => None,
            },
        )
    }

    open spec fn laid(self) -> DocCommand {
        DocCommand::SetSubstrateScale(self.percent)
    }

    open spec fn read_shown(command: ViewCommand) -> Option<Option<Self>> {
        match command {
            ViewCommand::PreviewSubstrateScale(Some(percent)) => Some(Some(SubstrateScale { percent })),
            ViewCommand::PreviewSubstrateScale(None) => Some(None),
            _ => None,
        }
    }

    open spec fn read_laid(edit: DocCommand) -> Option<Self> {
        match edit {
            DocCommand::SetSubstrateScale(percent) => Some(SubstrateScale { percent }),
            _ => None,
        }
    }

    proof fn pair(value: Option<Self>) {
    }

    fn to_show(value: Option<Self>) -> (command: ViewCommand) {
        ViewCommand::PreviewSubstrateScale(
            match value {
                Some(v) => Some(v.percent),
                None => None,
            },
        )
    }

    fn to_lay(self) -> (edit: DocCommand) {
        DocCommand::SetSubstrateScale(self.percent)
    }
}

/// A gradient fill of the selection: the gradient bar's composing axis.
#[derive(Clone, Copy, PartialEq, Eq, Debug)]
pub struct SelectionFill {
    pub layer: LayerId,
    pub op: FillOp,
}

impl Paired for SelectionFill {
    open spec fn shown(value: Option<Self>) -> ViewCommand {
        ViewCommand::PreviewFill(
            match value {
                Some(v) => Some((v.layer, v.op)),
                None => None,
            },
        )
    }

    open spec fn laid(self) -> DocCommand {
        DocCommand::Fill(self.layer, self.op)
    }

    open spec fn read_shown(command: ViewCommand) -> Option<Option<Self>> {
        match command {
            ViewCommand::PreviewFill(Some((layer, op))) => Some(Some(SelectionFill { layer, op })),
            ViewCommand::PreviewFill(None) => Some(None),
            _ => None,
        }
    }

    open spec fn read_laid(edit: DocCommand) -> Option<Self> {
        match edit {
            DocCommand::Fill(layer, op) => Some(SelectionFill { layer, op }),
            _ => None,
        }
    }

    proof fn pair(value: Option<Self>) {
    }

    fn to_show(value: Option<Self>) -> (command: ViewCommand) {
        ViewCommand::PreviewFill(
            match value {
                Some(v) => Some((v.layer, v.op)),
                None => None,
            },
        )
    }

    fn to_lay(self) -> (edit: DocCommand) {
        DocCommand::Fill(self.layer, self.op)
    }
}

/// A drawing guide's camera: every control on its bar, and every drag while one is being
/// shaped. The whole camera travels.
#[derive(Clone, Copy, PartialEq, Eq, Debug)]
pub struct GuideCamera {
    pub guide: GuideId,
    pub camera: Camera,
}

impl Paired for GuideCamera {
    open spec fn shown(value: Option<Self>) -> ViewCommand {
        ViewCommand::PreviewGuide(
            match value {
                Some(v) => Some((v.guide, v.camera)),
                None => None,
            },
        )
    }

    open spec fn laid(self) -> DocCommand {
        DocCommand::SetGuide(self.guide, self.camera)
    }

    open spec fn read_shown(command: ViewCommand) -> Option<Option<Self>> {
        match command {
            ViewCommand::PreviewGuide(Some((guide, camera))) => Some(Some(GuideCamera { guide, camera })),
            ViewCommand::PreviewGuide(None) => Some(None),
            _ => None,
        }
    }

    open spec fn read_laid(edit: DocCommand) -> Option<Self> {
        match edit {
            DocCommand::SetGuide(guide, camera) => Some(GuideCamera { guide, camera }),
            _ => None,
        }
    }

    proof fn pair(value: Option<Self>) {
    }

    fn to_show(value: Option<Self>) -> (command: ViewCommand) {
        ViewCommand::PreviewGuide(
            match value {
                Some(v) => Some((v.guide, v.camera)),
                None => None,
            },
        )
    }

    fn to_lay(self) -> (edit: DocCommand) {
        DocCommand::SetGuide(self.guide, self.camera)
    }
}

/// The transform gesture: the widget's whole composition.
#[derive(Clone, Copy, PartialEq, Eq, Debug)]
pub struct Deformation {
    pub layer: LayerId,
    pub map: TransformMap,
}

impl Paired for Deformation {
    open spec fn shown(value: Option<Self>) -> ViewCommand {
        ViewCommand::PreviewTransform(
            match value {
                Some(v) => Some((v.layer, v.map)),
                None => None,
            },
        )
    }

    open spec fn laid(self) -> DocCommand {
        DocCommand::Transform(self.layer, self.map)
    }

    open spec fn read_shown(command: ViewCommand) -> Option<Option<Self>> {
        match command {
            ViewCommand::PreviewTransform(Some((layer, map))) => Some(Some(Deformation { layer, map })),
            ViewCommand::PreviewTransform(None) => Some(None),
            _ => None,
        }
    }

    open spec fn read_laid(edit: DocCommand) -> Option<Self> {
        match edit {
            DocCommand::Transform(layer, map) => Some(Deformation { layer, map }),
            _ => None,
        }
    }

    proof fn pair(value: Option<Self>) {
    }

    fn to_show(value: Option<Self>) -> (command: ViewCommand) {
        ViewCommand::PreviewTransform(
            match value {
                Some(v) => Some((v.layer, v.map)),
                None => None,
            },
        )
    }

    fn to_lay(self) -> (edit: DocCommand) {
        DocCommand::Transform(self.layer, self.map)
    }
}

/// Each control shows and lays by its own two commands, with all of its value in them.
pub proof fn law_each_control_has_its_own_pair(
    a: SelectionOpacity,
    b: LayerOpacity,
    c: LayerBlend,
    d: FilterTuning,
    e: MatteFrame,
    f: MatteFinish,
    g: Background,
    h: SubstrateScale,
    i: SelectionFill,
    j: GuideCamera,
    k: Deformation,
)
    ensures
        SelectionOpacity::shown(Some(a)) == ViewCommand::PreviewSelectionOpacity(Some(a.opacity)),
        SelectionOpacity::shown(None) == ViewCommand::PreviewSelectionOpacity(None),
        a.laid() == DocCommand::SetSelectionOpacity(a.opacity),
        LayerOpacity::shown(Some(b)) == ViewCommand::PreviewLayerOpacity(Some((b.layer, b.opacity))),
        LayerOpacity::shown(None) == ViewCommand::PreviewLayerOpacity(None),
        b.laid() == DocCommand::SetLayerOpacity(b.layer, b.opacity),
        LayerBlend::shown(Some(c)) == ViewCommand::PreviewLayerBlend(Some((c.layer, c.mode))),
        LayerBlend::shown(None) == ViewCommand::PreviewLayerBlend(None),
        c.laid() == DocCommand::SetLayerBlend(c.layer, c.mode),
        FilterTuning::shown(Some(d)) == ViewCommand::PreviewFilter(Some((d.layer, d.adjust))),
        FilterTuning::shown(None) == ViewCommand::PreviewFilter(None),
        d.laid() == DocCommand::SetFilter(d.layer, d.adjust),
        MatteFrame::shown(Some(e)) == ViewCommand::PreviewMatteRect(Some((e.layer, e.rect))),
        MatteFrame::shown(None) == ViewCommand::PreviewMatteRect(None),
        e.laid() == DocCommand::SetMatteRect(e.layer, e.rect),
        MatteFinish::shown(Some(f)) == ViewCommand::PreviewMattePaint(Some((f.layer, f.paint))),
        MatteFinish::shown(None) == ViewCommand::PreviewMattePaint(None),
        f.laid() == DocCommand::SetMattePaint(f.layer, f.paint),
        Background::shown(Some(g)) == ViewCommand::PreviewSubstrateColor(Some(g.color)),
        Background::shown(None) == ViewCommand::PreviewSubstrateColor(None),
        g.laid() == DocCommand::SetSubstrateColor(g.color),
        SubstrateScale::shown(Some(h)) == ViewCommand::PreviewSubstrateScale(Some(h.percent)),
        SubstrateScale::shown(None) == ViewCommand::PreviewSubstrateScale(None),
        h.laid() == DocCommand::SetSubstrateScale(h.percent),
        SelectionFill::shown(Some(i)) == ViewCommand::PreviewFill(Some((i.layer, i.op))),
        SelectionFill::shown(None) == ViewCommand::PreviewFill(None),
        i.laid() == DocCommand::Fill(i.layer, i.op),
        GuideCamera::shown(Some(j)) == ViewCommand::PreviewGuide(Some((j.guide, j.camera))),
        GuideCamera::shown(None) == ViewCommand::PreviewGuide(None),
        j.laid() == DocCommand::SetGuide(j.guide, j.camera),
        Deformation::shown(Some(k)) == ViewCommand::PreviewTransform(Some((k.layer, k.map))),
        Deformation::shown(None) == ViewCommand::PreviewTransform(None),
        k.laid() == DocCommand::Transform(k.layer, k.map),
{
}

} // verus!
