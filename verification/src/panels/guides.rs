//! Drawing guides: the roster that keeps the list, the edit mode that shapes one guide, and
//! the bar that serves the mode.
//!
//! A guide list is flat and its rows are addressed by position, so every index in flight is
//! a claim about a list that may have changed underneath it. The edit mode holds one, and
//! every change of the list carries it along.
use crate::amount::Amount;
use crate::reorder;
use crate::reorder::{Grab, Motion, Phase, Slide};
use crate::text;
use vstd::prelude::*;

verus! {

/// The projection a guide is drawn through.
#[derive(Clone, Copy, PartialEq, Eq, Structural, Debug)]
pub enum Lens {
    Rectilinear,
    Fisheye,
}

/// One flag for each of the three axes, or for each of the three planes.
#[derive(Clone, Copy, PartialEq, Eq, Structural, Debug)]
pub struct Three {
    pub first: bool,
    pub second: bool,
    pub third: bool,
}

impl Three {
    pub open spec fn at(self, i: int) -> bool {
        if i == 0 {
            self.first
        } else if i == 1 {
            self.second
        } else {
            self.third
        }
    }

    pub open spec fn with(self, i: int, value: bool) -> Three {
        if i == 0 {
            Three { first: value, ..self }
        } else if i == 1 {
            Three { second: value, ..self }
        } else {
            Three { third: value, ..self }
        }
    }

    pub fn get(self, i: usize) -> (value: bool)
        requires
            i < 3,
        ensures
            value == self.at(i as int),
    {
        if i == 0 {
            self.first
        } else if i == 1 {
            self.second
        } else {
            self.third
        }
    }

    pub fn set(self, i: usize, value: bool) -> (three: Three)
        requires
            i < 3,
        ensures
            three == self.with(i as int, value),
    {
        if i == 0 {
            Three { first: value, ..self }
        } else if i == 1 {
            Three { second: value, ..self }
        } else {
            Three { third: value, ..self }
        }
    }
}

/// Where a guide's camera stands, as the bits of the numbers that say so: nothing here
/// computes with them.
#[derive(Clone, Copy, PartialEq, Eq, Structural, Debug)]
pub struct Pose {
    pub center_x: u32,
    pub center_y: u32,
    pub focal: u32,
    pub turn_x: u32,
    pub turn_y: u32,
    pub turn_z: u32,
    pub turn_w: u32,
}

/// A part of where a camera stands: what one drag sets.
#[derive(Clone, Copy, PartialEq, Eq, Structural, Debug)]
pub enum PosePart {
    Center { x: u32, y: u32 },
    Focal(u32),
    Turn { x: u32, y: u32, z: u32, w: u32 },
}

impl PosePart {
    /// The stand with this part replaced, and every other left alone.
    pub open spec fn into(self, pose: Pose) -> Pose {
        match self {
            PosePart::Center { x, y } => Pose { center_x: x, center_y: y, ..pose },
            PosePart::Focal(focal) => Pose { focal, ..pose },
            PosePart::Turn { x, y, z, w } => Pose {
                turn_x: x,
                turn_y: y,
                turn_z: z,
                turn_w: w,
                ..pose
            },
        }
    }

    fn set(self, pose: Pose) -> (next: Pose)
        ensures
            next == self.into(pose),
    {
        match self {
            PosePart::Center { x, y } => Pose { center_x: x, center_y: y, ..pose },
            PosePart::Focal(focal) => Pose { focal, ..pose },
            PosePart::Turn { x, y, z, w } => Pose {
                turn_x: x,
                turn_y: y,
                turn_z: z,
                turn_w: w,
                ..pose
            },
        }
    }
}

/// Everything about a guide but what it is called and whether it shows.
#[derive(Clone, Copy, PartialEq, Eq, Structural, Debug)]
pub struct Camera {
    pub pose: Pose,
    pub lens: Lens,
    /// Which of the planes XY, YZ and ZX are drawn.
    pub pairs: Three,
    /// How fine the grid is, in halvings of the default cell.
    pub cells: i32,
    pub opacity: Amount,
}

/// A perspective guide.
#[derive(Clone, PartialEq, Eq, Debug)]
pub struct Guide {
    pub name: Option<String>,
    pub visible: bool,
    pub camera: Camera,
}

impl Guide {
    /// The same guide again.
    pub fn copied(&self) -> (guide: Guide)
        ensures
            guide == *self,
    {
        Guide {
            name: match &self.name {
                Some(n) => Some(n.clone()),
                None => None,
            },
            visible: self.visible,
            camera: self.camera,
        }
    }
}

/// Which guide is being shaped, and which world axes the hand holds fixed while it is.
#[derive(Clone, Copy, PartialEq, Eq, Structural, Debug)]
pub struct GuideEdit {
    pub index: usize,
    pub locked: Three,
}

/// The list of guides, and the edit mode over it.
#[derive(Clone, PartialEq, Eq, Debug)]
pub struct Roster {
    pub guides: Vec<Guide>,
    pub edit: Option<GuideEdit>,
}

/// Where the guide at `i` ends up once the one at `from` has been taken out and put back at
/// `to`.
pub open spec fn sent(i: int, from: int, to: int) -> int {
    if i == from {
        to
    } else {
        let out = if i > from {
            i - 1
        } else {
            i
        };
        if out >= to {
            out + 1
        } else {
            out
        }
    }
}

/// The list with the guide at `from` taken out and put back at `to`.
pub open spec fn reordered<T>(list: Seq<T>, from: int, to: int) -> Seq<T> {
    list.remove(from).insert(to, list[from])
}

/// The index remap agrees with the move it describes, for every position: what stood at `i`
/// is found where `sent` says.
pub proof fn law_the_index_remap_agrees_with_the_move<T>(list: Seq<T>, from: int, to: int, i: int)
    requires
        0 <= from < list.len(),
        0 <= to < list.len(),
        0 <= i < list.len(),
    ensures
        reordered(list, from, to).len() == list.len(),
        0 <= sent(i, from, to) < list.len(),
        reordered(list, from, to)[sent(i, from, to)] == list[i],
{
}

/// A row lands where it was dropped: the place that the drag's arithmetic lands each row at
/// is the place that the move puts it.
pub proof fn law_a_row_lands_where_it_was_dropped(slide: Slide, from: usize, i: int)
    requires
        slide.block == (from, from),
        0 <= i,
    ensures
        slide.lands(i) == sent(i, from as int, slide.gap as int),
{
}

/// Where the guide at `i` ends up once the one at `from` has been taken out and put back at
/// `to`: the two steps, in that order.
pub fn moved(i: usize, from: usize, to: usize) -> (at: usize)
    ensures
        at == sent(i as int, from as int, to as int),
{
    if i == from {
        return to;
    }
    let out: usize = if i > from {
        i - 1
    } else {
        i
    };
    if out >= to {
        out + 1
    } else {
        out
    }
}

/// No axis held.
pub open spec fn unlocked() -> Three {
    Three { first: false, second: false, third: false }
}

impl Roster {
    /// The edit mode, where it is on, points at a guide of the list.
    pub open spec fn wf(self) -> bool {
        self.edit matches Some(e) ==> e.index < self.guides@.len()
    }

    /// Enter the edit mode on guide `index`, with fresh locks: a lock is a constraint on
    /// the hand for one sitting, not a fact about the guide.
    pub fn begin_guide_edit(&mut self, index: usize)
        ensures
            final(self).guides@ == old(self).guides@,
            final(self).edit == Some(GuideEdit { index, locked: unlocked() }),
    {
        self.edit =
        Some(
            GuideEdit { index, locked: Three { first: false, second: false, third: false } },
        );
    }

    /// A click on a row's name picks its guide up to shape it, unless it is the click that a
    /// drag left behind, which names whichever guide took the dragged one's place. The grab is
    /// done with either way.
    pub fn click(&mut self, drag: &mut Option<Grab>, index: usize)
        ensures
            final(self).guides@ == old(self).guides@,
            final(self).edit == if *old(drag) matches Some(g) && g.stage() == Phase::Spent {
                old(self).edit
            } else {
                Some(GuideEdit { index, locked: unlocked() })
            },
            *final(drag) is None,
    {
        if !reorder::claimed(drag) {
            self.begin_guide_edit(index);
        }
    }

    /// Leave the edit mode.
    pub fn end_guide_edit(&mut self)
        ensures
            final(self).guides@ == old(self).guides@,
            final(self).edit is None,
    {
        self.edit = None;
    }

    /// Add a guide, and pick it up: adding *is* asking to shape it, so the mode opens on
    /// the new row.
    pub fn add_perspective(&mut self, fresh: Guide)
        ensures
            final(self).guides@ == old(self).guides@.push(fresh),
            final(self).edit == Some(
                GuideEdit { index: old(self).guides@.len() as usize, locked: unlocked() },
            ),
            final(self).wf(),
    {
        let index: usize = self.guides.len();
        self.guides.push(fresh);
        self.begin_guide_edit(index);
    }

    /// Copy a guide into the row directly below the one it was copied from, and pick the
    /// copy up. The copy carries the source's name as it stands.
    pub fn duplicate_guide(&mut self, index: usize)
        ensures
            index >= old(self).guides@.len() ==> *final(self) == *old(self),
            index < old(self).guides@.len() ==> {
                &&& final(self).guides@ == old(self).guides@.insert(
                    index + 1,
                    old(self).guides@[index as int],
                )
                &&& final(self).edit == Some(
                    GuideEdit { index: (index + 1) as usize, locked: unlocked() },
                )
                &&& final(self).wf()
            },
    {
        if index >= self.guides.len() {
            return;
        }
        let copy: Guide = self.guides[index].copied();
        self.guides.insert(index + 1, copy);
        self.begin_guide_edit(index + 1);
    }

    /// Move the guide at `from` so that it sits at index `to`, and keep the edit mode
    /// pointed at the **guide** it was pointed at rather than at the index.
    pub fn move_guide(&mut self, from: usize, to: usize)
        ensures
            from >= old(self).guides@.len() || to >= old(self).guides@.len() ==> *final(self)
                == *old(self),
            from < old(self).guides@.len() && to < old(self).guides@.len() ==> {
                &&& final(self).guides@ == reordered(old(self).guides@, from as int, to as int)
                &&& final(self).edit == match old(self).edit {
                    Some(e) => Some(
                        GuideEdit {
                            index: sent(e.index as int, from as int, to as int) as usize,
                            ..e
                        },
                    ),
                    None => None,
                }
            },
            old(self).wf() ==> final(self).wf(),
            old(self).wf() ==> (old(self).edit matches Some(e) ==> final(
                self).guides@[final(self).edit->0.index as int] == old(self).guides@[e.index as int]),
    {
        if from >= self.guides.len() || to >= self.guides.len() {
            return;
        }
        let ghost list = self.guides@;
        let guide: Guide = self.guides.remove(from);
        self.guides.insert(to, guide);
        proof {
            if let Some(e) = self.edit {
                if e.index < list.len() {
                    law_the_index_remap_agrees_with_the_move(
                        list,
                        from as int,
                        to as int,
                        e.index as int,
                    );
                }
            }
        }
        self.edit =
        match self.edit {
            Some(e) => Some(GuideEdit { index: moved(e.index, from, to), locked: e.locked }),
            None => None,
        };
    }

    /// Remove a guide, keeping the edit mode pointed at the guide it was on: the indices
    /// above the removed one all shift down, and the mode follows, unless it was on the
    /// removed guide itself, in which case it ends.
    pub fn remove_guide(&mut self, index: usize)
        ensures
            index >= old(self).guides@.len() ==> *final(self) == *old(self),
            index < old(self).guides@.len() ==> {
                &&& final(self).guides@ == old(self).guides@.remove(index as int)
                &&& final(self).edit == match old(self).edit {
                    Some(e) => if e.index == index {
                        None
                    } else if e.index > index {
                        Some(GuideEdit { index: (e.index - 1) as usize, ..e })
                    } else {
                        Some(e)
                    },
                    None => None,
                }
            },
            old(self).wf() ==> final(self).wf(),
            old(self).wf() ==> (old(self).edit matches Some(e) ==> e.index != index ==> final(
                self).guides@[final(self).edit->0.index as int] == old(self).guides@[e.index as int]),
    {
        if index >= self.guides.len() {
            return;
        }
        self.guides.remove(index);
        self.edit =
        match self.edit {
            Some(e) => if e.index == index {
                None
            } else if e.index > index {
                Some(GuideEdit { index: e.index - 1, locked: e.locked })
            } else {
                Some(e)
            },
            None => None,
        };
    }

    /// Put `guide` in the place of the one at `index`, if there is one: every adjustment of
    /// one guide comes through here.
    fn update_guide(&mut self, index: usize, guide: Guide)
        ensures
            final(self).edit == old(self).edit,
            final(self).guides@ == if index < old(self).guides@.len() {
                old(self).guides@.update(index as int, guide)
            } else {
                old(self).guides@
            },
    {
        if index < self.guides.len() {
            self.guides.set(index, guide);
        }
    }

    /// Show or hide a guide.
    pub fn toggle_visible(&mut self, index: usize)
        ensures
            final(self).edit == old(self).edit,
            final(self).guides@ == if index < old(self).guides@.len() {
                let g = old(self).guides@[index as int];
                old(self).guides@.update(index as int, Guide { visible: !g.visible, ..g })
            } else {
                old(self).guides@
            },
    {
        if index < self.guides.len() {
            let mut g: Guide = self.guides[index].copied();
            g.visible = !g.visible;
            self.update_guide(index, g);
        }
    }

    /// Draw a plane of a guide's grid, or stop drawing it.
    pub fn toggle_plane(&mut self, index: usize, k: usize)
        requires
            k < 3,
        ensures
            final(self).edit == old(self).edit,
            final(self).guides@ == if index < old(self).guides@.len() {
                let g = old(self).guides@[index as int];
                old(self).guides@.update(
                    index as int,
                    Guide {
                        camera: Camera {
                            pairs: g.camera.pairs.with(k as int, !g.camera.pairs.at(k as int)),
                            ..g.camera
                        },
                        ..g
                    },
                )
            } else {
                old(self).guides@
            },
    {
        if index < self.guides.len() {
            let mut g: Guide = self.guides[index].copied();
            g.camera.pairs = g.camera.pairs.set(k, !g.camera.pairs.get(k));
            self.update_guide(index, g);
        }
    }

    /// Switch a guide between the two projections.
    pub fn toggle_lens(&mut self, index: usize)
        ensures
            final(self).edit == old(self).edit,
            final(self).guides@ == if index < old(self).guides@.len() {
                let g = old(self).guides@[index as int];
                old(self).guides@.update(
                    index as int,
                    Guide {
                        camera: Camera {
                            lens: match g.camera.lens {
                                Lens::Rectilinear => Lens::Fisheye,
                                Lens::Fisheye => Lens::Rectilinear,
                            },
                            ..g.camera
                        },
                        ..g
                    },
                )
            } else {
                old(self).guides@
            },
    {
        if index < self.guides.len() {
            let mut g: Guide = self.guides[index].copied();
            g.camera.lens =
            match g.camera.lens {
                Lens::Rectilinear => Lens::Fisheye,
                Lens::Fisheye => Lens::Rectilinear,
            };
            self.update_guide(index, g);
        }
    }

    /// Set how fine a guide's grid is. A rung is the same grid however it was reached.
    pub fn set_cells(&mut self, index: usize, octave: i32)
        ensures
            final(self).edit == old(self).edit,
            final(self).guides@ == if index < old(self).guides@.len() {
                let g = old(self).guides@[index as int];
                old(self).guides@.update(
                    index as int,
                    Guide { camera: Camera { cells: octave, ..g.camera }, ..g },
                )
            } else {
                old(self).guides@
            },
    {
        if index < self.guides.len() {
            let mut g: Guide = self.guides[index].copied();
            g.camera.cells = octave;
            self.update_guide(index, g);
        }
    }

    /// Set how strongly a guide reads over the paint.
    pub fn set_opacity(&mut self, index: usize, opacity: Amount)
        ensures
            final(self).edit == old(self).edit,
            final(self).guides@ == if index < old(self).guides@.len() {
                let g = old(self).guides@[index as int];
                old(self).guides@.update(
                    index as int,
                    Guide { camera: Camera { opacity, ..g.camera }, ..g },
                )
            } else {
                old(self).guides@
            },
    {
        if index < self.guides.len() {
            let mut g: Guide = self.guides[index].copied();
            g.camera.opacity = opacity;
            self.update_guide(index, g);
        }
    }

    /// Give a guide the name that was typed. An emptied field is a removed name rather than a
    /// blank one, so the row goes back to describing its position.
    pub fn rename(&mut self, index: usize, name: String)
        ensures
            final(self).edit == old(self).edit,
            final(self).guides@ == if index < old(self).guides@.len() {
                let g = old(self).guides@[index as int];
                old(self).guides@.update(
                    index as int,
                    Guide {
                        name: if name@.len() == 0 {
                            None
                        } else {
                            Some(name)
                        },
                        ..g
                    },
                )
            } else {
                old(self).guides@
            },
    {
        if index < self.guides.len() {
            let mut g: Guide = self.guides[index].copied();
            proof {
                reveal_strlit("");
                assert(name@.len() == 0 ==> name@ =~= ""@);
            }
            g.name = if text::same(name.as_str(), "") {
                None
            } else {
                Some(name)
            };
            self.update_guide(index, g);
        }
    }

    /// Set the part of a guide's camera that a drag computes. Nothing else is written, so that
    /// what changed elsewhere while the drag went on is not lost.
    pub fn set_part(&mut self, index: usize, part: PosePart)
        ensures
            final(self).edit == old(self).edit,
            final(self).guides@ == if index < old(self).guides@.len() {
                let g = old(self).guides@[index as int];
                old(self).guides@.update(
                    index as int,
                    Guide { camera: Camera { pose: part.into(g.camera.pose), ..g.camera }, ..g },
                )
            } else {
                old(self).guides@
            },
    {
        if index < self.guides.len() {
            let mut g: Guide = self.guides[index].copied();
            g.camera.pose = part.set(g.camera.pose);
            self.update_guide(index, g);
        }
    }

    /// Hold an axis fixed under the drag, or let it go.
    pub fn toggle_lock(&mut self, i: usize)
        requires
            i < 3,
        ensures
            final(self).guides@ == old(self).guides@,
            final(self).edit == match old(self).edit {
                Some(e) => Some(
                    GuideEdit { locked: e.locked.with(i as int, !e.locked.at(i as int)), ..e },
                ),
                None => None,
            },
    {
        if let Some(e) = self.edit {
            self.edit =
            Some(GuideEdit { index: e.index, locked: e.locked.set(i, !e.locked.get(i)) });
        }
    }

    /// Which guide the bar serves. Where the guide went away under the mode, the mode ends
    /// rather than pointing at nothing.
    pub fn bar(&mut self) -> (served: Option<usize>)
        ensures
            final(self).guides@ == old(self).guides@,
            final(self).wf(),
            old(self).wf() ==> final(self).edit == old(self).edit,
            !old(self).wf() ==> final(self).edit is None,
            served == match final(self).edit {
                Some(e) => Some(e.index),
                None => None,
            },
    {
        match self.edit {
            None => None,
            Some(e) => if e.index < self.guides.len() {
                Some(e.index)
            } else {
                self.end_guide_edit();
                None
            },
        }
    }
}

/// Duplicating a guide and removing the copy leaves the list as it was.
pub proof fn law_removing_the_copy_undoes_the_duplicate(list: Seq<Guide>, index: int)
    requires
        0 <= index < list.len(),
    ensures
        list.insert(index + 1, list[index]).remove(index + 1) == list,
{
    assert(list.insert(index + 1, list[index]).remove(index + 1) =~= list);
}

/// Moving a guide there and back leaves the list, and every index into it, as it was.
pub proof fn law_moving_back_undoes_the_move(list: Seq<Guide>, from: int, to: int, i: int)
    requires
        0 <= from < list.len(),
        0 <= to < list.len(),
        0 <= i < list.len(),
    ensures
        reordered(reordered(list, from, to), to, from) == list,
        sent(sent(i, from, to), to, from) == i,
{
    assert(reordered(reordered(list, from, to), to, from) =~= list);
}

/// What a guide's row is called: its name, or its place in the list.
pub open spec fn label(index: int, guide: Guide) -> Seq<char> {
    match guide.name {
        Some(name) => name@,
        None => "Perspective "@ + text::decimal((index + 1) as nat),
    }
}

/// What to call a guide: its name, or for one that has never been named, its place in the
/// list.
pub fn guide_label(index: usize, guide: &Guide) -> (words: String)
    ensures
        words@ == label(index as int, *guide),
{
    match &guide.name {
        Some(name) => name.clone(),
        None => {
            let mut words: String = "Perspective ".to_owned();
            words.append(text::decimal_string(index as u128 + 1).as_str());
            words
        },
    }
}

/// The identities that the rows wear: their indices.
pub open spec fn row_names(count: nat) -> Seq<Seq<char>> {
    Seq::new(count, |i: int| text::decimal(i as nat))
}

fn row_keys(count: usize) -> (keys: Vec<String>)
    ensures
        reorder::spelled(keys@) == row_names(count as nat),
{
    let mut keys: Vec<String> = Vec::new();
    let mut i: usize = 0;
    while i < count
        invariant
            i <= count,
            keys@.len() == i,
            forall|k: int| 0 <= k < i ==> (#[trigger] keys@[k])@ == text::decimal(k as nat),
        decreases count - i,
    {
        keys.push(text::decimal_string(i as u128));
        i = i + 1;
    }
    assert(reorder::spelled(keys@) =~= row_names(count as nat));
    keys
}

/// The extents of the rows as they stood at the press, where every one was measured.
pub open spec fn measured_rows(grab: Grab, count: nat, extents: Seq<reorder::Extent>) -> bool {
    &&& extents.len() == count
    &&& forall|i: int|
        0 <= i < count ==> reorder::measured(grab.as_pressed(), text::decimal(i as nat)) == Some(
            #[trigger] extents[i],
        )
}

/// Where the row in hand would land, and where to draw it. A flat list has no depth for a
/// sideways drag to choose, so it is drawn straight down the column.
pub fn landing(drag: &Option<Grab>, count: usize) -> (land: (Option<Slide>, (i64, i64)))
    ensures
        !(*drag matches Some(g) && g.stage() == Phase::Dragging) ==> land.0 is None && land.1 == (
            0i64,
            0i64,
        ),
        *drag matches Some(g) ==> g.stage() == Phase::Dragging ==> {
            let from = reorder::place_of(row_names(count as nat), g.pressed());
            let dy = g.at().1 - g.from().1;
            &&& land.1.0 == 0
            &&& land.1.1 == dy
            &&& land.0 is Some <==> from < count && exists|extents: Seq<reorder::Extent>|
                measured_rows(g, count as nat, extents)
            &&& land.0 matches Some(slide) ==> slide.wf() && forall|extents: Seq<reorder::Extent>|
                measured_rows(g, count as nat, extents) ==> slide.describes(
                    extents,
                    (from as usize, from as usize),
                    dy,
                )
        },
{
    match drag {
        None => (None, (0, 0)),
        Some(grab) => {
            if !grab.live() {
                return (None, (0, 0));
            }
            let keys: Vec<String> = row_keys(count);
            let dy: i64 = grab.delta().1;
            let slide: Option<Slide> = match grab.resolve(keys.as_slice()) {
                None => {
                    proof {
                        assert forall|extents: Seq<reorder::Extent>|
                            reorder::place_of(row_names(count as nat), grab.pressed()) < count
                                && measured_rows(*grab, count as nat, extents) implies false by {
                            assert forall|i: int| 0 <= i < keys@.len() implies #[trigger] reorder::measured(
                                grab.as_pressed(),
                                keys@[i]@,
                            ) is Some by {
                                assert(reorder::spelled(keys@)[i] == row_names(count as nat)[i]);
                                assert(reorder::measured(grab.as_pressed(), text::decimal(i as nat))
                                    == Some(extents[i]));
                            }
                        }
                    }
                    None
                },
                Some((from, extents)) => {
                    proof {
                        assert forall|i: int| 0 <= i < count implies reorder::measured(
                            grab.as_pressed(),
                            text::decimal(i as nat),
                        ) == Some(#[trigger] extents@[i]) by {
                            assert(reorder::spelled(keys@)[i] == row_names(count as nat)[i]);
                            assert(reorder::measured(grab.as_pressed(), keys@[i]@) == Some(
                                extents@[i],
                            ));
                        }
                        assert(measured_rows(*grab, count as nat, extents@));
                        assert forall|other: Seq<reorder::Extent>|
                            measured_rows(*grab, count as nat, other) implies other == extents@ by {
                            assert forall|i: int| 0 <= i < count implies other[i] == extents@[i] by {
                                assert(Some(other[i]) == Some(extents@[i]));
                            }
                            assert(other =~= extents@);
                        }
                    }
                    Slide::resolve(extents.as_slice(), (from, from), dy)
                },
            };
            (slide, (0, dy))
        },
    }
}

/// How each row is drawn while the list may be in motion: at rest unless a drag has
/// somewhere to land.
pub fn row_motion(land: &(Option<Slide>, (i64, i64)), i: usize) -> (motion: Motion)
    requires
        land.0 matches Some(slide) ==> slide.wf(),
    ensures
        land.0 is None ==> motion == (Motion { shift: (0, 0), lifted: false, live: false }),
        land.0 matches Some(slide) ==> {
            &&& motion.live
            &&& motion.lifted == reorder::travels(slide.block, i as int)
            &&& motion.lifted ==> motion.shift == land.1
            &&& !motion.lifted ==> motion.shift.0 == 0 && motion.shift.1 == slide.slides(i as int)
        },
{
    match land.0 {
        None => Motion::default(),
        Some(slide) => slide.motion(i, land.1),
    }
}

impl Roster {
    /// A row was let go. A press that never travelled is a click, and the browser is about
    /// to send one, so the grab is dropped and nothing is said. A drag is spent first; one
    /// that went nowhere is the click it nearly was, and picks the guide up to shape it;
    /// one that went somewhere moves the guide, and what was being shaped stays what is
    /// being shaped.
    pub fn land(&mut self, drag: &mut Option<Grab>, from: usize, slide: Option<Slide>)
        ensures
            !(*old(drag) matches Some(g) && g.stage() == Phase::Dragging) ==> {
                &&& *final(drag) is None
                &&& *final(self) == *old(self)
            },
            *old(drag) matches Some(g) ==> g.stage() == Phase::Dragging ==> {
                &&& *final(drag) is Some
                &&& final(drag)->0.stage() == Phase::Spent
                &&& final(drag)->0.same_press(&g)
                &&& slide is None ==> *final(self) == *old(self)
                &&& slide matches Some(s) ==> if s.gap == s.block.0 {
                    &&& final(self).guides@ == old(self).guides@
                    &&& final(self).edit == Some(GuideEdit { index: from, locked: unlocked() })
                } else if from < old(self).guides@.len() && s.gap < old(self).guides@.len() {
                    &&& final(self).guides@ == reordered(
                        old(self).guides@,
                        from as int,
                        s.gap as int,
                    )
                    &&& final(self).edit == match old(self).edit {
                        Some(e) => Some(
                            GuideEdit {
                                index: sent(e.index as int, from as int, s.gap as int) as usize,
                                ..e
                            },
                        ),
                        None => None,
                    }
                } else {
                    *final(self) == *old(self)
                }
            },
    {
        let live: bool = match drag {
            Some(d) => d.live(),
            None => false,
        };
        if !live {
            *drag = None;
            return;
        }
        if let Some(d) = drag {
            d.spend();
        }
        if let Some(s) = slide {
            if s.inert() {
                self.begin_guide_edit(from);
            } else {
                self.move_guide(from, s.gap);
            }
        }
    }
}

/// The class of a row, with what its place in a drag adds to it.
pub fn row_class(active: bool, motion: Motion) -> (class: String)
    ensures
        class@ == "guide-row"@ + (if active {
            " active"@
        } else {
            ""@
        }) + (if motion.lifted {
            " dragging"@
        } else {
            ""@
        }),
{
    let mut class: String = "guide-row".to_owned();
    class.append(
        if active {
            " active"
        } else {
            ""
        },
    );
    class.append(motion.class());
    class
}

/// The class of a row's eye.
pub fn eye_class(visible: bool) -> (class: &'static str)
    ensures
        class@ == if visible {
            "guide-eye"@
        } else {
            "guide-eye hidden"@
        },
{
    if visible {
        "guide-eye"
    } else {
        "guide-eye hidden"
    }
}

/// What a row's eye would do.
pub fn eye_title(visible: bool) -> (title: &'static str)
    ensures
        title@ == if visible {
            "Hide this guide"@
        } else {
            "Show this guide"@
        },
{
    if visible {
        "Hide this guide"
    } else {
        "Show this guide"
    }
}

/// The letter of an axis.
pub open spec fn axis_letter(i: int) -> Seq<char> {
    if i == 0 {
        "X"@
    } else if i == 1 {
        "Y"@
    } else {
        "Z"@
    }
}

/// The stylesheet's name for an axis's hue, which is stated there and nowhere else.
pub open spec fn axis_hue(i: int) -> Seq<char> {
    if i == 0 {
        "var(--axis-x)"@
    } else if i == 1 {
        "var(--axis-y)"@
    } else {
        "var(--axis-z)"@
    }
}

/// The two axes of each plane, in the order its chip shows them: plane `k` is spanned by
/// the axes `k` and `k + 1`, going round, so the three chips read XY, YZ, ZX.
pub open spec fn plane_axes(k: int) -> (int, int) {
    (k, (k + 1) % 3)
}

/// Every axis is on two chips, once on each side.
pub proof fn law_each_axis_is_on_two_planes(axis: int)
    requires
        0 <= axis < 3,
    ensures
        plane_axes(axis).0 == axis,
        plane_axes((axis + 2) % 3).1 == axis,
        plane_axes((axis + 1) % 3).0 != axis && plane_axes((axis + 1) % 3).1 != axis,
{
}

pub fn axis_name(i: usize) -> (name: &'static str)
    requires
        i < 3,
    ensures
        name@ == axis_letter(i as int),
{
    if i == 0 {
        "X"
    } else if i == 1 {
        "Y"
    } else {
        "Z"
    }
}

pub fn axis_css(i: usize) -> (css: &'static str)
    requires
        i < 3,
    ensures
        css@ == axis_hue(i as int),
{
    if i == 0 {
        "var(--axis-x)"
    } else if i == 1 {
        "var(--axis-y)"
    } else {
        "var(--axis-z)"
    }
}

/// The two axes of plane `k`.
pub fn pair_axes(k: usize) -> (axes: (usize, usize))
    requires
        k < 3,
    ensures
        axes.0 == plane_axes(k as int).0,
        axes.1 == plane_axes(k as int).1,
        axes.0 < 3 && axes.1 < 3,
{
    (k, (k + 1) % 3)
}

/// A lock chip of the bar.
#[derive(Clone, PartialEq, Eq, Debug)]
pub struct Chip {
    pub class: String,
    pub style: String,
    pub title: String,
}

/// The chip that holds an axis fixed under the drag, coloured as the axis's own lines are.
pub fn lock_chip(i: usize, locked: Three) -> (chip: Chip)
    requires
        i < 3,
    ensures
        chip.class@ == if locked.at(i as int) {
            "chip axis-chip active"@
        } else {
            "chip axis-chip"@
        },
        chip.style@ == "--axis: "@ + axis_hue(i as int),
        chip.title@ == "Hold the "@ + axis_letter(i as int) + " axis fixed under the drag"@,
{
    let class: String = (if locked.get(i) {
        "chip axis-chip active"
    } else {
        "chip axis-chip"
    }).to_owned();
    let mut style: String = "--axis: ".to_owned();
    style.append(axis_css(i));
    let mut title: String = "Hold the ".to_owned();
    title.append(axis_name(i));
    title.append(" axis fixed under the drag");
    Chip { class, style, title }
}

/// The chip that draws a plane, lettered in its two axes' own hues.
pub fn plane_chip(k: usize, pairs: Three) -> (chip: Chip)
    requires
        k < 3,
    ensures
        chip.class@ == if pairs.at(k as int) {
            "chip plane-chip active"@
        } else {
            "chip plane-chip"@
        },
        chip.style@ == "--axis-a: "@ + axis_hue(plane_axes(k as int).0) + "; --axis-b: "@
            + axis_hue(plane_axes(k as int).1),
        chip.title@ == "Show the "@ + axis_letter(plane_axes(k as int).0) + axis_letter(
            plane_axes(k as int).1,
        ) + " plane \u{2014} its two fans of guide lines, its horizon and its station point"@,
{
    let (a, b) = pair_axes(k);
    let class: String = (if pairs.get(k) {
        "chip plane-chip active"
    } else {
        "chip plane-chip"
    }).to_owned();
    let mut style: String = "--axis-a: ".to_owned();
    style.append(axis_css(a));
    style.append("; --axis-b: ");
    style.append(axis_css(b));
    let mut title: String = "Show the ".to_owned();
    title.append(axis_name(a));
    title.append(axis_name(b));
    title.append(" plane \u{2014} its two fans of guide lines, its horizon and its station point");
    Chip { class, style, title }
}

/// The lens chip, lit under the fisheye.
pub fn lens_class(lens: Lens) -> (class: &'static str)
    ensures
        class@ == if lens == Lens::Fisheye {
            "chip active"@
        } else {
            "chip"@
        },
{
    if matches!(lens, Lens::Fisheye) {
        "chip active"
    } else {
        "chip"
    }
}

/// The rungs that the cell slider offers, as halvings of the default cell: two steps
/// coarser to two steps finer. Double the cells and every line of the coarser grid is still
/// a line of the finer one.
pub const COARSEST: i32 = -2;

pub const FINEST: i32 = 2;

// Distances on the screen are compared by the bits of the numbers they are. For numbers
// that are not negative the order of the bits is the order of the numbers, and what is not
// a number at all comes after every number.

/// The bits of fourteen: how near the crosshair, in pixels, a press must be to grab it.
pub const CENTER_GRAB: u32 = 0x4160_0000;

/// The bits of ten: half the width, in pixels, of the band a press on a drawn curve must be
/// in to grab it.
pub const LINE_BAND: u32 = 0x4120_0000;

/// A ring of the view cone: how far the press is from it, and its radius for each unit of
/// focal length.
#[derive(Clone, Copy, PartialEq, Eq, Structural, Debug)]
pub struct Ring {
    pub error: u32,
    pub factor: u32,
}

/// How far a press is from each thing that it might grab, on the screen.
#[derive(Clone, Copy, PartialEq, Eq, Debug)]
pub struct Handles {
    pub center: u32,
    pub inner: Ring,
    /// The second ring, which only the fisheye shows.
    pub outer: Option<Ring>,
    /// Horizon `n` is the one that turns about axis `n`, and there is none where the guide
    /// does not draw it.
    pub horizons: [Option<u32>; 3],
}

/// What a press grabs.
#[derive(Clone, Copy, PartialEq, Eq, Structural, Debug)]
pub enum GuideRegion {
    /// The crosshair, which moves the construction.
    Center,
    /// A ring, which is the lens. It carries that ring's radius for each unit of focal
    /// length, so that the one grabbed stays the one held.
    Focal(u32),
    /// A horizon, which is a turn about the one axis it carries.
    Horizon(usize),
    /// Everywhere else is the world.
    Orbit,
}

impl Handles {
    /// The ring in reach that is nearest, the inner one where the two are as near.
    pub open spec fn nearest_ring(self) -> Option<Ring> {
        let inner = self.inner.error < LINE_BAND;
        match self.outer {
            Some(outer) if outer.error < LINE_BAND && (!inner || outer.error < self.inner.error) => Some(outer),
            _ => if inner {
                Some(self.inner)
            } else {
                None
            },
        }
    }

    /// Horizon `n` is drawn and in reach.
    pub open spec fn in_reach(self, n: int) -> bool {
        self.horizons@[n] matches Some(error) && error < LINE_BAND
    }

    /// Horizon `n` is in reach, no horizon is nearer, and none before it is as near.
    pub open spec fn nearest_horizon(self, n: int) -> bool {
        &&& 0 <= n < 3
        &&& self.in_reach(n)
        &&& forall|m: int|
            0 <= m < 3 && #[trigger] self.in_reach(m) ==> if m < n {
                self.horizons@[n]->0 < self.horizons@[m]->0
            } else {
                self.horizons@[n]->0 <= self.horizons@[m]->0
            }
    }

    /// What a press grabs. The crosshair is topmost, as it is drawn; below it the rings and
    /// the horizons compete on distance, and a tie goes to the ring.
    pub fn at(self) -> (region: GuideRegion)
        ensures
            region == GuideRegion::Center <==> self.center < CENTER_GRAB,
            self.center >= CENTER_GRAB ==> match region {
                GuideRegion::Center => false,
                GuideRegion::Focal(factor) => {
                    &&& self.nearest_ring() matches Some(ring) && ring.factor == factor
                    &&& forall|n: int|
                        #![trigger self.in_reach(n)]
                        0 <= n < 3 && self.in_reach(n) ==> self.nearest_ring()->0.error
                            <= self.horizons@[n]->0
                },
                GuideRegion::Horizon(n) => {
                    &&& self.nearest_horizon(n as int)
                    &&& self.nearest_ring() matches Some(ring) ==> self.horizons@[n as int]->0
                        < ring.error
                },
                GuideRegion::Orbit => {
                    &&& self.nearest_ring() is None
                    &&& forall|n: int|
                        #![trigger self.in_reach(n)]
                        0 <= n < 3 ==> !self.in_reach(n)
                },
            },
    {
        if self.center < CENTER_GRAB {
            return GuideRegion::Center;
        }
        let mut ring: Option<Ring> = if self.inner.error < LINE_BAND {
            Some(self.inner)
        } else {
            None
        };
        if let Some(outer) = self.outer {
            if outer.error < LINE_BAND {
                let nearer: bool = match ring {
                    Some(r) => outer.error < r.error,
                    None => true,
                };
                if nearer {
                    ring = Some(outer);
                }
            }
        }
        assert(ring == self.nearest_ring());
        let mut best: Option<(u32, usize)> = None;
        let mut n: usize = 0;
        while n < 3
            invariant
                n <= 3,
                best is None ==> forall|m: int| 0 <= m < n ==> !#[trigger] self.in_reach(m),
                best matches Some((error, at)) ==> {
                    &&& at < n
                    &&& self.in_reach(at as int)
                    &&& self.horizons@[at as int] == Some(error)
                    &&& forall|m: int|
                        0 <= m < n && #[trigger] self.in_reach(m) ==> if m < at {
                            error < self.horizons@[m]->0
                        } else {
                            error <= self.horizons@[m]->0
                        }
                },
            decreases 3 - n,
        {
            let ghost before = best;
            if let Some(error) = self.horizons[n] {
                if error < LINE_BAND {
                    let nearer: bool = match best {
                        Some((e, _)) => error < e,
                        None => true,
                    };
                    if nearer {
                        best = Some((error, n));
                    }
                }
            }
            n = n + 1;
        }
        match best {
            None => match ring {
                Some(r) => GuideRegion::Focal(r.factor),
                None => GuideRegion::Orbit,
            },
            Some((error, at)) => match ring {
                Some(r) => if error < r.error {
                    assert(self.nearest_horizon(at as int));
                    GuideRegion::Horizon(at)
                } else {
                    GuideRegion::Focal(r.factor)
                },
                None => {
                    assert(self.nearest_horizon(at as int));
                    GuideRegion::Horizon(at)
                },
            },
        }
    }
}

/// The axes a drag holds fixed: those that are locked, and the one whose horizon was
/// grabbed, since holding an axis fixed is exactly turning about it.
pub fn held_axes(locked: Three, region: GuideRegion) -> (held: Three)
    requires
        region matches GuideRegion::Horizon(n) ==> n < 3,
    ensures
        held == match region {
            GuideRegion::Horizon(n) => locked.with(n as int, true),
            _ => locked,
        },
{
    match region {
        GuideRegion::Horizon(n) => locked.set(n, true),
        _ => locked,
    }
}

/// The class of the surface that catches the pointer while a guide is being shaped.
pub fn catcher_class(panning: bool) -> (class: &'static str)
    ensures
        class@ == if panning {
            "guide-catcher pan"@
        } else {
            "guide-catcher"@
        },
{
    if panning {
        "guide-catcher pan"
    } else {
        "guide-catcher"
    }
}

/// The pointer over that surface: panning has its own; a drag grips what it holds; a ring
/// and a horizon are handles to take hold of; the free grab of the world is not a handle,
/// and says so.
pub open spec fn pointer_style(
    panning: bool,
    held: Option<GuideRegion>,
    hover: Option<GuideRegion>,
) -> Seq<char> {
    if panning {
        ""@
    } else {
        match held {
            Some(GuideRegion::Center) => "cursor: move;"@,
            Some(_) => "cursor: grabbing;"@,
            None => match hover {
                Some(GuideRegion::Center) => "cursor: move;"@,
                Some(GuideRegion::Focal(_)) => "cursor: grab;"@,
                Some(GuideRegion::Horizon(_)) => "cursor: grab;"@,
                Some(GuideRegion::Orbit) => "cursor: crosshair;"@,
                None => ""@,
            },
        }
    }
}

pub fn cursor(
    panning: bool,
    held: Option<GuideRegion>,
    hover: Option<GuideRegion>,
) -> (style: &'static str)
    ensures
        style@ == pointer_style(panning, held, hover),
{
    if panning {
        return "";
    }
    match held {
        Some(GuideRegion::Center) => "cursor: move;",
        Some(_) => "cursor: grabbing;",
        None => match hover {
            Some(GuideRegion::Center) => "cursor: move;",
            Some(GuideRegion::Focal(_)) => "cursor: grab;",
            Some(GuideRegion::Horizon(_)) => "cursor: grab;",
            Some(GuideRegion::Orbit) => "cursor: crosshair;",
            None => "",
        },
    }
}

/// What a drag over the canvas does to the guide being shaped.
#[derive(Clone, Copy, PartialEq, Eq, Structural, Debug)]
pub enum Deed {
    /// Move the construction with the hand.
    Recenter,
    /// Set the focal length to the hand's distance from the centre, divided by this factor.
    Refocus(u32),
    /// Turn the camera, holding these axes.
    Turn(Three),
}

/// What a drag that took hold of `region` does as the hand moves.
pub fn deed(region: GuideRegion, locked: Three) -> (deed: Deed)
    requires
        region matches GuideRegion::Horizon(n) ==> n < 3,
    ensures
        deed == match region {
            GuideRegion::Center => Deed::Recenter,
            GuideRegion::Focal(factor) => Deed::Refocus(factor),
            GuideRegion::Horizon(n) => Deed::Turn(locked.with(n as int, true)),
            GuideRegion::Orbit => Deed::Turn(locked),
        },
{
    match region {
        GuideRegion::Center => Deed::Recenter,
        GuideRegion::Focal(factor) => Deed::Refocus(factor),
        held => Deed::Turn(held_axes(locked, held)),
    }
}

/// Setting one of the three flags sets that one and no other: whichever is read back after it is
/// what was set if it is that one, and what it was before if it is not.
pub proof fn law_a_flag_is_set_alone(three: Three, i: usize, value: bool, next: Three, j: usize)
    requires
        i < 3,
        j < 3,
        call_ensures(Three::set, (three, i, value), next),
    ensures
        next.first == if i == 0 {
            value
        } else {
            three.first
        },
        next.second == if i == 1 {
            value
        } else {
            three.second
        },
        next.third == if i == 2 {
            value
        } else {
            three.third
        },
        next.at(j as int) == if i == j {
            value
        } else {
            three.at(j as int)
        },
        next == three.with(i as int, value),
{
}

/// The flags are read in their order.
pub proof fn law_the_flags_are_read_in_order(three: Three, i: usize, value: bool)
    requires
        i < 3,
        call_ensures(Three::get, (three, i), value),
    ensures
        i == 0 ==> value == three.first,
        i == 1 ==> value == three.second,
        i == 2 ==> value == three.third,
        value == three.at(i as int),
{
}

/// A drag that holds a horizon turns about the axis it belongs to, and every axis that is locked
/// stays held. Held anywhere else, the axes are those that are locked.
pub proof fn law_a_grabbed_horizon_holds_its_own_axis(
    region: GuideRegion,
    locked: Three,
    held: Three,
    done: Deed,
)
    requires
        region matches GuideRegion::Horizon(n) ==> n < 3,
        call_ensures(held_axes, (locked, region), held),
        call_ensures(deed, (region, locked), done),
    ensures
        held.first == (locked.first || region == GuideRegion::Horizon(0)),
        held.second == (locked.second || region == GuideRegion::Horizon(1)),
        held.third == (locked.third || region == GuideRegion::Horizon(2)),
        region is Horizon || region is Orbit <==> done == Deed::Turn(held),
        region is Center <==> done is Recenter,
        region matches GuideRegion::Focal(factor) ==> done == Deed::Refocus(factor),
{
}

/// A press grabs the nearest thing in reach: the crosshair within fourteen pixels before anything
/// else, and then whichever ring or horizon is nearest within ten, a ring before a horizon that is
/// as near, the inner ring before the outer, and an earlier horizon before a later.
pub proof fn law_a_press_grabs_the_nearest_thing_in_reach(h: Handles, region: GuideRegion)
    requires
        call_ensures(Handles::at, (h,), region),
    ensures
        h.center < 0x4160_0000 <==> region is Center,
        region matches GuideRegion::Focal(factor) ==> exists|error: u32|
            #![trigger h.reaches(error)]
            {
                &&& h.reaches(error) && error < 0x4120_0000
                &&& h.inner == (Ring { error, factor }) || h.outer == Some(Ring { error, factor })
                    && error < h.inner.error
                &&& error <= h.inner.error
                &&& h.outer matches Some(outer) ==> error <= outer.error
                &&& forall|n: int|
                    0 <= n < 3 ==> (#[trigger] h.horizons@[n] matches Some(e) ==> error <= e)
            },
        region matches GuideRegion::Horizon(n) ==> n < 3 && (h.horizons@[n as int] matches Some(error)
            && {
            &&& error < 0x4120_0000
            &&& error < h.inner.error
            &&& h.outer matches Some(outer) ==> error < outer.error
            &&& forall|m: int|
                0 <= m < 3 ==> (#[trigger] h.horizons@[m] matches Some(e) ==> error <= e && (m < n
                    ==> error < e))
        }),
        region is Orbit ==> {
            &&& h.inner.error >= 0x4120_0000
            &&& h.outer matches Some(outer) ==> outer.error >= 0x4120_0000
            &&& forall|n: int|
                0 <= n < 3 ==> (#[trigger] h.horizons@[n] matches Some(e) ==> e >= 0x4120_0000)
        },
{
    if let GuideRegion::Focal(factor) = region {
        let ring = h.nearest_ring()->0;
        assert(h.reaches(ring.error));
        assert forall|n: int| 0 <= n < 3 implies (#[trigger] h.horizons@[n] matches Some(e)
            ==> ring.error <= e) by {
            if h.in_reach(n) {
            }
        }
    }
    if let GuideRegion::Horizon(at) = region {
        assert forall|m: int| 0 <= m < 3 implies (#[trigger] h.horizons@[m] matches Some(e)
            ==> h.horizons@[at as int]->0 <= e && (m < at ==> h.horizons@[at as int]->0 < e)) by {
            if h.in_reach(m) {
            }
        }
    }
    if region is Orbit {
        assert forall|n: int| 0 <= n < 3 implies (#[trigger] h.horizons@[n] matches Some(e) ==> e
            >= 0x4120_0000) by {
            assert(!h.in_reach(n));
        }
    }
}

impl Handles {
    /// One of the rings is this far from the press.
    pub open spec fn reaches(self, error: u32) -> bool {
        self.inner.error == error || (self.outer matches Some(outer) && outer.error == error)
    }
}

/// A part of a stand replaces what it names and nothing else.
pub proof fn law_a_part_of_a_stand_replaces_itself_alone(part: PosePart, pose: Pose)
    ensures
        ({
            let next = part.into(pose);
            &&& !(part is Center) ==> next.center_x == pose.center_x && next.center_y == pose.center_y
            &&& !(part is Focal) ==> next.focal == pose.focal
            &&& !(part is Turn) ==> next.turn_x == pose.turn_x && next.turn_y == pose.turn_y
                && next.turn_z == pose.turn_z && next.turn_w == pose.turn_w
            &&& part matches PosePart::Center { x, y } ==> next.center_x == x && next.center_y == y
            &&& part matches PosePart::Focal(focal) ==> next.focal == focal
            &&& part matches PosePart::Turn { x, y, z, w } ==> next.turn_x == x && next.turn_y == y
                && next.turn_z == z && next.turn_w == w
        }),
{
}

/// A guide is called by its name, and without one by its place, counted from one.
pub proof fn law_a_guide_is_called_by_its_name_before_its_place(
    index: usize,
    guide: Guide,
    words: String,
)
    requires
        call_ensures(guide_label, (index, &guide), words),
    ensures
        guide.name matches Some(name) ==> words@ == name@,
        guide.name is None ==> words@.len() > 12 && words@.take(12) == "Perspective "@ && text::value(
            words@.skip(12),
        ) == index + 1,
{
    reveal_strlit("Perspective ");
    text::law_decimal_reads_back((index + 1) as nat);
    text::law_a_decimal_has_no_leading_zero((index + 1) as nat);
    if guide.name is None {
        assert(words@.take(12) =~= "Perspective "@);
        assert(words@.skip(12) =~= text::decimal((index + 1) as nat));
    }
}

/// A row wears its place in the list.
pub proof fn law_a_row_wears_its_place(count: nat, i: int)
    requires
        0 <= i < count,
    ensures
        row_names(count).len() == count,
        text::value(row_names(count)[i]) == i,
{
    text::law_decimal_reads_back(i as nat);
}

/// The axes are lettered in order, and each has the hue of its own letter.
pub proof fn law_the_axes_are_lettered_in_order(i: usize, name: &str, css: &str)
    requires
        i < 3,
        call_ensures(axis_name, (i,), name),
        call_ensures(axis_css, (i,), css),
    ensures
        name@.len() == 1 && name@[0] as int == 'X' as int + i,
        css@.len() == 13 && css@[11] as int == 'x' as int + i,
        name@ == axis_letter(i as int),
        css@ == axis_hue(i as int),
{
    reveal_strlit("X");
    reveal_strlit("Y");
    reveal_strlit("Z");
    reveal_strlit("var(--axis-x)");
    reveal_strlit("var(--axis-y)");
    reveal_strlit("var(--axis-z)");
}

/// The pointer over the canvas is navigation's while it pans, the drag's while there is one, and
/// else that of what it is over: a move over the crosshair, a hand over a ring or a horizon, and a
/// cross over the world, which is no handle.
pub proof fn law_the_pointer_says_what_is_in_hand_before_what_is_under_it(
    held: Option<GuideRegion>,
    hover: Option<GuideRegion>,
    panning: &str,
    style: &str,
)
    requires
        call_ensures(cursor, (true, held, hover), panning),
        call_ensures(cursor, (false, held, hover), style),
    ensures
        panning@ == ""@,
        held matches Some(region) ==> style@ == if region is Center {
            "cursor: move;"@
        } else {
            "cursor: grabbing;"@
        },
        held is None ==> (hover matches Some(region) ==> style@ == if region is Center {
            "cursor: move;"@
        } else if region is Orbit {
            "cursor: crosshair;"@
        } else {
            "cursor: grab;"@
        }),
        held is None && hover is None ==> style@ == ""@,
{
}

/// A guide that is moved is found where it was put, and the others keep their order.
pub proof fn law_a_moved_guide_is_where_it_was_put<T>(list: Seq<T>, from: int, to: int, i: int, j: int)
    requires
        0 <= from < list.len(),
        0 <= to < list.len(),
        0 <= i < j < list.len(),
        i != from,
        j != from,
    ensures
        reordered(list, from, to).len() == list.len(),
        reordered(list, from, to)[to] == list[from],
        sent(from, from, to) == to,
        sent(i, from, to) < sent(j, from, to),
        sent(i, from, to) != to && sent(j, from, to) != to,
{
}

/// A sitting starts with no axis held.
pub proof fn law_a_sitting_starts_with_no_axis_held()
    ensures
        !unlocked().first && !unlocked().second && !unlocked().third,
{
}

/// The rows were measured where each of them was, under its own place and in that order: as many
/// extents as there are rows, none of them missing.
pub proof fn law_every_row_is_measured_under_its_place(
    grab: Grab,
    count: nat,
    extents: Seq<reorder::Extent>,
)
    ensures
        measured_rows(grab, count, extents) <==> extents.len() == count && forall|i: int|
            0 <= i < extents.len() ==> reorder::measured(grab.as_pressed(), text::decimal(i as nat))
                == Some(#[trigger] extents[i]),
{
}

} // verus!
