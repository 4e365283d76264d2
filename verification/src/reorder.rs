//! Moving a row of a list by dragging it: the gesture, with no opinion about what the
//! list is.
//!
//! - [`Grab`] is the pointer bookkeeping: what was pressed, where the hand started and is
//!   now, and every row's box **as it stood at the press**.
//! - [`Slide`] is the column arithmetic: given the block of rows that travels and how far
//!   the hand has taken it, which rows yield and by how much.
//! - [`Motion`] is what one row does about it, and how that is written as a style.
//!
//! Lengths are whole layout units, [`PX`] to a pixel, the grid that browsers lay boxes out
//! on.
use crate::text;
use vstd::prelude::*;

verus! {

/// Layout units in a pixel.
pub const PX: i32 = 64;

/// How far the pointer must travel before a press on a row is a drag rather than a click:
/// four pixels.
pub const GRAB_SLOP: i32 = 256;

/// One row's vertical box, with the identity the element it was measured from wears.
#[derive(Clone, PartialEq, Eq, Debug)]
pub struct RowBox {
    pub key: String,
    pub top: i32,
    pub height: i32,
}

impl From<(String, i32, i32)> for RowBox {
    /// The shape a measurement arrives in: `(key, top, height)`.
    fn from(measured: (String, i32, i32)) -> Self {
        RowBox { key: measured.0, top: measured.1, height: measured.2 }
    }
}

impl vstd::std_specs::convert::FromSpecImpl<(String, i32, i32)> for RowBox {
    open spec fn obeys_from_spec() -> bool {
        true
    }

    open spec fn from_spec(measured: (String, i32, i32)) -> Self {
        RowBox { key: measured.0, top: measured.1, height: measured.2 }
    }
}

/// A row's vertical box: where it starts and how tall it is, **never** where it ends.
#[derive(Clone, Copy, PartialEq, Eq, Structural, Debug)]
pub struct Extent {
    pub top: i32,
    pub height: i32,
}

impl Extent {
    /// Where the row ends.
    pub open spec fn foot(self) -> int {
        self.top + self.height
    }

    /// Twice the line a row yields at, which is halfway down it.
    pub open spec fn twice_middle(self) -> int {
        2 * self.top + self.height
    }

    /// The row's lower edge.
    pub fn bottom(&self) -> (y: i64)
        ensures
            y == self.foot(),
    {
        self.top as i64 + self.height as i64
    }

    /// Twice the line a row yields at: the leading edge of the travelling block has to
    /// cross it.
    pub fn twice_center(&self) -> (y: i64)
        ensures
            y == self.twice_middle(),
    {
        2 * (self.top as i64) + self.height as i64
    }
}

/// Where a press on a row has got to.
#[derive(Clone, Copy, PartialEq, Eq, Structural, Debug)]
pub enum Phase {
    /// Pressed, not travelled: still a click.
    Pressed,
    /// Travelled: a drag, and it stays one.
    Dragging,
    /// Landed, or ended by a press that is no longer down. **Terminal.**
    Spent,
}

/// A place in the window.
#[derive(Clone, Copy, PartialEq, Eq, Structural, Debug)]
struct Spot {
    x: i32,
    y: i32,
}

/// A press on a row, which may or may not have become a drag yet.
#[derive(Clone, PartialEq, Eq, Debug)]
pub struct Grab {
    key: String,
    boxes: Vec<RowBox>,
    anchor: Spot,
    pointer: Spot,
    phase: Phase,
}

/// The first row of `keys` that wears `key`, or past the end if none does.
pub open spec fn place_of(keys: Seq<Seq<char>>, key: Seq<char>) -> nat
    decreases keys.len(),
{
    if keys.len() == 0 || keys[0] == key {
        0
    } else {
        1 + place_of(keys.drop_first(), key)
    }
}

/// The identities that a list of strings spells.
pub open spec fn spelled(keys: Seq<String>) -> Seq<Seq<char>> {
    Seq::new(keys.len(), |i: int| keys[i]@)
}

/// The box measured for `key`: the first one wearing it, or none.
pub open spec fn measured(boxes: Seq<RowBox>, key: Seq<char>) -> Option<Extent>
    decreases boxes.len(),
{
    if boxes.len() == 0 {
        None
    } else if boxes[0].key@ == key {
        Some(Extent { top: boxes[0].top, height: boxes[0].height })
    } else {
        measured(boxes.drop_first(), key)
    }
}

/// The distance between two places on one axis.
pub open spec fn apart(a: int, b: int) -> int {
    if a < b {
        b - a
    } else {
        a - b
    }
}

impl Grab {
    /// The identity of the row that was pressed.
    pub closed spec fn pressed(&self) -> Seq<char> {
        self.key@
    }

    /// The boxes as they stood at the press.
    pub closed spec fn as_pressed(&self) -> Seq<RowBox> {
        self.boxes@
    }

    /// Where the hand closed.
    pub closed spec fn from(&self) -> (i32, i32) {
        (self.anchor.x, self.anchor.y)
    }

    /// Where the hand is.
    pub closed spec fn at(&self) -> (i32, i32) {
        (self.pointer.x, self.pointer.y)
    }

    /// Where the press has got to.
    pub closed spec fn stage(&self) -> Phase {
        self.phase
    }

    /// The same press, whatever the pointer has done since.
    pub open spec fn same_press(&self, other: &Grab) -> bool {
        &&& self.pressed() == other.pressed()
        &&& self.as_pressed() == other.as_pressed()
        &&& self.from() == other.from()
    }

    /// Arm a press on the row wearing `key`, with `boxes` as the whole list stood at that
    /// moment and `at` the pointer.
    ///
    /// Measured on the press rather than on the first move, so the list is described as
    /// it stood when the hand closed on it and no pointer travel is lost waiting for a
    /// measurement.
    pub fn begin(key: &str, boxes: Vec<RowBox>, at: (i32, i32)) -> (grab: Self)
        ensures
            grab.pressed() == key@,
            grab.as_pressed() == boxes@,
            grab.from() == at,
            grab.at() == at,
            grab.stage() == Phase::Pressed,
    {
        let spot = Spot { x: at.0, y: at.1 };
        Grab { key: key.to_owned(), boxes, anchor: spot, pointer: spot, phase: Phase::Pressed }
    }

    /// Follow the pointer, `held` being whether a button is still down.
    ///
    /// Once a press is a drag it stays one. What ends it is the press ending: **a move
    /// with nothing held is a hover**, and a hover is not the middle of a drag. A spent
    /// grab follows nothing.
    pub fn track(&mut self, at: (i32, i32), held: bool)
        ensures
            final(self).same_press(old(self)),
            old(self).stage() == Phase::Spent || !held ==> {
                &&& final(self).stage() == Phase::Spent
                &&& final(self).at() == old(self).at()
            },
            old(self).stage() != Phase::Spent && held ==> {
                &&& final(self).at() == at
                &&& final(self).stage() == if apart(old(self).from().0 as int, at.0 as int)
                    > GRAB_SLOP || apart(old(self).from().1 as int, at.1 as int) > GRAB_SLOP {
                    Phase::Dragging
                } else {
                    old(self).stage()
                }
            },
    {
        if self.phase == Phase::Spent {
            return;
        }
        if !held {
            self.spend();
            return;
        }
        self.pointer = Spot { x: at.0, y: at.1 };
        let (dx, dy) = self.delta();
        if dx > GRAB_SLOP as i64 || dx < -(GRAB_SLOP as i64) || dy > GRAB_SLOP as i64 || dy < -(
        GRAB_SLOP as i64) {
            self.phase = Phase::Dragging;
        }
    }

    /// Whether the pointer has said this is a drag. A press that has not travelled yet
    /// draws nothing and lands nothing.
    pub fn live(&self) -> (live: bool)
        ensures
            live == (self.stage() == Phase::Dragging),
    {
        self.phase == Phase::Dragging
    }

    /// Whether the gesture is finished: landed, or ended by a press that is no longer
    /// down. It is kept only until the click behind it arrives.
    pub fn over(&self) -> (over: bool)
        ensures
            over == (self.stage() == Phase::Spent),
    {
        self.phase == Phase::Spent
    }

    /// How far the hand has taken the row.
    pub fn delta(&self) -> (by: (i64, i64))
        ensures
            by.0 == self.at().0 - self.from().0,
            by.1 == self.at().1 - self.from().1,
    {
        (
            self.pointer.x as i64 - self.anchor.x as i64,
            self.pointer.y as i64 - self.anchor.y as i64,
        )
    }

    /// Where the grabbed row sits among `keys`, the panel's rows in the order it draws
    /// them, and every row's extent.
    ///
    /// `None` if any row was not measured, or if the grabbed row is no longer in the
    /// list: the list changed under the pointer, and the answer is to draw at rest and
    /// land nothing.
    pub fn resolve(&self, keys: &[String]) -> (found: Option<(usize, Vec<Extent>)>)
        ensures
            found is Some <==> {
                &&& place_of(spelled(keys@), self.pressed()) < keys@.len()
                &&& forall|i: int|
                    0 <= i < keys@.len() ==> #[trigger] measured(self.as_pressed(), keys@[i]@) is Some
            },
            found matches Some((at, extents)) ==> {
                &&& at == place_of(spelled(keys@), self.pressed())
                &&& extents@.len() == keys@.len()
                &&& forall|i: int|
                    0 <= i < keys@.len() ==> measured(self.as_pressed(), keys@[i]@) == Some(
                        #[trigger] extents@[i],
                    )
            },
    {
        let mut at: usize = 0;
        assert(spelled(keys@).skip(0) =~= spelled(keys@));
        while at < keys.len() && keys[at] != self.key
            invariant
                at <= keys@.len(),
                place_of(spelled(keys@), self.pressed()) == at + place_of(
                    spelled(keys@).skip(at as int),
                    self.pressed(),
                ),
            decreases keys@.len() - at,
        {
            proof {
                let rest = spelled(keys@).skip(at as int);
                assert(rest[0] == keys@[at as int]@);
                assert(rest.drop_first() =~= spelled(keys@).skip(at as int + 1));
            }
            at = at + 1;
        }
        if at == keys.len() {
            return None;
        }
        assert(spelled(keys@).skip(at as int)[0] == keys@[at as int]@);
        let mut extents: Vec<Extent> = Vec::new();
        let mut i: usize = 0;
        while i < keys.len()
            invariant
                i <= keys@.len(),
                extents@.len() == i,
                forall|j: int|
                    0 <= j < i ==> measured(self.as_pressed(), keys@[j]@) == Some(
                        #[trigger] extents@[j],
                    ),
            decreases keys@.len() - i,
        {
            match self.box_of(&keys[i]) {
                Some(extent) => extents.push(extent),
                None => {
                    assert(measured(self.as_pressed(), keys@[i as int]@) is None);
                    return None;
                },
            }
            i = i + 1;
        }
        assert(forall|j: int|
            0 <= j < keys@.len() ==> {
                &&& measured(self.as_pressed(), #[trigger] keys@[j]@) == Some(extents@[j])
            });
        Some((at, extents))
    }

    fn box_of(&self, key: &String) -> (found: Option<Extent>)
        ensures
            found == measured(self.as_pressed(), key@),
    {
        let mut i: usize = 0;
        assert(self.boxes@.skip(0) =~= self.boxes@);
        while i < self.boxes.len()
            invariant
                i <= self.boxes@.len(),
                measured(self.boxes@, key@) == measured(self.boxes@.skip(i as int), key@),
            decreases self.boxes@.len() - i,
        {
            assert(self.boxes@.skip(i as int)[0] == self.boxes@[i as int]);
            assert(self.boxes@.skip(i as int).drop_first() =~= self.boxes@.skip(i as int + 1));
            if self.boxes[i].key == *key {
                return Some(Extent { top: self.boxes[i].top, height: self.boxes[i].height });
            }
            i = i + 1;
        }
        None
    }

    /// The gesture is over and its drop has been made. **Terminal**: nothing brings a
    /// spent grab back to life, so a panel that has just committed a move cannot commit
    /// it again from the same press.
    pub fn spend(&mut self)
        ensures
            final(self).same_press(old(self)),
            final(self).at() == old(self).at(),
            final(self).stage() == Phase::Spent,
    {
        self.phase = Phase::Spent;
    }
}

/// Whether the click that has just arrived belongs to a drag that already landed. The grab is
/// cleared either way, so the next press starts clean.
pub fn claimed(grab: &mut Option<Grab>) -> (over: bool)
    ensures
        over == (*old(grab) matches Some(g) && g.stage() == Phase::Spent),
        *final(grab) is None,
{
    let over: bool = match grab {
        Some(g) => g.over(),
        None => false,
    };
    *grab = None;
    over
}

/// Where a block of rows would land, and what the rows it displaces do about it.
#[derive(Clone, Copy, PartialEq, Eq, Debug)]
pub struct Slide {
    /// The rows that travel, as an inclusive range of display indices. One row for a
    /// flat list; a whole subtree where a row can carry others.
    pub block: (usize, usize),
    /// How far a displaced row slides: the block's whole extent, gap included, so the
    /// slot it opens is exactly the size of what is going into it.
    pub step: i64,
    /// Where the block lands, counted in the rows that stay put: `gap` of them end up
    /// above it. For a flat list that is also the index to insert at once the block has
    /// been taken out.
    pub gap: usize,
}

/// The row at `k` is one of the block's.
pub open spec fn travels(block: (usize, usize), k: int) -> bool {
    block.0 <= k <= block.1
}

/// The block, taken `dy` from where it stood, leaves the row at `k` above it: its leading
/// edge, the top against rows before it and the bottom against rows after it, is past
/// that row's middle.
pub open spec fn passes(boxes: Seq<Extent>, block: (usize, usize), dy: int, k: int) -> bool {
    if k < block.0 {
        2 * (boxes[block.0 as int].top + dy) >= boxes[k].twice_middle()
    } else {
        2 * (boxes[block.1 as int].foot() + dy) > boxes[k].twice_middle()
    }
}

/// How many of the first `n` rows stay put and end up above the block.
pub open spec fn left_above(boxes: Seq<Extent>, block: (usize, usize), dy: int, n: nat) -> nat
    decreases n,
{
    if n == 0 {
        0
    } else {
        left_above(boxes, block, dy, (n - 1) as nat) + if !travels(block, n - 1) && passes(
            boxes,
            block,
            dy,
            n - 1,
        ) {
            1nat
        } else {
            0
        }
    }
}

/// The space between the first two rows, never less than nothing.
pub open spec fn row_gap(boxes: Seq<Extent>) -> int {
    if boxes.len() > 1 && boxes[1].top > boxes[0].foot() {
        boxes[1].top - boxes[0].foot()
    } else {
        0
    }
}

/// Where the row at `i` stands among the rows that stay put.
pub open spec fn rank(block: (usize, usize), i: int) -> int {
    if i < block.0 {
        i
    } else {
        i - (block.1 - block.0 + 1)
    }
}

impl Slide {
    /// The block is a range, and the slide can be run either way.
    pub open spec fn wf(self) -> bool {
        self.block.0 <= self.block.1 && self.step > i64::MIN
    }

    /// The slide of `block` taken `dy` through `boxes`: the slot is the size of the block
    /// and its gap, and it opens after the rows the block has passed.
    pub open spec fn describes(self, boxes: Seq<Extent>, block: (usize, usize), dy: int) -> bool {
        &&& self.block == block
        &&& self.step == boxes[block.1 as int].foot() - boxes[block.0 as int].top + row_gap(boxes)
        &&& self.gap == left_above(boxes, block, dy, boxes.len())
    }

    /// How far the row at `i`, one that stays put, is moved to make room: up by the slot
    /// if the block left from above it and lands below it, down if the other way round.
    pub open spec fn slides(self, i: int) -> int {
        if i > self.block.1 && rank(self.block, i) < self.gap {
            -self.step
        } else if i < self.block.0 && rank(self.block, i) >= self.gap {
            self.step as int
        } else {
            0
        }
    }

    /// Where the row at `i` lands when the move is committed.
    pub open spec fn lands(self, i: int) -> int {
        if travels(self.block, i) {
            self.gap + (i - self.block.0)
        } else if rank(self.block, i) < self.gap {
            rank(self.block, i)
        } else {
            rank(self.block, i) + (self.block.1 - self.block.0 + 1)
        }
    }

    /// Where the row at `i` is drawn while the block is taken `dy`.
    pub open spec fn drawn(self, boxes: Seq<Extent>, dy: int, i: int) -> int {
        boxes[i].top + if travels(self.block, i) {
            dy
        } else {
            self.slides(i)
        }
    }

    /// Resolve the hand's vertical travel against the rows' boxes, in display order.
    ///
    /// A row yields when the block's **leading** edge (its top going up, its bottom going
    /// down) crosses that row's centre, so the block can always be dragged clear to
    /// either end of the list.
    ///
    /// `None` if the block is not a range of `boxes`.
    pub fn resolve(boxes: &[Extent], block: (usize, usize), dy: i64) -> (slide: Option<Self>)
        ensures
            slide is Some <==> block.0 <= block.1 < boxes@.len(),
            slide matches Some(s) ==> {
                &&& s.wf()
                &&& s.describes(boxes@, block, dy as int)
            },
    {
        let (start, end) = block;
        if start > end || end >= boxes.len() {
            return None;
        }
        let block_top: i64 = boxes[start].top as i64;
        let block_bottom: i64 = boxes[end].bottom();
        // The space between two rows, so a slide closes the slot exactly rather than
        // leaving a seam the width of a margin.
        let gap_px: i64 = if boxes.len() > 1 && boxes[1].top as i64 > boxes[0].bottom() {
            boxes[1].top as i64 - boxes[0].bottom()
        } else {
            0
        };
        let top: i128 = block_top as i128 + dy as i128;
        let bottom: i128 = block_bottom as i128 + dy as i128;
        let mut gap: usize = 0;
        let mut k: usize = 0;
        while k < boxes.len()
            invariant
                k <= boxes@.len(),
                block == (start, end),
                start <= end < boxes@.len(),
                top == boxes@[start as int].top + dy,
                bottom == boxes@[end as int].foot() + dy,
                gap == left_above(boxes@, block, dy as int, k as nat),
                gap <= k,
            decreases boxes@.len() - k,
        {
            if k < start || k > end {
                let center: i128 = boxes[k].twice_center() as i128;
                let above: bool = if k < start {
                    2 * top >= center
                } else {
                    2 * bottom > center
                };
                if above {
                    gap = gap + 1;
                }
            }
            k = k + 1;
        }
        Some(Slide { block, step: block_bottom - block_top + gap_px, gap })
    }

    /// Whether the block would end up in the slot it came out of. A drag that goes
    /// nowhere must not be committed as a move.
    pub fn inert(&self) -> (inert: bool)
        ensures
            inert == (self.gap == self.block.0),
    {
        self.gap == self.block.0
    }

    /// How to draw the row at display index `i`, given where the block itself is being
    /// drawn (which is the panel's to decide: it follows the hand, and may snap sideways
    /// as well).
    pub fn motion(&self, i: usize, block: (i64, i64)) -> (motion: Motion)
        requires
            self.wf(),
        ensures
            motion.live,
            motion.lifted == travels(self.block, i as int),
            motion.lifted ==> motion.shift == block,
            !motion.lifted ==> motion.shift.0 == 0 && motion.shift.1 == self.slides(i as int),
    {
        let (start, end) = self.block;
        if start <= i && i <= end {
            return Motion { shift: block, lifted: true, live: true };
        }
        // Where this row sits among the ones that stay put, which is what `gap` is
        // counted in. Everything below the block closes up behind it.
        let k: usize = if i < start {
            i
        } else {
            i - end + start - 1
        };
        let dy: i64 = if i > end && k < self.gap {
            -self.step
        } else if i < start && k >= self.gap {
            self.step
        } else {
            0
        };
        Motion { shift: (0, dy), lifted: false, live: true }
    }
}

/// How one row is drawn while the list is in motion.
#[derive(Clone, Copy, PartialEq, Eq, Debug)]
pub struct Motion {
    /// Where to draw this row relative to where it belongs.
    pub shift: (i64, i64),
    /// In the travelling block: this row tracks the hand and slides for nobody.
    pub lifted: bool,
    /// A drag is in flight, so a row that is *not* lifted eases into its new place
    /// rather than jumping there.
    pub live: bool,
}

impl Default for Motion {
    /// The resting state: no shift, no lift, no transition.
    fn default() -> (motion: Self)
        ensures
            motion == (Motion { shift: (0, 0), lifted: false, live: false }),
    {
        Motion { shift: (0, 0), lifted: false, live: false }
    }
}

impl Motion {
    /// The transition a row moves under: it eases while a drag is in flight, unless it is
    /// the one being carried.
    pub open spec fn ease(self) -> Seq<char> {
        if self.live && !self.lifted {
            "transform 180ms ease"@
        } else {
            "none"@
        }
    }

    /// The row's own two declarations, **both of them, every render, including the ones
    /// that are "off"**: a declaration left out of a render is not cleared.
    pub fn css(self) -> (css: String)
        ensures
            css@ == "transform: translate("@ + text::pixels(self.shift.0 as int) + "px, "@ + text::pixels(
                self.shift.1 as int,
            ) + "px); transition: "@ + self.ease() + ";"@,
    {
        let mut css: String = "transform: translate(".to_owned();
        css.append(text::pixels_string(self.shift.0).as_str());
        css.append("px, ");
        css.append(text::pixels_string(self.shift.1).as_str());
        css.append("px); transition: ");
        css.append(
            if self.live && !self.lifted {
                "transform 180ms ease"
            } else {
                "none"
            },
        );
        css.append(";");
        css
    }

    /// `" dragging"` for a row in flight, to be appended to its class list.
    pub fn class(self) -> (class: &'static str)
        ensures
            class@ == if self.lifted {
                " dragging"@
            } else {
                ""@
            },
    {
        if self.lifted {
            " dragging"
        } else {
            ""
        }
    }
}

/// Rows in order, top to bottom, that do not overlap. A row may have no height.
pub open spec fn stacked(boxes: Seq<Extent>) -> bool {
    &&& forall|i: int| 0 <= i < boxes.len() ==> #[trigger] boxes[i].height >= 0
    &&& forall|i: int, j: int|
        0 <= i < j < boxes.len() ==> #[trigger] boxes[i].foot() <= #[trigger] boxes[j].top
}

/// A column of rows: they are in order, and none comes closer to the one before it than the first
/// two are to each other.
pub open spec fn column(boxes: Seq<Extent>) -> bool {
    &&& forall|i: int| 0 <= i < boxes.len() ==> #[trigger] boxes[i].height >= 0
    &&& forall|i: int, j: int|
        0 <= i < j < boxes.len() ==> #[trigger] boxes[i].foot() + row_gap(boxes)
            <= #[trigger] boxes[j].top
}

/// A column is in order.
proof fn lemma_a_column_is_stacked(boxes: Seq<Extent>)
    requires
        column(boxes),
    ensures
        stacked(boxes),
{
    assert forall|i: int, j: int| 0 <= i < j < boxes.len() implies #[trigger] boxes[i].foot()
        <= #[trigger] boxes[j].top by {
        assert(boxes[i].foot() + row_gap(boxes) <= boxes[j].top);
    }
}

/// How many of the first `n` rows stay put.
pub open spec fn staying(block: (usize, usize), n: int) -> int {
    if n <= block.0 {
        n
    } else if n <= block.1 {
        block.0 as int
    } else {
        n - (block.1 - block.0 + 1)
    }
}

/// A block never lands below more rows than stay put.
pub proof fn law_gap_is_a_place_among_the_rows_that_stay(
    boxes: Seq<Extent>,
    block: (usize, usize),
    dy: int,
    n: nat,
)
    requires
        block.0 <= block.1,
    ensures
        left_above(boxes, block, dy, n) <= staying(block, n as int),
    decreases n,
{
    if n > 0 {
        law_gap_is_a_place_among_the_rows_that_stay(boxes, block, dy, (n - 1) as nat);
    }
}

/// The further a block is taken down, the more rows are left above it, whatever the rows are.
pub proof fn law_the_gap_grows_with_the_travel(
    boxes: Seq<Extent>,
    block: (usize, usize),
    dy1: int,
    dy2: int,
    n: nat,
)
    requires
        dy1 <= dy2,
    ensures
        left_above(boxes, block, dy1, n) <= left_above(boxes, block, dy2, n),
    decreases n,
{
    if n > 0 {
        law_the_gap_grows_with_the_travel(boxes, block, dy1, dy2, (n - 1) as nat);
    }
}

/// Of rows in order, the ones a block has passed are the first so many of those that stay.
proof fn lemma_passed_rows_come_first(
    boxes: Seq<Extent>,
    block: (usize, usize),
    dy: int,
    n: nat,
)
    requires
        stacked(boxes),
        block.0 <= block.1 < boxes.len(),
        n <= boxes.len(),
    ensures
        forall|i: int|
            0 <= i < n && !travels(block, i) ==> (#[trigger] passes(boxes, block, dy, i)
                <==> rank(block, i) < left_above(boxes, block, dy, n)),
    decreases n,
{
    if n > 0 {
        let m = (n - 1) as nat;
        let count = left_above(boxes, block, dy, m);
        lemma_passed_rows_come_first(boxes, block, dy, m);
        law_gap_is_a_place_among_the_rows_that_stay(boxes, block, dy, m);
        if !travels(block, m as int) && passes(boxes, block, dy, m as int) {
            assert forall|i: int| 0 <= i < m && !travels(block, i) implies #[trigger] passes(
                boxes,
                block,
                dy,
                i,
            ) by {
                assert(boxes[i].foot() <= boxes[m as int].top);
                assert(boxes[i].height >= 0);
                assert(boxes[m as int].height >= 0);
                if i < block.0 && m > block.1 {
                    assert(boxes[i].foot() <= boxes[block.0 as int].top);
                    assert(boxes[block.1 as int].foot() <= boxes[m as int].top);
                }
            }
            if staying(block, m as int) > 0 {
                let last: int = if m <= block.0 {
                    m - 1
                } else if m <= block.1 + 1 {
                    block.0 - 1
                } else {
                    m - 1
                };
                assert(0 <= last < m && !travels(block, last));
                assert(passes(boxes, block, dy, last));
                assert(rank(block, last) == staying(block, m as int) - 1);
            }
            assert(count == staying(block, m as int));
        }
    }
}

/// The row at `j` is not so tall that a row at `i` of the block could be drawn past its top
/// before the block's leading edge is past its middle: not over twice what the block measures
/// from `i` down.
pub open spec fn short_enough(boxes: Seq<Extent>, block: (usize, usize), i: int, j: int) -> bool {
    let below = boxes[block.1 as int].foot() - boxes[i].top;
    if j > block.1 {
        boxes[j].height <= 2 * below
    } else {
        boxes[j].height <= 2 * (below + row_gap(boxes))
    }
}

impl Slide {
    /// Sorted by where they are drawn, the row at `i` comes before the one at `j`. Two that are
    /// drawn at one height, which takes a row of no height or a block on the edge of a row twice
    /// as tall, are as they were.
    pub open spec fn draws_above(self, boxes: Seq<Extent>, dy: int, i: int, j: int) -> bool {
        ||| self.drawn(boxes, dy, i) < self.drawn(boxes, dy, j)
        ||| self.drawn(boxes, dy, i) == self.drawn(boxes, dy, j) && i < j
    }
}

/// What the shifts draw is the order the gap commits: in a column, a row that lands above
/// another is drawn above it, for every block and every travel. It holds of a row of the block
/// over one that stays put as long as the latter is not over twice as tall as the block is from
/// there down, and of every other two rows whatever their heights.
pub proof fn law_what_the_shifts_draw_is_the_order_the_gap_commits(
    slide: Slide,
    boxes: Seq<Extent>,
    dy: int,
    i: int,
    j: int,
)
    requires
        column(boxes),
        slide.block.0 <= slide.block.1 < boxes.len(),
        slide.describes(boxes, slide.block, dy),
        0 <= i < boxes.len(),
        0 <= j < boxes.len(),
        slide.lands(i) < slide.lands(j),
        travels(slide.block, i) && !travels(slide.block, j) ==> short_enough(
            boxes,
            slide.block,
            i,
            j,
        ),
    ensures
        slide.draws_above(boxes, dy, i, j),
{
    let block = slide.block;
    let s = block.0 as int;
    let e = block.1 as int;
    lemma_a_column_is_stacked(boxes);
    lemma_passed_rows_come_first(boxes, block, dy, boxes.len());
    law_gap_is_a_place_among_the_rows_that_stay(boxes, block, dy, boxes.len());
    assert(travels(block, i) || (passes(boxes, block, dy, i) <==> rank(block, i) < slide.gap));
    assert(travels(block, j) || (passes(boxes, block, dy, j) <==> rank(block, j) < slide.gap));
    assert(boxes[i].height >= 0 && boxes[j].height >= 0 && boxes[s].height >= 0 && boxes[e].height
        >= 0);
    assert(s < e ==> boxes[s].foot() + row_gap(boxes) <= boxes[e].top);
    assert(i < j ==> boxes[i].foot() + row_gap(boxes) <= boxes[j].top);
    assert(j < i ==> boxes[j].foot() + row_gap(boxes) <= boxes[i].top);
    assert(i < s ==> boxes[i].foot() + row_gap(boxes) <= boxes[s].top);
    assert(s < i ==> boxes[s].foot() + row_gap(boxes) <= boxes[i].top);
    assert(j < s ==> boxes[j].foot() + row_gap(boxes) <= boxes[s].top);
    assert(s < j ==> boxes[s].foot() + row_gap(boxes) <= boxes[j].top);
    assert(i < e ==> boxes[i].foot() + row_gap(boxes) <= boxes[e].top);
    assert(e < i ==> boxes[e].foot() + row_gap(boxes) <= boxes[i].top);
    assert(j < e ==> boxes[j].foot() + row_gap(boxes) <= boxes[e].top);
    assert(e < j ==> boxes[e].foot() + row_gap(boxes) <= boxes[j].top);
}

/// The order a commit makes: the rows that stay, with the block put back after `gap` of
/// them.
pub open spec fn committed(n: nat, block: (usize, usize), gap: int) -> Seq<int> {
    let rest = Seq::new(block.0 as nat, |i: int| i) + Seq::new(
        (n - block.1 - 1) as nat,
        |i: int| block.1 + 1 + i,
    );
    rest.take(gap) + Seq::new((block.1 - block.0 + 1) as nat, |i: int| block.0 + i) + rest.skip(gap)
}

/// `lands` is that order: every row is found where it lands, and nothing else is there.
pub proof fn law_a_row_is_found_where_it_lands(slide: Slide, n: nat, i: int)
    requires
        slide.block.0 <= slide.block.1 < n,
        slide.gap <= staying(slide.block, n as int),
        0 <= i < n,
    ensures
        committed(n, slide.block, slide.gap as int).len() == n,
        0 <= slide.lands(i) < n,
        committed(n, slide.block, slide.gap as int)[slide.lands(i)] == i,
{
}

/// Rows of one height at one spacing, neither of them less than nothing.
pub open spec fn even(boxes: Seq<Extent>, height: int, spacing: int) -> bool {
    &&& height >= 0
    &&& spacing >= 0
    &&& forall|i: int| 0 <= i < boxes.len() ==> #[trigger] boxes[i].height == height
    &&& forall|i: int|
        0 <= i < boxes.len() ==> #[trigger] boxes[i].top == boxes[0].top + i * (height + spacing)
}

/// Even rows are a column at their own spacing.
proof fn lemma_even_rows_are_a_column(boxes: Seq<Extent>, height: int, spacing: int)
    requires
        even(boxes, height, spacing),
    ensures
        column(boxes),
        boxes.len() > 1 ==> row_gap(boxes) == spacing,
{
    if boxes.len() > 1 {
        assert(boxes[1].top == boxes[0].top + 1 * (height + spacing));
        assert(boxes[0].height == height);
    }
    assert forall|i: int, j: int| 0 <= i < j < boxes.len() implies #[trigger] boxes[i].foot()
        + row_gap(boxes) <= #[trigger] boxes[j].top by {
        assert(boxes[i].top == boxes[0].top + i * (height + spacing));
        assert(boxes[j].top == boxes[0].top + j * (height + spacing));
        assert(boxes[i].height == height);
        assert((i + 1) * (height + spacing) <= j * (height + spacing)) by (nonlinear_arith)
            requires
                i + 1 <= j,
                0 <= height + spacing,
        ;
        assert((i + 1) * (height + spacing) == i * (height + spacing) + height + spacing)
            by (nonlinear_arith);
    }
}

/// Of even rows, whatever their height and spacing, sorting them by where they are drawn gives
/// the order the gap commits, for every block and every travel.
pub proof fn law_even_rows_are_drawn_in_the_order_they_commit(
    slide: Slide,
    boxes: Seq<Extent>,
    height: int,
    spacing: int,
    dy: int,
    p: int,
    q: int,
)
    requires
        even(boxes, height, spacing),
        slide.block.0 <= slide.block.1 < boxes.len(),
        slide.describes(boxes, slide.block, dy),
        0 <= p < q < boxes.len(),
    ensures
        ({
            let order = committed(boxes.len(), slide.block, slide.gap as int);
            &&& order.len() == boxes.len()
            &&& 0 <= order[p] < boxes.len()
            &&& 0 <= order[q] < boxes.len()
            &&& slide.draws_above(boxes, dy, order[p], order[q])
        }),
{
    let block = slide.block;
    let order = committed(boxes.len(), block, slide.gap as int);
    lemma_even_rows_are_a_column(boxes, height, spacing);
    law_gap_is_a_place_among_the_rows_that_stay(boxes, block, dy, boxes.len());
    law_a_row_is_found_where_it_lands(slide, boxes.len(), block.0 as int);
    let i = order[p];
    let j = order[q];
    assert(slide.lands(i) == p && slide.lands(j) == q);
    if travels(block, i) && !travels(block, j) {
        assert(boxes[j].height == height);
        assert(boxes[block.1 as int].height == height);
        assert(i < block.1 ==> boxes[i].foot() + row_gap(boxes) <= boxes[block.1 as int].top);
        assert(boxes[i].height == height);
    }
    law_what_the_shifts_draw_is_the_order_the_gap_commits(slide, boxes, dy, i, j);
}

/// Displaced rows move by exactly one slot, and only the ones between where the block was
/// and where it is going move at all.
pub proof fn law_only_the_rows_the_block_crossed_slide(slide: Slide, i: int)
    requires
        slide.block.0 <= slide.block.1,
        !travels(slide.block, i),
        slide.step != 0,
    ensures
        slide.slides(i) == 0 <==> slide.lands(i) == i,
        slide.slides(i) == -slide.step <==> slide.lands(i) < i,
        slide.slides(i) == slide.step <==> slide.lands(i) > i,
{
}

/// A drag that goes nowhere lands where it started, of any rows in order.
pub proof fn law_no_travel_is_inert(slide: Slide, boxes: Seq<Extent>)
    requires
        stacked(boxes),
        slide.block.0 <= slide.block.1 < boxes.len(),
        slide.describes(boxes, slide.block, 0),
    ensures
        slide.gap == slide.block.0,
{
    let block = slide.block;
    assert forall|k: int| 0 <= k < boxes.len() && !travels(block, k) implies (#[trigger] passes(
        boxes,
        block,
        0,
        k,
    ) <==> rank(block, k) < block.0) by {
        assert(boxes[k].height >= 0);
        assert(k < block.0 ==> boxes[k].foot() <= boxes[block.0 as int].top);
        assert(block.1 < k ==> boxes[block.1 as int].foot() <= boxes[k].top);
    }
    lemma_settles_at(boxes, block, 0, block.0 as int);
}

/// A block can always be dragged clear to either end of the list: past the last row every row is
/// above it, before the first none is. Edge on edge is far enough, but against a row of no height,
/// whose middle is its edge.
pub proof fn law_either_end_can_be_reached(slide: Slide, boxes: Seq<Extent>, dy: int)
    requires
        stacked(boxes),
        slide.block.0 <= slide.block.1 < boxes.len(),
        slide.describes(boxes, slide.block, dy),
    ensures
        ({
            let foot = boxes[slide.block.1 as int].foot() + dy;
            foot > boxes.last().foot() || foot == boxes.last().foot() && (boxes.last().height > 0
                || slide.block.1 == boxes.len() - 1)
        }) ==> slide.gap == staying(slide.block, boxes.len() as int),
        ({
            let top = boxes[slide.block.0 as int].top + dy;
            top < boxes.first().top || top == boxes.first().top && (boxes.first().height > 0
                || slide.block.0 == 0)
        }) ==> slide.gap == 0,
{
    let block = slide.block;
    let n = boxes.len() as int;
    let foot = boxes[block.1 as int].foot() + dy;
    let top = boxes[block.0 as int].top + dy;
    if foot > boxes.last().foot() || foot == boxes.last().foot() && (boxes.last().height > 0
        || block.1 == n - 1) {
        assert forall|k: int| 0 <= k < n && !travels(block, k) implies #[trigger] passes(
            boxes,
            block,
            dy,
            k,
        ) by {
            assert(boxes[k].height >= 0);
            assert(k < n - 1 ==> boxes[k].foot() <= boxes[n - 1].top);
            assert(boxes[n - 1].height >= 0);
            assert(block.1 < n - 1 ==> boxes[block.1 as int].foot() <= boxes[n - 1].top);
            assert(k < block.0 ==> boxes[k].foot() <= boxes[block.0 as int].top);
        }
        lemma_settles_at(boxes, block, dy, staying(block, n));
    }
    if top < boxes.first().top || top == boxes.first().top && (boxes.first().height > 0 || block.0
        == 0) {
        assert forall|k: int| 0 <= k < n && !travels(block, k) implies !#[trigger] passes(
            boxes,
            block,
            dy,
            k,
        ) by {
            assert(boxes[k].height >= 0);
            assert(0 < k ==> boxes[0].foot() <= boxes[k].top);
            assert(boxes[0].height >= 0);
            assert(0 < block.0 ==> boxes[0].foot() <= boxes[block.0 as int].top);
            assert(block.1 < k ==> boxes[block.1 as int].foot() <= boxes[k].top);
        }
        lemma_settles_at(boxes, block, dy, 0);
    }
}

/// Where the rows passed are exactly those of rank under `g`, the gap is `g`.
proof fn lemma_settles_at(boxes: Seq<Extent>, block: (usize, usize), dy: int, g: int)
    requires
        stacked(boxes),
        block.0 <= block.1 < boxes.len(),
        0 <= g <= staying(block, boxes.len() as int),
        forall|k: int|
            0 <= k < boxes.len() && !travels(block, k) ==> (#[trigger] passes(boxes, block, dy, k)
                <==> rank(block, k) < g),
    ensures
        left_above(boxes, block, dy, boxes.len()) == g,
{
    let n = boxes.len();
    let count = left_above(boxes, block, dy, n);
    lemma_passed_rows_come_first(boxes, block, dy, n);
    law_gap_is_a_place_among_the_rows_that_stay(boxes, block, dy, n);
    let lower = if count < g {
        count as int
    } else {
        g
    };
    let row = if lower < block.0 {
        lower
    } else {
        lower + (block.1 - block.0 + 1)
    };
    if count != g {
        assert(rank(block, row) == lower);
        assert(0 <= row < n && !travels(block, row));
        assert(passes(boxes, block, dy, row) <==> lower < count);
        assert(passes(boxes, block, dy, row) <==> lower < g);
    }
}

/// A row yields at the line halfway down it. Of rows in order, one above the block is left above it
/// exactly while the block's top, where the hand has taken it, is at that line or below, and one
/// below the block is left above it exactly once the block's foot is beyond that line.
pub proof fn law_a_row_yields_at_its_middle(slide: Slide, boxes: Seq<Extent>, dy: int, k: int)
    requires
        forall|i: int| 0 <= i < boxes.len() ==> (#[trigger] boxes[i]).height >= 0,
        forall|i: int, j: int|
            #![trigger boxes[i], boxes[j]]
            0 <= i < j < boxes.len() ==> boxes[i].top + boxes[i].height <= boxes[j].top,
        slide.block.0 <= slide.block.1 < boxes.len(),
        slide.describes(boxes, slide.block, dy),
        0 <= k < boxes.len(),
    ensures
        ({
            let first = boxes[slide.block.0 as int];
            let last = boxes[slide.block.1 as int];
            let row = boxes[k];
            let carried = slide.block.1 - slide.block.0 + 1;
            &&& k < slide.block.0 ==> (k < slide.gap <==> 2 * (first.top + dy) >= 2 * row.top
                + row.height)
            &&& k > slide.block.1 ==> (k - carried < slide.gap <==> 2 * (last.top + last.height + dy)
                > 2 * row.top + row.height)
            &&& slide.gap <= boxes.len() - carried
        }),
{
    let block = slide.block;
    assert(stacked(boxes));
    lemma_passed_rows_come_first(boxes, block, dy, boxes.len());
    law_gap_is_a_place_among_the_rows_that_stay(boxes, block, dy, boxes.len());
    if !travels(block, k) {
        assert(passes(boxes, block, dy, k) <==> rank(block, k) < slide.gap);
    }
}

/// A drag that takes the block's foot no further than halfway down the next row, and its top no
/// higher than halfway up the row before, is no move.
pub proof fn law_short_of_a_middle_is_inert(slide: Slide, boxes: Seq<Extent>, dy: int)
    requires
        forall|i: int| 0 <= i < boxes.len() ==> (#[trigger] boxes[i]).height >= 0,
        forall|i: int, j: int|
            #![trigger boxes[i], boxes[j]]
            0 <= i < j < boxes.len() ==> boxes[i].top + boxes[i].height <= boxes[j].top,
        slide.block.0 <= slide.block.1 < boxes.len(),
        slide.describes(boxes, slide.block, dy),
        ({
            let first = boxes[slide.block.0 as int];
            let last = boxes[slide.block.1 as int];
            let before = boxes[slide.block.0 - 1];
            let after = boxes[slide.block.1 + 1];
            &&& slide.block.0 > 0 ==> 2 * (first.top + dy) >= 2 * before.top + before.height
            &&& slide.block.1 + 1 < boxes.len() ==> 2 * (last.top + last.height + dy) <= 2
                * after.top + after.height
        }),
    ensures
        slide.gap == slide.block.0,
{
    if slide.block.0 > 0 {
        law_a_row_yields_at_its_middle(slide, boxes, dy, slide.block.0 - 1);
    }
    if slide.block.1 + 1 < boxes.len() {
        law_a_row_yields_at_its_middle(slide, boxes, dy, slide.block.1 + 1);
    } else {
        law_a_row_yields_at_its_middle(slide, boxes, dy, slide.block.0 as int);
    }
}

/// A slot is the size of what goes into it: of rows of one height at one spacing, each that stays
/// put is drawn exactly where a row stood, the one whose place it lands in.
pub proof fn law_even_rows_close_up(
    slide: Slide,
    boxes: Seq<Extent>,
    height: int,
    spacing: int,
    dy: int,
    i: int,
)
    requires
        even(boxes, height, spacing),
        slide.block.0 <= slide.block.1 < boxes.len(),
        slide.describes(boxes, slide.block, dy),
        0 <= i < boxes.len(),
        !travels(slide.block, i),
    ensures
        0 <= slide.lands(i) < boxes.len(),
        boxes[i].top + slide.slides(i) == boxes[slide.lands(i)].top,
        slide.step == (slide.block.1 - slide.block.0 + 1) * (height + spacing),
{
    let (s, e) = (slide.block.0 as int, slide.block.1 as int);
    let pitch = height + spacing;
    lemma_even_rows_are_a_column(boxes, height, spacing);
    law_gap_is_a_place_among_the_rows_that_stay(boxes, slide.block, dy, boxes.len());
    law_a_row_is_found_where_it_lands(slide, boxes.len(), i);
    let j = slide.lands(i);
    assert(boxes[i].top == boxes[0].top + i * pitch);
    assert(boxes[j].top == boxes[0].top + j * pitch);
    assert(boxes[s].top == boxes[0].top + s * pitch);
    assert(boxes[e].top == boxes[0].top + e * pitch);
    assert(boxes[e].height == height);
    assert(e * pitch - s * pitch + pitch == (e - s + 1) * pitch) by (nonlinear_arith);
    assert(i * pitch - (e - s + 1) * pitch == (i - (e - s + 1)) * pitch) by (nonlinear_arith);
    assert(i * pitch + (e - s + 1) * pitch == (i + (e - s + 1)) * pitch) by (nonlinear_arith);
}

/// A row's place is the first that wears its identity, and past the end where none does.
pub proof fn law_a_row_s_place_is_the_first_that_wears_its_key(
    keys: Seq<Seq<char>>,
    key: Seq<char>,
)
    ensures
        place_of(keys, key) <= keys.len(),
        place_of(keys, key) < keys.len() ==> keys[place_of(keys, key) as int] == key,
        forall|j: int| 0 <= j < place_of(keys, key) ==> #[trigger] keys[j] != key,
    decreases keys.len(),
{
    if keys.len() > 0 && keys[0] != key {
        let rest = keys.drop_first();
        law_a_row_s_place_is_the_first_that_wears_its_key(rest, key);
        assert forall|j: int| 0 <= j < place_of(keys, key) implies #[trigger] keys[j] != key by {
            if j > 0 {
                assert(rest[j - 1] == keys[j]);
            }
        }
    }
}

/// What is measured for a key is the first box that wears it, as it was measured.
pub proof fn law_a_row_is_measured_by_the_first_box_that_wears_its_key(
    boxes: Seq<RowBox>,
    key: Seq<char>,
    i: int,
)
    requires
        0 <= i < boxes.len(),
        boxes[i].key@ == key,
        forall|j: int| 0 <= j < i ==> (#[trigger] boxes[j]).key@ != key,
    ensures
        measured(boxes, key) matches Some(e) && e.top == boxes[i].top && e.height
            == boxes[i].height,
    decreases i,
{
    if i > 0 {
        let rest = boxes.drop_first();
        assert(boxes[0].key@ != key);
        assert forall|j: int| 0 <= j < i - 1 implies (#[trigger] rest[j]).key@ != key by {
            assert(rest[j] == boxes[j + 1]);
        }
        law_a_row_is_measured_by_the_first_box_that_wears_its_key(rest, key, i - 1);
    }
}

/// Nothing is measured for a key that no box wears.
pub proof fn law_a_row_that_was_not_there_is_not_measured(boxes: Seq<RowBox>, key: Seq<char>)
    requires
        forall|j: int| 0 <= j < boxes.len() ==> (#[trigger] boxes[j]).key@ != key,
    ensures
        measured(boxes, key) is None,
    decreases boxes.len(),
{
    if boxes.len() > 0 {
        let rest = boxes.drop_first();
        assert(boxes[0].key@ != key);
        assert forall|j: int| 0 <= j < rest.len() implies (#[trigger] rest[j]).key@ != key by {
            assert(rest[j] == boxes[j + 1]);
        }
        law_a_row_that_was_not_there_is_not_measured(rest, key);
    }
}

/// How far apart two places are does not depend on which of them is named first, and is what must
/// be added to the lesser to reach the greater. A press becomes a drag past four pixels of it.
pub proof fn law_a_distance_is_the_same_from_either_end(a: int, by: int)
    requires
        0 <= by,
    ensures
        apart(a, a + by) == by,
        apart(a + by, a) == by,
        GRAB_SLOP == 4 * PX,
{
}

/// Two grabs are of one press where the row, the boxes and the place of it are all the same.
pub proof fn law_one_press_is_one_row_in_one_list_at_one_place(a: Grab, b: Grab)
    ensures
        a.same_press(&b) <==> a.pressed() == b.pressed() && a.as_pressed() == b.as_pressed()
            && a.from() == b.from(),
{
}

/// A slide is of the block that was asked for, and its slot is what that block measures from its
/// top to its foot, and the space between the first two rows where there is any.
pub proof fn law_a_slot_is_the_block_and_its_spacing(
    slide: Slide,
    boxes: Seq<Extent>,
    block: (usize, usize),
    dy: int,
)
    requires
        slide.describes(boxes, block, dy),
    ensures
        slide.block == block,
        ({
            let first = boxes[block.0 as int];
            let last = boxes[block.1 as int];
            let space = if boxes.len() > 1 {
                boxes[1].top - (boxes[0].top + boxes[0].height)
            } else {
                0
            };
            &&& space >= 0 ==> slide.step == last.top + last.height - first.top + space
            &&& space < 0 ==> slide.step == last.top + last.height - first.top
        }),
{
}

/// A row eases while a drag is in flight and it is not the one carried, and at no other time.
pub proof fn law_only_a_row_that_makes_room_eases(motion: Motion)
    ensures
        motion.live && !motion.lifted ==> motion.ease() == "transform 180ms ease"@,
        !motion.live || motion.lifted ==> motion.ease() == "none"@,
{
}

/// A row of the block goes with the hand, and every other keeps its column: one that the block left
/// from above moves up by the slot where it ends up over it, one that the block left from below
/// moves down where it ends up under it, and the rest stand.
pub proof fn law_a_row_moves_only_to_make_room(
    slide: Slide,
    i: usize,
    hand: (i64, i64),
    motion: Motion,
)
    requires
        slide.wf(),
        call_ensures(Slide::motion, (&slide, i, hand), motion),
    ensures
        slide.block.0 <= i <= slide.block.1 ==> motion.lifted && motion.shift == hand,
        i < slide.block.0 ==> !motion.lifted && motion.shift.0 == 0 && motion.shift.1 == if i
            < slide.gap {
            0
        } else {
            slide.step as int
        },
        i > slide.block.1 ==> !motion.lifted && motion.shift.0 == 0 && motion.shift.1 == if i - (
        slide.block.1 - slide.block.0 + 1) < slide.gap {
            -slide.step
        } else {
            0
        },
{
}

} // verus!
