//! The frame: its bottom bar, its "add" button, and its handles on the canvas.
//!
//! A frame is a matte layer, and is being composed exactly while it is the selected layer.
//! It clips nothing: paint runs past it, and the matte covers the overshoot.
use crate::amount;
use crate::amount::amount;
use crate::model;
use crate::model::{DocCommand, LayerId, LayerInfo, Matte, Point, Rect, Srgb};
use crate::panels::color;
use crate::panels::color::Rgb;
use crate::text;
use vstd::prelude::*;

verus! {

/// The frame being composed, if the **selected layer** is one.
pub fn selected_frame<'a>(layers: &'a Vec<LayerInfo>, active: LayerId) -> (composed: Option<
    (&'a LayerInfo, Matte),
>)
    ensures
        composed is Some <==> (model::layer_of(layers@, active) matches Some(l) && l.matte is Some),
        composed matches Some((l, matte)) ==> {
            &&& model::layer_of(layers@, active) == Some(*l)
            &&& l.matte == Some(matte)
        },
{
    match model::selected(layers, active) {
        None => None,
        Some(l) => match l.matte {
            None => None,
            Some(m) => Some((l, m)),
        },
    }
}

/// Stop composing: the layer to select instead is the topmost one that can be painted on,
/// since a frame is only "deselected" by selecting something else.
pub fn done_composing(layers: &Vec<LayerInfo>) -> (select: Option<LayerId>)
    ensures
        select == model::topmost_paint(layers@),
{
    model::topmost_paintable(layers)
}

/// The topmost matte.
pub open spec fn topmost_matte(layers: Seq<LayerInfo>) -> Option<LayerId>
    decreases layers.len(),
{
    if layers.len() == 0 {
        None
    } else if layers.last().matte is Some {
        Some(layers.last().id)
    } else {
        topmost_matte(layers.drop_last())
    }
}

/// The frame that has just been added, to be selected: it goes on top, so it is the topmost
/// matte.
pub fn minted(layers: &Vec<LayerInfo>) -> (id: Option<LayerId>)
    ensures
        id == topmost_matte(layers@),
{
    let mut i: usize = layers.len();
    assert(layers@.take(i as int) =~= layers@);
    while i > 0
        invariant
            i <= layers@.len(),
            topmost_matte(layers@) == topmost_matte(layers@.take(i as int)),
        decreases i,
    {
        assert(layers@.take(i as int).drop_last() =~= layers@.take(i as int - 1));
        if layers[i - 1].matte.is_some() {
            return Some(layers[i - 1].id);
        }
        i = i - 1;
    }
    None
}

// --- sizes ---

/// The tiles that hold paint, both ends included.
#[derive(Clone, Copy, PartialEq, Eq, Structural, Debug)]
pub struct TileRange {
    pub min_x: i32,
    pub min_y: i32,
    pub max_x: i32,
    pub max_y: i32,
}

/// The bounds of the tiles from `r.min` to `r.max`, each `tile` pixels across.
pub open spec fn tiles_rect(r: TileRange, tile: u16) -> Rect {
    Rect {
        min: Point { x: (r.min_x * tile * 64) as i64, y: (r.min_y * tile * 64) as i64 },
        max: Point {
            x: ((r.max_x + 1) * tile * 64) as i64,
            y: ((r.max_y + 1) * tile * 64) as i64,
        },
    }
}

proof fn lemma_tile_fits(n: int, tile: u16)
    requires
        i32::MIN <= n <= i32::MAX + 1,
    ensures
        i64::MIN <= n * tile * 64 <= i64::MAX,
        i64::MIN <= n * tile <= i64::MAX,
{
    assert(-2147483648 * 65535 <= n * tile <= 2147483648 * 65535) by (nonlinear_arith)
        requires
            -2147483648 <= n <= 2147483648,
            0 <= tile <= 65535,
    ;
}

/// The painted content's bounds on the canvas, to the tiles that hold paint.
pub fn content_rect(painted: Option<TileRange>, tile: u16) -> (rect: Option<Rect>)
    ensures
        rect == match painted {
            Some(r) => Some(tiles_rect(r, tile)),
            None => None,
        },
{
    match painted {
        None => None,
        Some(r) => {
            proof {
                lemma_tile_fits(r.min_x as int, tile);
                lemma_tile_fits(r.min_y as int, tile);
                lemma_tile_fits(r.max_x + 1, tile);
                lemma_tile_fits(r.max_y + 1, tile);
            }
            let t: i64 = tile as i64;
            Some(
                Rect {
                    min: Point { x: r.min_x as i64 * t * 64, y: r.min_y as i64 * t * 64 },
                    max: Point {
                        x: (r.max_x as i64 + 1) * t * 64,
                        y: (r.max_y as i64 + 1) * t * 64,
                    },
                },
            )
        },
    }
}

/// The rectangle a new frame takes: the painted content if there is any, otherwise what the
/// viewport shows, and a square about the origin where there is no document to look at.
pub fn default_rect(document: bool, painted: Option<TileRange>, tile: u16, view: Rect) -> (rect:
    Rect)
    ensures
        rect == if !document {
            Rect {
                min: Point { x: -16384i64, y: -16384i64 },
                max: Point { x: 16384, y: 16384 },
            }
        } else {
            match painted {
                Some(r) => tiles_rect(r, tile),
                None => view,
            }
        },
{
    if !document {
        return Rect {
            min: Point { x: -16384, y: -16384 },
            max: Point { x: 16384, y: 16384 },
        };
    }
    match content_rect(painted, tile) {
        Some(rect) => rect,
        None => view,
    }
}

/// The channels of what a new frame is covered with, six hundredths and seven, by their bits.
pub const MATTE_DARK: u32 = 0x3d75_c28f;

pub const MATTE_BLUE: u32 = 0x3d8f_5c29;

/// What a new frame is covered with: near black, so that what it holds reads as a piece.
pub open spec fn default_matte() -> Srgb {
    Srgb { r: amount(MATTE_DARK), g: amount(MATTE_DARK), b: amount(MATTE_BLUE) }
}

/// Add a frame. It goes over everything, and marks the piece without clipping it.
pub fn add_frame(document: bool, painted: Option<TileRange>, tile: u16, view: Rect) -> (edit:
    DocCommand)
    ensures
        edit matches DocCommand::AddFrame { rect, color } && color == default_matte() && rect
            == if !document {
            Rect {
                min: Point { x: -16384i64, y: -16384i64 },
                max: Point { x: 16384, y: 16384 },
            }
        } else {
            match painted {
                Some(r) => tiles_rect(r, tile),
                None => view,
            }
        },
{
    DocCommand::AddFrame {
        rect: default_rect(document, painted, tile, view),
        color: Srgb { r: amount(MATTE_DARK), g: amount(MATTE_DARK), b: amount(MATTE_BLUE) },
    }
}

/// The aspects on offer, as width to height.
#[derive(Clone, Copy, PartialEq, Eq, Structural, Debug)]
pub enum Aspect {
    Square,
    FourFive,
    ThreeTwo,
    SixteenNine,
    /// A ratio that is none of them: dragging a handle lands on one, and the control says
    /// so rather than lie about the nearest.
    Custom,
}

impl Aspect {
    /// The two sides of the ratio.
    pub open spec fn sides(self) -> (int, int) {
        match self {
            Aspect::Square => (1, 1),
            Aspect::FourFive => (4, 5),
            Aspect::ThreeTwo => (3, 2),
            Aspect::SixteenNine => (16, 9),
            Aspect::Custom => (0, 1),
        }
    }

    pub open spec fn words(self) -> Seq<char> {
        match self {
            Aspect::Square => "1:1"@,
            Aspect::FourFive => "4:5"@,
            Aspect::ThreeTwo => "3:2"@,
            Aspect::SixteenNine => "16:9"@,
            Aspect::Custom => "Custom"@,
        }
    }

    /// The ratio at single precision, in parts of two to the power of twenty-four.
    pub open spec fn ratio(self) -> int {
        amount::quotient(self.sides().0 as nat, self.sides().1 as nat) as int
    }

    /// `w` to `h` is this ratio to within half a hundredth of it, at any size. The tolerance at
    /// single precision takes in the same whole parts.
    pub open spec fn fits(self, w: int, h: int) -> bool {
        self != Aspect::Custom && near(ratio_of(w, h), self.ratio())
    }

    pub fn label(self) -> (words: &'static str)
        ensures
            words@ == self.words(),
    {
        match self {
            Aspect::Square => "1:1",
            Aspect::FourFive => "4:5",
            Aspect::ThreeTwo => "3:2",
            Aspect::SixteenNine => "16:9",
            Aspect::Custom => "Custom",
        }
    }

    /// The aspect that the drop-down's value names: "Custom" could not mean anything, since
    /// there is no ratio to reshape to.
    pub fn named(value: &str) -> (aspect: Option<Aspect>)
        ensures
            aspect == if value@ == "1:1"@ {
                Some(Aspect::Square)
            } else if value@ == "4:5"@ {
                Some(Aspect::FourFive)
            } else if value@ == "3:2"@ {
                Some(Aspect::ThreeTwo)
            } else if value@ == "16:9"@ {
                Some(Aspect::SixteenNine)
            } else {
                None
            },
    {
        if text::same(value, "1:1") {
            Some(Aspect::Square)
        } else if text::same(value, "4:5") {
            Some(Aspect::FourFive)
        } else if text::same(value, "3:2") {
            Some(Aspect::ThreeTwo)
        } else if text::same(value, "16:9") {
            Some(Aspect::SixteenNine)
        } else {
            None
        }
    }

    /// Whether a ratio, in parts of two to the power of twenty-four, is this one.
    fn holds(self, ratio: i128) -> (fits: bool)
        requires
            -0x1000_0000_0000_0000_0000_0000_0000 <= ratio <= 0x1000_0000_0000_0000_0000_0000_0000,
        ensures
            fits == (self != Aspect::Custom && near(ratio as int, self.ratio())),
    {
        match self {
            Aspect::Square => is_near(ratio, 16777216),
            Aspect::FourFive => is_near(ratio, 13421773),
            Aspect::ThreeTwo => is_near(ratio, 25165824),
            Aspect::SixteenNine => is_near(ratio, 29826162),
            Aspect::Custom => false,
        }
    }
}

/// The first number is within half a hundredth of the second, which is not negative.
pub open spec fn near(a: int, b: int) -> bool {
    200 * (if a < b {
        b - a
    } else {
        a - b
    }) <= b
}

fn is_near(a: i128, b: i128) -> (yes: bool)
    requires
        -0x1000_0000_0000_0000_0000_0000_0000 <= a <= 0x1000_0000_0000_0000_0000_0000_0000,
        0 <= b <= 0x1000_0000,
    ensures
        yes == near(a as int, b as int),
{
    let apart: i128 = if a < b {
        b - a
    } else {
        a - b
    };
    200 * apart <= b
}

/// The ratio of two lengths at single precision, each of them at single precision, in parts of
/// two to the power of twenty-four.
pub open spec fn ratio_of(w: int, h: int) -> int {
    let q = amount::quotient(amount::single(amount::length(w)), amount::single(amount::length(h))) as int;
    if (w < 0) == (h < 0) {
        q
    } else {
        -q
    }
}

/// The preset that a frame's ratio matches, or none. The tolerance is relative, so it holds
/// at any size; loose enough that a handle dragged to what looks like sixteen to nine reads
/// as that.
pub open spec fn aspect_of(w: int, h: int) -> Aspect {
    if h == 0 {
        Aspect::Custom
    } else if Aspect::Square.fits(w, h) {
        Aspect::Square
    } else if Aspect::FourFive.fits(w, h) {
        Aspect::FourFive
    } else if Aspect::ThreeTwo.fits(w, h) {
        Aspect::ThreeTwo
    } else if Aspect::SixteenNine.fits(w, h) {
        Aspect::SixteenNine
    } else {
        Aspect::Custom
    }
}

pub fn matched_aspect(w: i64, h: i64) -> (aspect: Aspect)
    ensures
        aspect == aspect_of(w as int, h as int),
{
    if h == 0 {
        return Aspect::Custom;
    }
    let across: u128 = amount::at_single(amount::magnitude(w));
    let down: u128 = amount::at_single(amount::magnitude(h));
    proof {
        amount::lemma_single(amount::length(h as int));
    }
    let q: u128 = amount::divided(across, down);
    let ratio: i128 = if (w < 0) == (h < 0) {
        q as i128
    } else {
        -(q as i128)
    };
    if Aspect::Square.holds(ratio) {
        Aspect::Square
    } else if Aspect::FourFive.holds(ratio) {
        Aspect::FourFive
    } else if Aspect::ThreeTwo.holds(ratio) {
        Aspect::ThreeTwo
    } else if Aspect::SixteenNine.holds(ratio) {
        Aspect::SixteenNine
    } else {
        Aspect::Custom
    }
}

/// A frame cut exactly to a preset reads as that preset, at any size.
pub proof fn law_an_exact_frame_reads_as_its_preset(aspect: Aspect, scale: int)
    requires
        aspect != Aspect::Custom,
        scale > 0,
    ensures
        aspect_of(aspect.sides().0 * scale, aspect.sides().1 * scale) == aspect,
{
    let (p, q) = aspect.sides();
    let w = p * scale;
    let h = q * scale;
    assert(w > 0 && h > 0) by (nonlinear_arith)
        requires
            p > 0,
            q > 0,
            scale > 0,
            w == p * scale,
            h == q * scale,
    ;
    let across = amount::single(w as nat);
    let down = amount::single(h as nat);
    amount::lemma_single(w as nat);
    amount::lemma_single(h as nat);
    let r = amount::quotient(across, down);
    assert(near(r as int, aspect.ratio())) by {
        if aspect == Aspect::Square {
            assert(w == h);
            amount::lemma_nearest((across * 0x80_0000) as nat, down);
            let n = amount::nearest_even((across * 0x80_0000) as nat, down);
            assert(n == 0x80_0000) by (nonlinear_arith)
                requires
                    across == down,
                    down > 0,
                    2 * (across * 0x80_0000) <= 2 * (n * down) + down,
                    2 * (n * down) <= 2 * (across * 0x80_0000) + down,
            ;
        } else if aspect == Aspect::FourFive {
            assert(w == 4 * scale && h == 5 * scale);
            amount::lemma_nearest((across * 0x100_0000) as nat, down);
            lemma_between(r as int, down as int, 13354665, 13488881);
        } else if aspect == Aspect::ThreeTwo {
            assert(w == 3 * scale && h == 2 * scale);
            amount::lemma_nearest((across * 0x80_0000) as nat, down);
            lemma_between((r / 2) as int, down as int, 12519998, 12645826);
        } else {
            assert(w == 16 * scale && h == 9 * scale);
            amount::lemma_nearest((across * 0x80_0000) as nat, down);
            lemma_between((r / 2) as int, down as int, 14838516, 14987646);
        }
    }
}

/// A whole number is within two others where its multiple is short of the next beyond them.
proof fn lemma_between(n: int, d: int, low: int, high: int)
    requires
        d > 0,
        (low - 1) * d < n * d < (high + 1) * d,
    ensures
        low <= n <= high,
{
    assert(low <= n <= high) by (nonlinear_arith)
        requires
            d > 0,
            (low - 1) * d < n * d < (high + 1) * d,
    ;
}

/// A length in whole pixels at single precision, halves going away from zero.
pub open spec fn whole_pixels(units: int) -> int {
    let px = (amount::single(amount::length(units)) + 32) / 64;
    if units < 0 {
        -px
    } else {
        px as int
    }
}

/// A half of the size readout: a length in whole pixels.
pub fn rounded(units: i64) -> (px: i64)
    ensures
        px == whole_pixels(units as int),
{
    let px: u128 = (amount::at_single(amount::magnitude(units)) + 32) / 64;
    if units < 0 {
        -(px as i64)
    } else {
        px as i64
    }
}

// --- the colour well ---

/// The byte that two hexadecimal digits spell.
pub open spec fn pair_value(a: char, b: char) -> Option<u8> {
    if color::is_hex(a) && color::is_hex(b) {
        Some((color::hex_value(a) * 16 + color::hex_value(b)) as u8)
    } else {
        None
    }
}

/// The colour that a colour input's value spells: `#rrggbb` and nothing else.
pub open spec fn input_color(s: Seq<char>) -> Option<Rgb> {
    if s.len() != 7 || s[0] != '#' {
        None
    } else {
        match (pair_value(s[1], s[2]), pair_value(s[3], s[4]), pair_value(s[5], s[6])) {
            (Some(r), Some(g), Some(b)) => Some(Rgb { r, g, b }),
            _ => None,
        }
    }
}

fn pair_of(a: char, b: char) -> (v: Option<u8>)
    ensures
        v == pair_value(a, b),
{
    match (color::digit_value(a), color::digit_value(b)) {
        (Some(high), Some(low)) => Some(high * 16 + low),
        _ => None,
    }
}

/// The colour that a colour input's value spells.
pub fn parse_hex(s: &str) -> (color: Option<Rgb>)
    ensures
        color == input_color(s@),
{
    let chars: Vec<char> = text::chars_of(s);
    if chars.len() != 7 || chars[0] != '#' {
        return None;
    }
    match (pair_of(chars[1], chars[2]), pair_of(chars[3], chars[4]), pair_of(chars[5], chars[6])) {
        (Some(r), Some(g), Some(b)) => Some(Rgb { r, g, b }),
        _ => None,
    }
}

/// What the well shows is what it reads back.
pub proof fn law_the_well_reads_back(c: Rgb)
    ensures
        input_color(color::hex_code(c)) == Some(c),
{
    let s = color::hex_code(c);
    assert(s.len() == 7);
    assert(s[0] == '#');
    assert(s[1] == color::hex_digit(c.r as int / 16) && s[2] == color::hex_digit(c.r as int % 16));
    assert(s[3] == color::hex_digit(c.g as int / 16) && s[4] == color::hex_digit(c.g as int % 16));
    assert(s[5] == color::hex_digit(c.b as int / 16) && s[6] == color::hex_digit(c.b as int % 16));
}

// --- the handles on the canvas ---

/// Which part of the frame a drag has hold of: its edges, its corners, or the pill above it
/// that moves the whole. Never its interior, which is where you paint.
#[derive(Clone, Copy, PartialEq, Eq, Structural, Debug)]
pub enum Grip {
    N,
    S,
    E,
    W,
    Nw,
    Ne,
    Sw,
    Se,
    Move,
}

/// The lesser of two.
pub open spec fn lesser(a: int, b: int) -> int {
    if a < b {
        a
    } else {
        b
    }
}

/// The greater of two.
pub open spec fn greater(a: int, b: int) -> int {
    if a < b {
        b
    } else {
        a
    }
}

impl Grip {
    pub open spec fn north(self) -> bool {
        self == Grip::N || self == Grip::Nw || self == Grip::Ne || self == Grip::Move
    }

    pub open spec fn south(self) -> bool {
        self == Grip::S || self == Grip::Sw || self == Grip::Se || self == Grip::Move
    }

    pub open spec fn west(self) -> bool {
        self == Grip::W || self == Grip::Nw || self == Grip::Sw || self == Grip::Move
    }

    pub open spec fn east(self) -> bool {
        self == Grip::E || self == Grip::Ne || self == Grip::Se || self == Grip::Move
    }

    /// The class suffix and the pointer of a grip.
    pub fn spec(self) -> (spec: (&'static str, &'static str))
        ensures
            spec.0@ == match self {
                Grip::N => "n"@,
                Grip::S => "s"@,
                Grip::E => "e"@,
                Grip::W => "w"@,
                Grip::Nw => "nw"@,
                Grip::Ne => "ne"@,
                Grip::Sw => "sw"@,
                Grip::Se => "se"@,
                Grip::Move => "move"@,
            },
            spec.1@ == match self {
                Grip::N => "n-resize"@,
                Grip::S => "s-resize"@,
                Grip::E => "e-resize"@,
                Grip::W => "w-resize"@,
                Grip::Nw => "nw-resize"@,
                Grip::Ne => "ne-resize"@,
                Grip::Sw => "sw-resize"@,
                Grip::Se => "se-resize"@,
                Grip::Move => "move"@,
            },
    {
        match self {
            Grip::N => ("n", "n-resize"),
            Grip::S => ("s", "s-resize"),
            Grip::E => ("e", "e-resize"),
            Grip::W => ("w", "w-resize"),
            Grip::Nw => ("nw", "nw-resize"),
            Grip::Ne => ("ne", "ne-resize"),
            Grip::Sw => ("sw", "sw-resize"),
            Grip::Se => ("se", "se-resize"),
            Grip::Move => ("move", "move"),
        }
    }

    /// Where each side of `rect` is after a drag of `d`, before the rectangle is put the
    /// right way round: an edge moves one side, a corner two, and the pill all four.
    pub open spec fn sides(self, rect: Rect, d: Point) -> (int, int, int, int) {
        (
            rect.min.x + if self.west() {
                d.x as int
            } else {
                0
            },
            rect.min.y + if self.north() {
                d.y as int
            } else {
                0
            },
            rect.max.x + if self.east() {
                d.x as int
            } else {
                0
            },
            rect.max.y + if self.south() {
                d.y as int
            } else {
                0
            },
        )
    }

    /// The rectangle that a drag of `d` makes of the one this grip was pressed on. Dragging
    /// a side past its opposite flips the rectangle rather than inverting it.
    pub fn apply(self, rect: Rect, d: Point) -> (next: Rect)
        requires
            within_reach(rect, d),
        ensures
            ({
                let (x0, y0, x1, y1) = self.sides(rect, d);
                &&& next.min.x == lesser(x0, x1)
                &&& next.min.y == lesser(y0, y1)
                &&& next.max.x == greater(x0, x1)
                &&& next.max.y == greater(y0, y1)
            }),
    {
        let mut lo: Point = rect.min;
        let mut hi: Point = rect.max;
        let moves: bool = matches!(self, Grip::Move);
        if moves || matches!(self, Grip::N | Grip::Nw | Grip::Ne) {
            lo.y = lo.y + d.y;
        }
        if moves || matches!(self, Grip::S | Grip::Sw | Grip::Se) {
            hi.y = hi.y + d.y;
        }
        if moves || matches!(self, Grip::W | Grip::Nw | Grip::Sw) {
            lo.x = lo.x + d.x;
        }
        if moves || matches!(self, Grip::E | Grip::Ne | Grip::Se) {
            hi.x = hi.x + d.x;
        }
        let (x0, x1): (i64, i64) = if lo.x < hi.x {
            (lo.x, hi.x)
        } else {
            (hi.x, lo.x)
        };
        let (y0, y1): (i64, i64) = if lo.y < hi.y {
            (lo.y, hi.y)
        } else {
            (hi.y, lo.y)
        };
        Rect { min: Point { x: x0, y: y0 }, max: Point { x: x1, y: y1 } }
    }
}

/// Moving a frame keeps its size, and a drag of nothing keeps a frame that is the right way
/// round as it is.
pub proof fn law_moving_keeps_the_size(grip: Grip, rect: Rect, d: Point)
    requires
        rect.min.x <= rect.max.x,
        rect.min.y <= rect.max.y,
    ensures
        ({
            let (x0, y0, x1, y1) = Grip::Move.sides(rect, d);
            &&& x0 <= x1 && y0 <= y1
            &&& x1 - x0 == rect.max.x - rect.min.x
            &&& y1 - y0 == rect.max.y - rect.min.y
        }),
        grip.sides(rect, Point { x: 0, y: 0 }) == (
            rect.min.x as int,
            rect.min.y as int,
            rect.max.x as int,
            rect.max.y as int,
        ),
{
}

/// A drag in flight on a handle: which grip, and the rectangle as it was at the press.
/// Travel is taken from the *start* rather than accumulated, so rounding cannot drift over a
/// long drag.
#[derive(Clone, Copy, PartialEq, Eq, Structural, Debug)]
pub struct FrameDrag {
    pub grip: Grip,
    pub start: Rect,
}

/// What a pointer event on a handle comes to.
#[derive(Clone, PartialEq, Eq, Debug)]
pub enum FrameDeed {
    Nothing,
    /// Show the rectangle on the canvas, logging nothing.
    Show(Rect),
    /// Lay it down.
    Commit(DocCommand),
    /// Drop what is shown, laying nothing.
    Drop,
}

/// The travel and the rectangle are far enough inside what a number holds.
pub open spec fn within_reach(rect: Rect, d: Point) -> bool {
    &&& -0x2000_0000_0000_0000 <= rect.min.x <= 0x2000_0000_0000_0000
    &&& -0x2000_0000_0000_0000 <= rect.min.y <= 0x2000_0000_0000_0000
    &&& -0x2000_0000_0000_0000 <= rect.max.x <= 0x2000_0000_0000_0000
    &&& -0x2000_0000_0000_0000 <= rect.max.y <= 0x2000_0000_0000_0000
    &&& -0x2000_0000_0000_0000 <= d.x <= 0x2000_0000_0000_0000
    &&& -0x2000_0000_0000_0000 <= d.y <= 0x2000_0000_0000_0000
}

/// `next` is what a drag of `d` makes of the frame.
pub open spec fn dragged(drag: FrameDrag, d: Point, next: Rect) -> bool {
    let (x0, y0, x1, y1) = drag.grip.sides(drag.start, d);
    &&& next.min.x == lesser(x0, x1)
    &&& next.min.y == lesser(y0, y1)
    &&& next.max.x == greater(x0, x1)
    &&& next.max.y == greater(y0, y1)
}

/// The handle under the pointer moved by `d` since the press: shown, not committed, so a
/// drag is one undo step and not one for every move.
pub fn drag_to(drag: &Option<FrameDrag>, d: Point) -> (deed: FrameDeed)
    requires
        *drag matches Some(f) ==> within_reach(f.start, d),
    ensures
        *drag is None ==> deed == FrameDeed::Nothing,
        *drag matches Some(f) ==> deed matches FrameDeed::Show(next) && dragged(f, d, next),
{
    match drag {
        None => FrameDeed::Nothing,
        Some(f) => FrameDeed::Show(f.grip.apply(f.start, d)),
    }
}

/// The handle was let go: the frame is laid down where the drag left it, once.
pub fn drop_at(drag: &mut Option<FrameDrag>, id: LayerId, d: Point) -> (deed: FrameDeed)
    requires
        *old(drag) matches Some(f) ==> within_reach(f.start, d),
    ensures
        *final(drag) is None,
        *old(drag) is None ==> deed == FrameDeed::Nothing,
        *old(drag) matches Some(f) ==> deed matches FrameDeed::Commit(
            DocCommand::SetMatteRect(layer, next),
        ) && layer == id && dragged(f, d, next),
{
    match *drag {
        None => FrameDeed::Nothing,
        Some(f) => {
            *drag = None;
            FrameDeed::Commit(DocCommand::SetMatteRect(id, f.grip.apply(f.start, d)))
        },
    }
}

/// The browser took the pointer: what is shown is dropped, and only where something was.
pub fn abandon(drag: &mut Option<FrameDrag>) -> (deed: FrameDeed)
    ensures
        *final(drag) is None,
        deed == if *old(drag) is Some {
            FrameDeed::Drop
        } else {
            FrameDeed::Nothing
        },
{
    if drag.is_some() {
        *drag = None;
        FrameDeed::Drop
    } else {
        FrameDeed::Nothing
    }
}

/// An edge moves one side and a corner two, each of them with the hand and the others not at all.
/// Where the sides that come of it are the wrong way round they change places, so that the frame
/// is flipped and never inverted.
pub proof fn law_a_grip_moves_the_sides_it_is_named_for(grip: Grip, rect: Rect, d: Point, next: Rect)
    requires
        call_ensures(Grip::apply, (grip, rect, d), next),
    ensures
        ({
            let left = match grip {
                Grip::W | Grip::Nw | Grip::Sw | Grip::Move => rect.min.x + d.x,
                Grip::N | Grip::S | Grip::E | Grip::Ne | Grip::Se => rect.min.x as int,
            };
            let right = match grip {
                Grip::E | Grip::Ne | Grip::Se | Grip::Move => rect.max.x + d.x,
                Grip::N | Grip::S | Grip::W | Grip::Nw | Grip::Sw => rect.max.x as int,
            };
            let top = match grip {
                Grip::N | Grip::Nw | Grip::Ne | Grip::Move => rect.min.y + d.y,
                Grip::S | Grip::E | Grip::W | Grip::Sw | Grip::Se => rect.min.y as int,
            };
            let foot = match grip {
                Grip::S | Grip::Sw | Grip::Se | Grip::Move => rect.max.y + d.y,
                Grip::N | Grip::E | Grip::W | Grip::Nw | Grip::Ne => rect.max.y as int,
            };
            &&& left <= right ==> next.min.x == left && next.max.x == right
            &&& left > right ==> next.min.x == right && next.max.x == left
            &&& top <= foot ==> next.min.y == top && next.max.y == foot
            &&& top > foot ==> next.min.y == foot && next.max.y == top
        }),
{
}

/// What is shown while a handle is dragged is what its grip makes of the frame as it stood at the
/// press, and so is what is laid down when it is let go: a drag shows what it lays.
pub proof fn law_a_drag_shows_what_its_grip_makes(drag: FrameDrag, d: Point, shown: Rect, next: Rect)
    requires
        dragged(drag, d, shown),
        call_ensures(Grip::apply, (drag.grip, drag.start, d), next),
    ensures
        shown == next,
{
}

/// The topmost matte has no matte above it, layers being listed from the bottom up.
pub proof fn law_the_frame_just_added_is_the_topmost_matte(layers: Seq<LayerInfo>, i: int)
    requires
        -1 <= i < layers.len(),
        i >= 0 ==> layers[i].matte is Some,
        forall|j: int| i < j < layers.len() ==> (#[trigger] layers[j]).matte is None,
    ensures
        topmost_matte(layers) == if i >= 0 {
            Some(layers[i].id)
        } else {
            None
        },
    decreases layers.len(),
{
    if layers.len() > 0 && i < layers.len() - 1 {
        let rest = layers.drop_last();
        assert(layers[layers.len() - 1].matte is None);
        assert forall|j: int| i < j < rest.len() implies (#[trigger] rest[j]).matte is None by {
            assert(rest[j] == layers[j]);
        }
        law_the_frame_just_added_is_the_topmost_matte(rest, i);
    }
}

/// Tiles lie edge to edge from the origin: a range is as many tiles across as it counts, both ends
/// included, and where one stops the next starts.
pub proof fn law_tiles_lie_edge_to_edge(r: TileRange, tile: u16, rect: Option<Rect>)
    requires
        call_ensures(content_rect, (Some(r), tile), rect),
    ensures
        rect matches Some(at) && {
            &&& at.max.x - at.min.x == 64 * (tile * (r.max_x - r.min_x + 1))
            &&& at.max.y - at.min.y == 64 * (tile * (r.max_y - r.min_y + 1))
            &&& at.min.x == 64 * (tile * r.min_x)
            &&& at.min.y == 64 * (tile * r.min_y)
        },
{
    lemma_tile_fits(r.min_x as int, tile);
    lemma_tile_fits(r.min_y as int, tile);
    lemma_tile_fits(r.max_x + 1, tile);
    lemma_tile_fits(r.max_y + 1, tile);
    assert(tile * (r.max_x - r.min_x + 1) == (r.max_x + 1) * tile - r.min_x * tile)
        by (nonlinear_arith);
    assert(tile * (r.max_y - r.min_y + 1) == (r.max_y + 1) * tile - r.min_y * tile)
        by (nonlinear_arith);
    assert(tile * r.min_x == r.min_x * tile) by (nonlinear_arith);
    assert(tile * r.min_y == r.min_y * tile) by (nonlinear_arith);
}

/// A frame is read by its shape and not its size: one twice as large either way reads the same,
/// and so does one of the same size the other way up and round.
pub proof fn law_a_frame_is_read_by_its_shape(w: int, h: int)
    requires
        0 < w,
        0 < h,
    ensures
        aspect_of(2 * w, 2 * h) == aspect_of(w, h),
        aspect_of(-w, -h) == aspect_of(w, h),
        aspect_of(-w, h) == Aspect::Custom,
        aspect_of(w, 0) == Aspect::Custom,
{
    amount::lemma_single(w as nat);
    amount::lemma_single(h as nat);
    amount::lemma_single_scales(w as nat);
    amount::lemma_single_scales(h as nat);
    amount::lemma_quotient_scales(amount::single(w as nat), amount::single(h as nat));
}

/// A preset is called by its two sides.
pub proof fn law_a_preset_is_called_by_its_sides(aspect: Aspect, words: &str)
    requires
        aspect != Aspect::Custom,
        call_ensures(Aspect::label, (aspect,), words),
    ensures
        words@ == text::decimal(aspect.sides().0 as nat) + seq![':'] + text::decimal(
            aspect.sides().1 as nat,
        ),
        aspect is Square ==> aspect.sides() == (1int, 1int),
        aspect is FourFive ==> aspect.sides() == (4int, 5int),
        aspect is ThreeTwo ==> aspect.sides() == (3int, 2int),
        aspect is SixteenNine ==> aspect.sides() == (16int, 9int),
{
    reveal_strlit("1:1");
    reveal_strlit("4:5");
    reveal_strlit("3:2");
    reveal_strlit("16:9");
    reveal_with_fuel(text::decimal, 3);
    assert(words@ =~= text::decimal(aspect.sides().0 as nat) + seq![':'] + text::decimal(
        aspect.sides().1 as nat,
    ));
}

/// A length short of single precision's first gap reads out as the nearest whole pixel, half a pixel
/// going away from zero: never more than half of one from what it is, and on the same side of zero.
pub proof fn law_a_length_reads_out_to_the_nearest_pixel(units: i64, px: i64)
    requires
        call_ensures(rounded, (units,), px),
        -0x100_0000 < units < 0x100_0000,
    ensures
        units >= 0 ==> 64 * px - 32 <= units < 64 * px + 32,
        units <= 0 ==> 64 * px - 32 < units <= 64 * px + 32,
{
    amount::lemma_single(amount::length(units as int));
}

/// A frame reads as a preset only where it is within a hundredth of its ratio, and so as no more
/// than one of them.
pub proof fn law_a_frame_reads_as_a_preset_it_is_near(w: int, h: int)
    requires
        h != 0,
        aspect_of(w, h) != Aspect::Custom,
    ensures
        ({
            let r = ratio_of(w, h);
            let p = aspect_of(w, h).ratio();
            &&& 100 * r <= 101 * p
            &&& 99 * p <= 100 * r
        }),
        forall|other: Aspect|
            other != aspect_of(w, h) ==> !#[trigger] other.fits(w, h),
{
    let found = aspect_of(w, h);
    assert forall|other: Aspect| other != found implies !#[trigger] other.fits(w, h) by {
        assert(Aspect::Square.ratio() == 16777216);
        assert(Aspect::FourFive.ratio() == 13421773);
        assert(Aspect::ThreeTwo.ratio() == 25165824);
        assert(Aspect::SixteenNine.ratio() == 29826162);
    }
}

} // verus!
