//! Reading a picture as a brush shape: white paints, and a picture drawn dark on light is
//! turned round.
//!
//! Pixels are four bytes each, red, green, blue and alpha, row by row from the top.
use vstd::prelude::*;

verus! {

/// The luminance of a pixel, in 255ths.
pub open spec fn luminance(r: u8, g: u8, b: u8) -> int {
    (77 * r + 150 * g + 29 * b) / 256
}

/// How much a pixel paints, in 255ths: its luminance through its alpha.
pub open spec fn coverage(px: Seq<u8>, i: int) -> int {
    luminance(px[i], px[i + 1], px[i + 2]) * px[i + 3] / 255
}

/// The coverage of the pixel at column `x` of row `y`.
pub open spec fn coverage_at(px: Seq<u8>, w: nat, x: int, y: int) -> int {
    coverage(px, (y * w + x) * 4)
}

/// The coverage along the top and bottom rows, up to column `n`.
pub open spec fn edge_rows(px: Seq<u8>, w: nat, h: nat, n: nat) -> int
    decreases n,
{
    if n == 0 {
        0
    } else {
        edge_rows(px, w, h, (n - 1) as nat) + coverage_at(px, w, n - 1, 0) + coverage_at(
            px,
            w,
            n - 1,
            h - 1,
        )
    }
}

/// The coverage down the first and last columns, from the second row up to row `n`.
pub open spec fn edge_columns(px: Seq<u8>, w: nat, h: nat, n: nat) -> int
    decreases n,
{
    if n <= 1 {
        0
    } else {
        edge_columns(px, w, h, (n - 1) as nat) + coverage_at(px, w, 0, n - 1) + coverage_at(
            px,
            w,
            w - 1,
            n - 1,
        )
    }
}

/// The coverage all round the border.
pub open spec fn border_sum(px: Seq<u8>, w: nat, h: nat) -> int {
    edge_rows(px, w, h, w) + edge_columns(px, w, h, (h - 1) as nat)
}

/// How many pixels were read going round. A picture one row high is read along that row
/// twice.
pub open spec fn border_len(w: nat, h: nat) -> int {
    2 * w + if h > 2 {
        2 * (h - 2)
    } else {
        0
    }
}

/// The border is light, so the picture is drawn dark on light.
pub open spec fn light_border(px: Seq<u8>, w: nat, h: nat) -> bool {
    border_sum(px, w, h) / border_len(w, h) > 127
}

/// The picture turned round: every pixel grey, light for dark, its alpha kept.
pub open spec fn turned(px: Seq<u8>) -> Seq<u8> {
    Seq::new(
        px.len(),
        |i: int|
            if i % 4 == 3 || i / 4 * 4 + 3 >= px.len() {
                px[i]
            } else {
                let k = i / 4 * 4;
                (255 - luminance(px[k], px[k + 1], px[k + 2])) as u8
            },
    )
}

/// A picture of `w` by `h` whole pixels, with at least one.
pub open spec fn picture(px: Seq<u8>, w: nat, h: nat) -> bool {
    w >= 1 && h >= 1 && px.len() == h * w * 4
}

fn luminance_of(r: u8, g: u8, b: u8) -> (lum: u8)
    ensures
        lum == luminance(r, g, b),
{
    ((77 * (r as u32) + 150 * (g as u32) + 29 * (b as u32)) / 256) as u8
}

proof fn lemma_coverage_bound(px: Seq<u8>, i: int)
    ensures
        0 <= coverage(px, i) <= 255,
{
    let l = luminance(px[i], px[i + 1], px[i + 2]);
    let a = px[i + 3] as int;
    assert(0 <= l * a <= 255 * 255) by (nonlinear_arith)
        requires
            0 <= l <= 255,
            0 <= a <= 255,
    ;
}

proof fn lemma_pixel_within(px: Seq<u8>, w: nat, h: nat, x: int, y: int)
    requires
        picture(px, w, h),
        0 <= x < w,
        0 <= y < h,
    ensures
        0 <= (y * w + x) * 4,
        (y * w + x) * 4 + 3 < px.len(),
        y * w + x < h * w,
{
    assert(y * w + x < h * w) by (nonlinear_arith)
        requires
            0 <= x < w,
            0 <= y < h,
    ;
    assert(0 <= y * w) by (nonlinear_arith)
        requires
            0 <= y,
            0 <= w,
    ;
}

fn covered(px: &Vec<u8>, w: usize, h: usize, x: usize, y: usize) -> (c: u64)
    requires
        picture(px@, w as nat, h as nat),
        x < w,
        y < h,
    ensures
        c == coverage_at(px@, w as nat, x as int, y as int),
        c <= 255,
{
    let len: usize = px.len();
    proof {
        lemma_pixel_within(px@, w as nat, h as nat, x as int, y as int);
        assert(y * w <= y * w + x <= (y * w + x) * 4 < len);
        lemma_coverage_bound(px@, (y * w + x) * 4);
    }
    let i: usize = (y * w + x) * 4;
    let lum: u8 = luminance_of(px[i], px[i + 1], px[i + 2]);
    let a: u8 = px[i + 3];
    assert(lum * a <= 255 * 255) by (nonlinear_arith)
        requires
            lum <= 255,
            a <= 255,
    ;
    (lum as u64 * a as u64) / 255
}

/// Whether a picture is drawn dark on light, by the mean coverage round its border.
pub fn drawn_on_light(px: &Vec<u8>, w: usize, h: usize) -> (light: bool)
    requires
        picture(px@, w as nat, h as nat),
    ensures
        light == light_border(px@, w as nat, h as nat),
{
    let mut sum: u128 = 0;
    let mut n: u128 = 0;
    let mut x: usize = 0;
    while x < w
        invariant
            picture(px@, w as nat, h as nat),
            x <= w,
            sum == edge_rows(px@, w as nat, h as nat, x as nat),
            n == 2 * x,
            sum <= 255 * n,
        decreases w - x,
    {
        sum = sum + covered(px, w, h, x, 0) as u128 + covered(px, w, h, x, h - 1) as u128;
        n = n + 2;
        x = x + 1;
    }
    let mut y: usize = 1;
    while y + 1 < h
        invariant
            picture(px@, w as nat, h as nat),
            h == 1 ==> y == 1,
            h > 1 ==> 1 <= y <= h - 1,
            sum == edge_rows(px@, w as nat, h as nat, w as nat) + edge_columns(
                px@,
                w as nat,
                h as nat,
                y as nat,
            ),
            n == 2 * w + 2 * (y - 1),
            sum <= 255 * n,
            w <= usize::MAX,
            h <= usize::MAX,
        decreases h - y,
    {
        sum = sum + covered(px, w, h, 0, y) as u128 + covered(px, w, h, w - 1, y) as u128;
        n = n + 2;
        y = y + 1;
    }
    sum / n > 127
}

/// Turns a picture round: light for dark, in grey.
pub fn turn(px: &mut Vec<u8>)
    ensures
        final(px)@ == turned(old(px)@),
{
    let ghost from = px@;
    let mut i: usize = 0;
    while i < px.len() / 4
        invariant
            px@.len() == from.len(),
            i <= from.len() / 4,
            forall|k: int| 0 <= k < 4 * i ==> #[trigger] px@[k] == turned(from)[k],
            forall|k: int| 4 * i <= k < from.len() ==> #[trigger] px@[k] == from[k],
        decreases px@.len() / 4 - i,
    {
        let k: usize = 4 * i;
        let inv: u8 = 255 - luminance_of(px[k], px[k + 1], px[k + 2]);
        px[k] = inv;
        px[k + 1] = inv;
        px[k + 2] = inv;
        i = i + 1;
    }
    assert(px@ =~= turned(from));
}

/// A picture as a brush shape, and whether it had to be turned round for it.
pub fn normalize_pixels(px: Vec<u8>, w: usize, h: usize) -> (shape: (Vec<u8>, bool))
    requires
        picture(px@, w as nat, h as nat),
    ensures
        shape.1 == light_border(px@, w as nat, h as nat),
        shape.0@ == if shape.1 {
            turned(px@)
        } else {
            px@
        },
{
    let mut px: Vec<u8> = px;
    let inverted: bool = drawn_on_light(&px, w, h);
    if inverted {
        turn(&mut px);
    }
    (px, inverted)
}

/// Turning a picture round turns its luminance round: what was light is as dark as it was
/// light. Turned twice, a picture is its own grey.
pub proof fn law_turning_is_its_own_inverse_in_grey(px: Seq<u8>, k: int)
    requires
        0 <= k,
        k % 4 == 0,
        k + 3 < px.len(),
    ensures
        luminance(turned(px)[k], turned(px)[k + 1], turned(px)[k + 2]) == 255 - luminance(
            px[k],
            px[k + 1],
            px[k + 2],
        ),
        turned(turned(px))[k] == luminance(px[k], px[k + 1], px[k + 2]),
        turned(turned(px))[k + 1] == luminance(px[k], px[k + 1], px[k + 2]),
        turned(turned(px))[k + 2] == luminance(px[k], px[k + 1], px[k + 2]),
        turned(px)[k + 3] == px[k + 3],
{
    lemma_turned_pixel(px, k);
    lemma_turned_pixel(turned(px), k);
}

proof fn lemma_turned_pixel(px: Seq<u8>, k: int)
    requires
        0 <= k,
        k % 4 == 0,
        k + 3 < px.len(),
    ensures
        turned(px).len() == px.len(),
        turned(px)[k] == 255 - luminance(px[k], px[k + 1], px[k + 2]),
        turned(px)[k + 1] == turned(px)[k],
        turned(px)[k + 2] == turned(px)[k],
        turned(px)[k + 3] == px[k + 3],
        luminance(turned(px)[k], turned(px)[k + 1], turned(px)[k + 2]) == turned(px)[k],
{
    assert((k + 1) / 4 * 4 == k && (k + 2) / 4 * 4 == k && k / 4 * 4 == k);
    assert((k + 1) % 4 == 1 && (k + 2) % 4 == 2 && (k + 3) % 4 == 3);
}

/// A pixel and the same pixel turned round never paint more than one full pixel together.
proof fn lemma_turned_coverage(px: Seq<u8>, k: int)
    requires
        0 <= k,
        k % 4 == 0,
        k + 3 < px.len(),
    ensures
        coverage(turned(px), k) + coverage(px, k) <= 255,
{
    lemma_turned_pixel(px, k);
    let l = luminance(px[k], px[k + 1], px[k + 2]);
    let a = px[k + 3] as int;
    assert((255 - l) * a + l * a == 255 * a) by (nonlinear_arith);
    let p = (255 - l) * a;
    let q = l * a;
    assert(p / 255 + q / 255 <= a) by {
        assert(p + q == 255 * a);
    }
}

proof fn lemma_turned_at(px: Seq<u8>, w: nat, h: nat, x: int, y: int)
    requires
        picture(px, w, h),
        0 <= x < w,
        0 <= y < h,
    ensures
        coverage_at(turned(px), w, x, y) + coverage_at(px, w, x, y) <= 255,
{
    lemma_pixel_within(px, w, h, x, y);
    lemma_turned_coverage(px, (y * w + x) * 4);
}

proof fn lemma_turned_rows(px: Seq<u8>, w: nat, h: nat, n: nat)
    requires
        picture(px, w, h),
        n <= w,
    ensures
        edge_rows(turned(px), w, h, n) + edge_rows(px, w, h, n) <= 255 * (2 * n),
    decreases n,
{
    if n > 0 {
        lemma_turned_rows(px, w, h, (n - 1) as nat);
        lemma_turned_at(px, w, h, n - 1, 0);
        lemma_turned_at(px, w, h, n - 1, h - 1);
    }
}

proof fn lemma_turned_columns(px: Seq<u8>, w: nat, h: nat, n: nat)
    requires
        picture(px, w, h),
        n <= h,
    ensures
        edge_columns(turned(px), w, h, n) + edge_columns(px, w, h, n) <= if n <= 1 {
            0
        } else {
            255 * (2 * (n - 1))
        },
    decreases n,
{
    if n > 1 {
        lemma_turned_columns(px, w, h, (n - 1) as nat);
        lemma_turned_at(px, w, h, 0, n - 1);
        lemma_turned_at(px, w, h, w - 1, n - 1);
    }
}

/// A picture that was turned round is not turned round again: its border has gone dark.
pub proof fn law_a_turned_picture_has_a_dark_border(px: Seq<u8>, w: nat, h: nat)
    requires
        picture(px, w, h),
        light_border(px, w, h),
    ensures
        picture(turned(px), w, h),
        !light_border(turned(px), w, h),
{
    lemma_turned_rows(px, w, h, w);
    lemma_turned_columns(px, w, h, (h - 1) as nat);
    let n = border_len(w, h);
    let was = border_sum(px, w, h);
    let now = border_sum(turned(px), w, h);
    assert(now + was <= 255 * n);
    assert(was >= 128 * n) by (nonlinear_arith)
        requires
            was / n > 127,
            n > 0,
    ;
    assert(now / n <= 127) by (nonlinear_arith)
        requires
            now <= 127 * n,
            n > 0,
    ;
}

/// Luminance weighs green most and blue least, in 256ths, and what is left over is dropped.
pub proof fn law_luminance_weighs_the_channels(r: u8, g: u8, b: u8)
    ensures
        256 * luminance(r, g, b) <= 77 * r + 150 * g + 29 * b,
        77 * r + 150 * g + 29 * b < 256 * (luminance(r, g, b) + 1),
{
}

/// A pixel paints its luminance through its alpha: in full where it is opaque, and nothing where
/// it is not there.
pub proof fn law_a_pixel_paints_its_luminance_through_its_alpha(px: Seq<u8>, i: int)
    ensures
        ({
            let weighed = 77 * px[i] + 150 * px[i + 1] + 29 * px[i + 2];
            let lum = weighed / 256;
            &&& 255 * coverage(px, i) <= lum * px[i + 3]
            &&& lum * px[i + 3] < 255 * (coverage(px, i) + 1)
            &&& px[i + 3] == 255 ==> coverage(px, i) == lum
            &&& px[i + 3] == 0 ==> coverage(px, i) == 0
        }),
{
    let lum = luminance(px[i], px[i + 1], px[i + 2]);
    if px[i + 3] == 255 {
        assert(lum * 255 / 255 == lum);
    }
    if px[i + 3] == 0 {
        assert(lum * 0 == 0);
    }
}

/// A picture turned round is as long as it was. Each whole pixel of it is a grey that falls short
/// of white by the luminance that was there, and keeps its alpha.
pub proof fn law_turning_takes_each_pixel_s_luminance_from_white(px: Seq<u8>, k: int)
    requires
        0 <= k,
        k % 4 == 0,
        k + 3 < px.len(),
    ensures
        ({
            let weighed = 77 * px[k] + 150 * px[k + 1] + 29 * px[k + 2];
            let to = turned(px);
            &&& to.len() == px.len()
            &&& to[k] == 255 - weighed / 256
            &&& to[k + 1] == to[k]
            &&& to[k + 2] == to[k]
            &&& to[k + 3] == px[k + 3]
        }),
{
    lemma_turned_pixel(px, k);
}

/// Two pixels of a picture are the same four bytes only where they are the same pixel.
proof fn lemma_pixels_are_apart(w: nat, x: int, y: int, x2: int, y2: int)
    requires
        0 <= x < w,
        0 <= x2 < w,
        y * w + x == y2 * w + x2,
    ensures
        x == x2,
        y == y2,
{
    assert(y == y2) by (nonlinear_arith)
        requires
            0 <= x < w,
            0 <= x2 < w,
            y * w + x == y2 * w + x2,
    ;
}

/// Two pictures of one size that differ at one pixel at most.
pub open spec fn differ_only_at(a: Seq<u8>, b: Seq<u8>, w: nat, x: int, y: int) -> bool {
    &&& a.len() == b.len()
    &&& forall|i: int|
        0 <= i < a.len() && i / 4 != y * w + x ==> #[trigger] a[i] == b[i]
}

proof fn lemma_another_pixel_is_the_same(
    a: Seq<u8>,
    b: Seq<u8>,
    w: nat,
    h: nat,
    x: int,
    y: int,
    x2: int,
    y2: int,
)
    requires
        picture(a, w, h),
        differ_only_at(a, b, w, x, y),
        0 <= x < w,
        0 <= x2 < w,
        0 <= y2 < h,
        x != x2 || y != y2,
    ensures
        coverage_at(a, w, x2, y2) == coverage_at(b, w, x2, y2),
{
    lemma_pixel_within(a, w, h, x2, y2);
    if y * w + x == y2 * w + x2 {
        lemma_pixels_are_apart(w, x, y, x2, y2);
    }
    let p = y2 * w + x2;
    let i = p * 4;
    assert(i / 4 == p && (i + 1) / 4 == p && (i + 2) / 4 == p && (i + 3) / 4 == p);
    assert(a[i] == b[i] && a[i + 1] == b[i + 1] && a[i + 2] == b[i + 2] && a[i + 3] == b[i + 3]);
}

proof fn lemma_rows_count_a_pixel_once(
    a: Seq<u8>,
    b: Seq<u8>,
    w: nat,
    h: nat,
    x: int,
    y: int,
    n: nat,
)
    requires
        picture(a, w, h),
        h >= 2,
        differ_only_at(a, b, w, x, y),
        0 <= x < w,
        0 <= y < h,
        n <= w,
    ensures
        edge_rows(b, w, h, n) - edge_rows(a, w, h, n) == if x < n && (y == 0 || y == h - 1) {
            coverage_at(b, w, x, y) - coverage_at(a, w, x, y)
        } else {
            0
        },
    decreases n,
{
    if n > 0 {
        lemma_rows_count_a_pixel_once(a, b, w, h, x, y, (n - 1) as nat);
        if x != n - 1 || y != 0 {
            lemma_another_pixel_is_the_same(a, b, w, h, x, y, n - 1, 0);
        }
        if x != n - 1 || y != h - 1 {
            lemma_another_pixel_is_the_same(a, b, w, h, x, y, n - 1, h - 1);
        }
    }
}

proof fn lemma_columns_count_a_pixel_once(
    a: Seq<u8>,
    b: Seq<u8>,
    w: nat,
    h: nat,
    x: int,
    y: int,
    n: nat,
)
    requires
        picture(a, w, h),
        w >= 2,
        differ_only_at(a, b, w, x, y),
        0 <= x < w,
        0 <= y < h,
        n <= h,
    ensures
        edge_columns(b, w, h, n) - edge_columns(a, w, h, n) == if 1 <= y < n && (x == 0 || x == w
            - 1) {
            coverage_at(b, w, x, y) - coverage_at(a, w, x, y)
        } else {
            0
        },
    decreases n,
{
    if n > 1 {
        lemma_columns_count_a_pixel_once(a, b, w, h, x, y, (n - 1) as nat);
        if y != n - 1 || x != 0 {
            lemma_another_pixel_is_the_same(a, b, w, h, x, y, 0, n - 1);
        }
        if y != n - 1 || x != w - 1 {
            lemma_another_pixel_is_the_same(a, b, w, h, x, y, w - 1, n - 1);
        }
    }
}

/// Every pixel of the border counts once, and none inside it: where two pictures differ at one
/// pixel, what their borders come to differs by what that pixel paints if it is on the border, and
/// not at all if it is not. It takes two rows and two columns for no pixel to be met twice.
pub proof fn law_each_pixel_of_the_border_counts_once(
    a: Seq<u8>,
    b: Seq<u8>,
    w: nat,
    h: nat,
    x: int,
    y: int,
)
    requires
        w >= 2,
        h >= 2,
        a.len() == h * w * 4,
        a.len() == b.len(),
        forall|i: int| 0 <= i < a.len() && i / 4 != y * w + x ==> #[trigger] a[i] == b[i],
        0 <= x < w,
        0 <= y < h,
    ensures
        border_sum(b, w, h) - border_sum(a, w, h) == if x == 0 || y == 0 || x == w - 1 || y == h
            - 1 {
            coverage(b, (y * w + x) * 4) - coverage(a, (y * w + x) * 4)
        } else {
            0
        },
{
    lemma_rows_count_a_pixel_once(a, b, w, h, x, y, w);
    lemma_columns_count_a_pixel_once(a, b, w, h, x, y, (h - 1) as nat);
}

proof fn lemma_rows_between(px: Seq<u8>, w: nat, h: nat, n: nat, low: int, high: int)
    requires
        w >= 1,
        h >= 1,
        n <= w,
        forall|x: int, y: int|
            0 <= x < w && 0 <= y < h && (x == 0 || y == 0 || x == w - 1 || y == h - 1) ==> low
                <= #[trigger] coverage_at(px, w, x, y) <= high,
    ensures
        2 * n * low <= edge_rows(px, w, h, n) <= 2 * n * high,
    decreases n,
{
    if n > 0 {
        lemma_rows_between(px, w, h, (n - 1) as nat, low, high);
        assert(low <= coverage_at(px, w, n - 1, 0) <= high);
        assert(low <= coverage_at(px, w, n - 1, h - 1) <= high);
        assert(2 * n * low == 2 * (n - 1) * low + 2 * low) by (nonlinear_arith);
        assert(2 * n * high == 2 * (n - 1) * high + 2 * high) by (nonlinear_arith);
    } else {
        assert(2 * n * low == 0 && 2 * n * high == 0) by (nonlinear_arith)
            requires
                n == 0,
        ;
    }
}

proof fn lemma_columns_between(px: Seq<u8>, w: nat, h: nat, n: nat, low: int, high: int)
    requires
        w >= 1,
        h >= 1,
        1 <= n <= h,
        forall|x: int, y: int|
            0 <= x < w && 0 <= y < h && (x == 0 || y == 0 || x == w - 1 || y == h - 1) ==> low
                <= #[trigger] coverage_at(px, w, x, y) <= high,
    ensures
        2 * (n - 1) * low <= edge_columns(px, w, h, n) <= 2 * (n - 1) * high,
    decreases n,
{
    if n > 1 {
        lemma_columns_between(px, w, h, (n - 1) as nat, low, high);
        assert(low <= coverage_at(px, w, 0, n - 1) <= high);
        assert(low <= coverage_at(px, w, w - 1, n - 1) <= high);
        assert(2 * (n - 1) * low == 2 * (n - 2) * low + 2 * low) by (nonlinear_arith);
        assert(2 * (n - 1) * high == 2 * (n - 2) * high + 2 * high) by (nonlinear_arith);
    } else {
        assert(2 * (n - 1) * low == 0 && 2 * (n - 1) * high == 0) by (nonlinear_arith)
            requires
                n == 1,
        ;
    }
}

/// A picture whose border paints at least half of what it could, all round, is drawn dark on
/// light, and one whose border paints less than that all round is not.
pub proof fn law_a_light_border_is_half_covered(px: Seq<u8>, w: nat, h: nat)
    requires
        w >= 1,
        h >= 1,
        px.len() == h * w * 4,
    ensures
        (forall|x: int, y: int|
            0 <= x < w && 0 <= y < h && (x == 0 || y == 0 || x == w - 1 || y == h - 1) ==> 128
                <= #[trigger] coverage_at(px, w, x, y)) ==> light_border(px, w, h),
        (forall|x: int, y: int|
            0 <= x < w && 0 <= y < h && (x == 0 || y == 0 || x == w - 1 || y == h - 1)
                ==> #[trigger] coverage_at(px, w, x, y) <= 127) ==> !light_border(px, w, h),
        w >= 2 && h >= 2 ==> (light_border(px, w, h) <==> border_sum(px, w, h) >= 128 * (2 * w + 2
            * h - 4)),
{
    let sum = border_sum(px, w, h);
    let n = border_len(w, h);
    assert(n > 0);
    assert(sum / n > 127 <==> sum >= 128 * n) by (nonlinear_arith)
        requires
            n > 0,
    ;
    assert forall|x: int, y: int| 0 <= #[trigger] coverage_at(px, w, x, y) <= 255 by {
        lemma_coverage_bound(px, (y * w + x) * 4);
    }
    let rows = (if h >= 2 {
        (h - 1) as nat
    } else {
        1nat
    });
    assert(edge_columns(px, w, h, (h - 1) as nat) == edge_columns(px, w, h, rows));
    assert(n == 2 * w + 2 * (rows - 1));
    if forall|x: int, y: int|
        0 <= x < w && 0 <= y < h && (x == 0 || y == 0 || x == w - 1 || y == h - 1) ==> 128
            <= #[trigger] coverage_at(px, w, x, y) {
        lemma_rows_between(px, w, h, w, 128, 255);
        lemma_columns_between(px, w, h, rows, 128, 255);
    }
    if forall|x: int, y: int|
        0 <= x < w && 0 <= y < h && (x == 0 || y == 0 || x == w - 1 || y == h - 1)
            ==> #[trigger] coverage_at(px, w, x, y) <= 127 {
        lemma_rows_between(px, w, h, w, 0, 127);
        lemma_columns_between(px, w, h, rows, 0, 127);
    }
}

/// Bytes behind the last whole pixel are no pixel, and stay as they are.
pub proof fn law_what_is_short_of_a_pixel_is_kept(px: Seq<u8>, i: int)
    requires
        px.len() / 4 * 4 <= i < px.len(),
    ensures
        turned(px)[i] == px[i],
{
    assert(i / 4 * 4 + 3 >= px.len());
}

} // verus!
