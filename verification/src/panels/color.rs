//! The colour picker's words and pictures: a colour as a code to type, the small bitmaps
//! its controls are drawn with, and what a press on one of them means.
use crate::amount::amount;
use crate::model::Srgb;
use crate::platform::base64;
use crate::text;
use vstd::prelude::*;

verus! {

/// A straight sRGB colour at the display's own precision.
#[derive(Clone, Copy, PartialEq, Eq, Structural, Debug)]
pub struct Rgb {
    pub r: u8,
    pub g: u8,
    pub b: u8,
}

/// The lower-case character of a hexadecimal digit.
pub open spec fn hex_digit(v: int) -> char {
    if v < 10 {
        (48 + v) as char
    } else {
        (87 + v) as char
    }
}

/// A byte as two hexadecimal digits.
pub open spec fn hex_byte(v: u8) -> Seq<char> {
    seq![hex_digit(v as int / 16), hex_digit(v as int % 16)]
}

/// A colour as `#rrggbb`.
pub open spec fn hex_code(c: Rgb) -> Seq<char> {
    seq!['#'] + hex_byte(c.r) + hex_byte(c.g) + hex_byte(c.b)
}

/// The character is a hexadecimal digit, in either case.
pub open spec fn is_hex(c: char) -> bool {
    '0' <= c <= '9' || 'a' <= c <= 'f' || 'A' <= c <= 'F'
}

/// The value of a hexadecimal digit.
pub open spec fn hex_value(c: char) -> int {
    if '0' <= c <= '9' {
        c as int - 48
    } else if 'a' <= c <= 'f' {
        c as int - 87
    } else {
        c as int - 55
    }
}

/// The text without one leading `#`.
pub open spec fn unhashed(s: Seq<char>) -> Seq<char> {
    if s.len() > 0 && s[0] == '#' {
        s.skip(1)
    } else {
        s
    }
}

/// Every character is a hexadecimal digit.
pub open spec fn all_hex(s: Seq<char>) -> bool {
    forall|i: int| 0 <= i < s.len() ==> is_hex(#[trigger] s[i])
}

/// The colour that a bare code names: three digits, each the byte whose halves match, or
/// six.
pub open spec fn code_color(s: Seq<char>) -> Option<Rgb> {
    if !all_hex(s) {
        None
    } else if s.len() == 3 {
        Some(
            Rgb {
                r: (hex_value(s[0]) * 17) as u8,
                g: (hex_value(s[1]) * 17) as u8,
                b: (hex_value(s[2]) * 17) as u8,
            },
        )
    } else if s.len() == 6 {
        Some(
            Rgb {
                r: (hex_value(s[0]) * 16 + hex_value(s[1])) as u8,
                g: (hex_value(s[2]) * 16 + hex_value(s[3])) as u8,
                b: (hex_value(s[4]) * 16 + hex_value(s[5])) as u8,
            },
        )
    } else {
        None
    }
}

/// The colour that a typed text names.
pub open spec fn typed_color(s: Seq<char>) -> Option<Rgb> {
    code_color(unhashed(text::trimmed(s)))
}

fn digit_of(v: u8) -> (c: char)
    requires
        v < 16,
    ensures
        c == hex_digit(v as int),
{
    if v < 10 {
        (48 + v) as char
    } else {
        (87 + v) as char
    }
}

fn push_byte(s: &mut String, v: u8)
    ensures
        final(s)@ == old(s)@ + hex_byte(v),
{
    let ghost before = s@;
    s.push(digit_of(v / 16));
    s.push(digit_of(v % 16));
    assert(s@ =~= before + hex_byte(v));
}

/// A colour as `#rrggbb`.
pub fn hex_of(c: Rgb) -> (code: String)
    ensures
        code@ == hex_code(c),
{
    let mut code: String = String::new();
    code.push('#');
    assert(code@ =~= seq!['#']);
    push_byte(&mut code, c.r);
    push_byte(&mut code, c.g);
    push_byte(&mut code, c.b);
    code
}

/// The value of a hexadecimal digit.
pub fn digit_value(c: char) -> (v: Option<u8>)
    ensures
        v is Some <==> is_hex(c),
        v matches Some(n) ==> n == hex_value(c) && n < 16,
{
    if '0' <= c && c <= '9' {
        Some((c as u32 - 48) as u8)
    } else if 'a' <= c && c <= 'f' {
        Some((c as u32 - 87) as u8)
    } else if 'A' <= c && c <= 'F' {
        Some((c as u32 - 55) as u8)
    } else {
        None
    }
}

/// The values of a run of hexadecimal digits.
fn values_of(chars: &Vec<char>, from: usize) -> (values: Option<Vec<u8>>)
    requires
        from <= chars@.len(),
    ensures
        values is Some <==> all_hex(chars@.skip(from as int)),
        values matches Some(v) ==> {
            &&& v@.len() == chars@.len() - from
            &&& forall|i: int|
                0 <= i < v@.len() ==> #[trigger] v@[i] == hex_value(chars@[from + i]) && v@[i] < 16
        },
{
    let mut values: Vec<u8> = Vec::new();
    let mut i: usize = from;
    while i < chars.len()
        invariant
            from <= i <= chars@.len(),
            values@.len() == i - from,
            forall|k: int| from <= k < i ==> is_hex(#[trigger] chars@[k]),
            forall|k: int|
                0 <= k < values@.len() ==> #[trigger] values@[k] == hex_value(chars@[from + k])
                    && values@[k] < 16,
        decreases chars@.len() - i,
    {
        match digit_value(chars[i]) {
            None => {
                assert(!is_hex(chars@.skip(from as int)[i - from]));
                return None;
            },
            Some(v) => values.push(v),
        }
        i = i + 1;
    }
    Some(values)
}

/// The colour that a typed text names: `#rgb`, `#rrggbb` or either without the hash, with
/// white space around it or not. `None` for anything else, including a half-typed one,
/// which is what the field holds most of the time it is being used.
pub fn parse_hex(s: &str) -> (color: Option<Rgb>)
    ensures
        color == typed_color(s@),
{
    let trimmed: String = text::trim(s);
    let chars: Vec<char> = text::chars_of(trimmed.as_str());
    let from: usize = if chars.len() > 0 && chars[0] == '#' {
        1
    } else {
        0
    };
    assert(unhashed(chars@) =~= chars@.skip(from as int));
    match values_of(&chars, from) {
        None => None,
        Some(v) => {
            if v.len() == 3 {
                assert(v@[0] == hex_value(chars@[from + 0]));
                assert(v@[1] == hex_value(chars@[from + 1]));
                assert(v@[2] == hex_value(chars@[from + 2]));
                Some(Rgb { r: v[0] * 17, g: v[1] * 17, b: v[2] * 17 })
            } else if v.len() == 6 {
                assert(v@[0] == hex_value(chars@[from + 0]));
                assert(v@[1] == hex_value(chars@[from + 1]));
                assert(v@[2] == hex_value(chars@[from + 2]));
                assert(v@[3] == hex_value(chars@[from + 3]));
                assert(v@[4] == hex_value(chars@[from + 4]));
                assert(v@[5] == hex_value(chars@[from + 5]));
                Some(
                    Rgb {
                        r: v[0] * 16 + v[1],
                        g: v[2] * 16 + v[3],
                        b: v[4] * 16 + v[5],
                    },
                )
            } else {
                None
            }
        },
    }
}

proof fn lemma_hex_digit(v: int)
    requires
        0 <= v < 16,
    ensures
        is_hex(hex_digit(v)),
        hex_value(hex_digit(v)) == v,
        !text::is_white(hex_digit(v)),
        hex_digit(v) != '#',
{
}

proof fn lemma_nothing_to_trim(s: Seq<char>)
    requires
        s.len() > 0,
        !text::is_white(s[0]),
        !text::is_white(s.last()),
    ensures
        text::trimmed(s) == s,
{
    assert(text::first_ink(s) == 0);
    assert(s.skip(0) =~= s);
}

/// A colour written as a code reads back as the colour.
pub proof fn law_a_code_reads_back(c: Rgb)
    ensures
        typed_color(hex_code(c)) == Some(c),
{
    let s = hex_code(c);
    let t = hex_byte(c.r) + hex_byte(c.g) + hex_byte(c.b);
    lemma_hex_digit(c.r as int / 16);
    lemma_hex_digit(c.r as int % 16);
    lemma_hex_digit(c.g as int / 16);
    lemma_hex_digit(c.g as int % 16);
    lemma_hex_digit(c.b as int / 16);
    lemma_hex_digit(c.b as int % 16);
    assert(s.len() == 7);
    lemma_nothing_to_trim(s);
    assert(unhashed(s) =~= t);
    assert(t[0] == hex_digit(c.r as int / 16));
    assert(t[1] == hex_digit(c.r as int % 16));
    assert(t[2] == hex_digit(c.g as int / 16));
    assert(t[3] == hex_digit(c.g as int % 16));
    assert(t[4] == hex_digit(c.b as int / 16));
    assert(t[5] == hex_digit(c.b as int % 16));
    assert forall|i: int| 0 <= i < t.len() implies is_hex(#[trigger] t[i]) by {
        assert(i == 0 || i == 1 || i == 2 || i == 3 || i == 4 || i == 5);
    }
}

/// A short code is the long one with every digit doubled.
pub proof fn law_a_short_code_is_the_long_one_doubled(a: char, b: char, c: char)
    requires
        is_hex(a),
        is_hex(b),
        is_hex(c),
    ensures
        code_color(seq![a, b, c]) == code_color(seq![a, a, b, b, c, c]),
        code_color(seq![a, b, c]) is Some,
{
    let s = seq![a, b, c];
    let l = seq![a, a, b, b, c, c];
    assert(all_hex(s));
    assert(all_hex(l));
    assert(hex_value(a) * 17 == hex_value(a) * 16 + hex_value(a));
    assert(hex_value(b) * 17 == hex_value(b) * 16 + hex_value(b));
    assert(hex_value(c) * 17 == hex_value(c) * 16 + hex_value(c));
}

/// White space around a code does not change the colour it names.
pub proof fn law_white_space_around_a_code_is_nothing(s: Seq<char>)
    ensures
        typed_color(text::trimmed(s)) == typed_color(s),
{
    text::law_trimming_settles(s);
}

// --- the pictures ---

/// The bytes of a number, least significant first.
pub open spec fn le32(n: int) -> Seq<u8> {
    seq![
        (n % 256) as u8,
        (n / 256 % 256) as u8,
        (n / 65536 % 256) as u8,
        (n / 16777216 % 256) as u8,
    ]
}

/// The number that four bytes hold, least significant first.
pub open spec fn read_le32(s: Seq<u8>, at: int) -> int {
    s[at] + s[at + 1] * 256 + s[at + 2] * 65536 + s[at + 3] * 16777216
}

/// The bytes of one row: three to a pixel, and as many as it takes to a multiple of four.
pub open spec fn stride(w: int) -> int {
    (w * 3 + 3) / 4 * 4
}

/// The two headers of a 24-bit bitmap of `w` by `h`.
pub open spec fn bmp_header(w: int, h: int) -> Seq<u8> {
    seq![66u8, 77u8] + le32(54 + stride(w) * h) + le32(0) + le32(54) + le32(40) + le32(w) + le32(h)
        + seq![1u8, 0u8, 24u8, 0u8] + le32(0) + le32(stride(w) * h) + le32(2835) + le32(2835)
        + le32(0) + le32(0)
}

/// The first `n` pixels of row `y`, each blue, green, red.
pub open spec fn bmp_pixels(px: Seq<Rgb>, w: int, y: int, n: nat) -> Seq<u8>
    decreases n,
{
    if n == 0 {
        Seq::empty()
    } else {
        let c = px[y * w + (n - 1)];
        bmp_pixels(px, w, y, (n - 1) as nat) + seq![c.b, c.g, c.r]
    }
}

/// Row `y`, padded out to its stride.
pub open spec fn bmp_row(px: Seq<Rgb>, w: int, y: int) -> Seq<u8> {
    bmp_pixels(px, w, y, w as nat) + Seq::new((stride(w) - 3 * w) as nat, |i: int| 0u8)
}

/// The lowest `n` rows, the lowest first.
pub open spec fn bmp_rows(px: Seq<Rgb>, w: int, h: int, n: nat) -> Seq<u8>
    decreases n,
{
    if n == 0 {
        Seq::empty()
    } else {
        bmp_rows(px, w, h, (n - 1) as nat) + bmp_row(px, w, h - n)
    }
}

/// A 24-bit bitmap of the pixels, which are counted from the top.
pub open spec fn bmp_bytes(px: Seq<Rgb>, w: int, h: int) -> Seq<u8> {
    bmp_header(w, h) + bmp_rows(px, w, h, h as nat)
}

/// The pixels fill `w` by `h`, and the file's own length fits in its header.
pub open spec fn fits_bmp(px: Seq<Rgb>, w: int, h: int) -> bool {
    &&& 0 <= w <= i32::MAX
    &&& 0 <= h <= i32::MAX
    &&& px.len() == h * w
    &&& 54 + stride(w) * h <= u32::MAX
}

fn push_le32(out: &mut Vec<u8>, n: u32)
    ensures
        final(out)@ == old(out)@ + le32(n as int),
{
    let ghost before = out@;
    out.push((n % 256) as u8);
    out.push((n / 256 % 256) as u8);
    out.push((n / 65536 % 256) as u8);
    out.push((n / 16777216 % 256) as u8);
    assert(out@ =~= before + le32(n as int));
}

fn header(w: u32, h: u32, bytes: u32) -> (out: Vec<u8>)
    requires
        bytes == stride(w as int) * h,
        54 + bytes <= u32::MAX,
    ensures
        out@ == bmp_header(w as int, h as int),
{
    let mut out: Vec<u8> = Vec::new();
    out.push(66);
    out.push(77);
    assert(out@ =~= seq![66u8, 77u8]);
    push_le32(&mut out, 54 + bytes);
    push_le32(&mut out, 0);
    push_le32(&mut out, 54);
    push_le32(&mut out, 40);
    push_le32(&mut out, w);
    push_le32(&mut out, h);
    let ghost before = out@;
    out.push(1);
    out.push(0);
    out.push(24);
    out.push(0);
    assert(out@ =~= before + seq![1u8, 0u8, 24u8, 0u8]);
    push_le32(&mut out, 0);
    push_le32(&mut out, bytes);
    push_le32(&mut out, 2835);
    push_le32(&mut out, 2835);
    push_le32(&mut out, 0);
    push_le32(&mut out, 0);
    out
}

fn push_row(out: &mut Vec<u8>, px: &Vec<Rgb>, w: usize, y: usize, h: usize)
    requires
        fits_bmp(px@, w as int, h as int),
        y < h,
    ensures
        final(out)@ == old(out)@ + bmp_row(px@, w as int, y as int),
{
    let ghost start = out@;
    let count: usize = px.len();
    assert(y * w + w <= h * w) by (nonlinear_arith)
        requires
            y < h,
    ;
    assert(0 <= y * w) by (nonlinear_arith)
        requires
            0 <= y,
            0 <= w,
    ;
    let base: usize = y * w;
    let mut x: usize = 0;
    assert(out@ =~= start + bmp_pixels(px@, w as int, y as int, 0));
    while x < w
        invariant
            x <= w,
            base == y * w,
            base + w <= px@.len(),
            px@.len() == count,
            out@ == start + bmp_pixels(px@, w as int, y as int, x as nat),
        decreases w - x,
    {
        let c: Rgb = px[base + x];
        let ghost before = out@;
        out.push(c.b);
        out.push(c.g);
        out.push(c.r);
        assert(out@ =~= start + (bmp_pixels(px@, w as int, y as int, x as nat) + seq![
            c.b,
            c.g,
            c.r,
        ]));
        x = x + 1;
    }
    let pad: u64 = (w as u64 * 3 + 3) / 4 * 4 - w as u64 * 3;
    let ghost body = out@;
    let mut i: u64 = 0;
    assert(out@ =~= body + Seq::new(0, |k: int| 0u8));
    while i < pad
        invariant
            i <= pad,
            out@ == body + Seq::new(i as nat, |k: int| 0u8),
        decreases pad - i,
    {
        out.push(0);
        assert(out@ =~= body + Seq::new((i + 1) as nat, |k: int| 0u8));
        i = i + 1;
    }
    assert(out@ =~= start + bmp_row(px@, w as int, y as int));
}

/// A 24-bit bitmap, `w` by `h`, of pixels that are counted from the top; a bitmap's rows run
/// the other way. Rows are padded to four bytes, which is what lets a caller choose any
/// width.
pub fn bmp(w: usize, h: usize, px: &Vec<Rgb>) -> (out: Vec<u8>)
    requires
        fits_bmp(px@, w as int, h as int),
    ensures
        out@ == bmp_bytes(px@, w as int, h as int),
{
    let step: u64 = (w as u64 * 3 + 3) / 4 * 4;
    proof {
        let s = stride(w as int);
        assert(s * h >= 0) by (nonlinear_arith)
            requires
                s >= 0,
                h >= 0,
        ;
    }
    let bytes: u128 = step as u128 * h as u128;
    let mut out: Vec<u8> = header(w as u32, h as u32, bytes as u32);
    let ghost head = out@;
    let mut row: usize = 0;
    assert(out@ =~= head + bmp_rows(px@, w as int, h as int, 0));
    while row < h
        invariant
            row <= h,
            fits_bmp(px@, w as int, h as int),
            out@ == head + bmp_rows(px@, w as int, h as int, row as nat),
        decreases h - row,
    {
        let ghost before = out@;
        push_row(&mut out, px, w, h - 1 - row, h);
        assert(out@ =~= head + (bmp_rows(px@, w as int, h as int, row as nat) + bmp_row(
            px@,
            w as int,
            h - 1 - row,
        )));
        row = row + 1;
    }
    out
}

/// A bitmap as the value of a style's background.
pub open spec fn bmp_url(px: Seq<Rgb>, w: int, h: int) -> Seq<char> {
    "url(data:image/bmp;base64,"@ + base64::encoded(bmp_bytes(px, w, h)) + ")"@
}

/// One small 24-bit bitmap as a `data:` URL.
pub fn bmp_data_url(w: usize, h: usize, px: &Vec<Rgb>) -> (url: String)
    requires
        fits_bmp(px@, w as int, h as int),
    ensures
        url@ == bmp_url(px@, w as int, h as int),
{
    let mut url: String = "url(data:image/bmp;base64,".to_owned();
    url.append(base64::base64_encode(bmp(w, h, px).as_slice()).as_str());
    url.append(")");
    url
}

proof fn lemma_pixels_len(px: Seq<Rgb>, w: int, y: int, n: nat)
    ensures
        bmp_pixels(px, w, y, n).len() == 3 * n,
    decreases n,
{
    if n > 0 {
        lemma_pixels_len(px, w, y, (n - 1) as nat);
    }
}

proof fn lemma_pixel_in_row(px: Seq<Rgb>, w: int, y: int, n: nat, x: int)
    requires
        0 <= x < n,
    ensures
        bmp_pixels(px, w, y, n)[3 * x] == px[y * w + x].b,
        bmp_pixels(px, w, y, n)[3 * x + 1] == px[y * w + x].g,
        bmp_pixels(px, w, y, n)[3 * x + 2] == px[y * w + x].r,
    decreases n,
{
    lemma_pixels_len(px, w, y, (n - 1) as nat);
    if x < n - 1 {
        lemma_pixel_in_row(px, w, y, (n - 1) as nat, x);
    }
}

proof fn lemma_rows_len(px: Seq<Rgb>, w: int, h: int, n: nat)
    requires
        w >= 0,
    ensures
        bmp_rows(px, w, h, n).len() == stride(w) * n,
    decreases n,
{
    if n > 0 {
        lemma_rows_len(px, w, h, (n - 1) as nat);
        lemma_pixels_len(px, w, h - n, w as nat);
        assert(stride(w) * (n - 1) + stride(w) == stride(w) * n) by (nonlinear_arith);
    } else {
        assert(stride(w) * 0 == 0) by (nonlinear_arith);
    }
}

/// A bitmap is the size its own header says, whatever width it was asked for.
pub proof fn law_a_bitmap_is_the_size_its_header_says(px: Seq<Rgb>, w: int, h: int)
    requires
        fits_bmp(px, w, h),
    ensures
        bmp_bytes(px, w, h).len() == 54 + stride(w) * h,
        read_le32(bmp_bytes(px, w, h), 2) == bmp_bytes(px, w, h).len(),
        read_le32(bmp_bytes(px, w, h), 10) == 54,
        read_le32(bmp_bytes(px, w, h), 18) == w,
        read_le32(bmp_bytes(px, w, h), 22) == h,
{
    lemma_rows_len(px, w, h, h as nat);
    let s = stride(w);
    assert(s * h >= 0) by (nonlinear_arith)
        requires
            s >= 0,
            h >= 0,
    ;
    let n = 54 + s * h;
    let all = bmp_bytes(px, w, h);
    assert(bmp_header(w, h).len() == 54);
    assert(all.subrange(2, 6) =~= le32(n));
    assert(all.subrange(10, 14) =~= le32(54));
    assert(all.subrange(18, 22) =~= le32(w));
    assert(all.subrange(22, 26) =~= le32(h));
    lemma_le32_reads_back(all, 2, n);
    lemma_le32_reads_back(all, 10, 54);
    lemma_le32_reads_back(all, 18, w);
    lemma_le32_reads_back(all, 22, h);
}

proof fn lemma_le32_reads_back(s: Seq<u8>, at: int, n: int)
    requires
        0 <= at,
        at + 4 <= s.len(),
        0 <= n <= u32::MAX,
        s.subrange(at, at + 4) == le32(n),
    ensures
        read_le32(s, at) == n,
{
    let q = s.subrange(at, at + 4);
    assert(s[at] == q[0] && s[at + 1] == q[1] && s[at + 2] == q[2] && s[at + 3] == q[3]);
}

/// The pixel at column `x` of row `y`, counted from the top, is in the file at the place
/// that a bitmap keeps it: rows from the bottom up, blue before green before red.
pub proof fn law_a_pixel_is_where_a_bitmap_keeps_it(px: Seq<Rgb>, w: int, h: int, x: int, y: int)
    requires
        fits_bmp(px, w, h),
        0 <= x < w,
        0 <= y < h,
    ensures
        ({
            let at = 54 + stride(w) * (h - 1 - y) + 3 * x;
            &&& bmp_bytes(px, w, h)[at] == px[y * w + x].b
            &&& bmp_bytes(px, w, h)[at + 1] == px[y * w + x].g
            &&& bmp_bytes(px, w, h)[at + 2] == px[y * w + x].r
        }),
{
    assert(bmp_header(w, h).len() == 54);
    lemma_pixel_in_rows(px, w, h, h as nat, x, y);
    lemma_rows_len(px, w, h, h as nat);
    let s = stride(w);
    assert(0 <= s * (h - 1 - y)) by (nonlinear_arith)
        requires
            0 <= s,
            y < h,
    ;
}

proof fn lemma_pixel_in_rows(px: Seq<Rgb>, w: int, h: int, n: nat, x: int, y: int)
    requires
        0 <= x < w,
        h - n <= y < h,
        n <= h,
    ensures
        ({
            let at = stride(w) * (h - 1 - y) + 3 * x;
            &&& 0 <= at
            &&& at + 2 < bmp_rows(px, w, h, n).len()
            &&& bmp_rows(px, w, h, n)[at] == px[y * w + x].b
            &&& bmp_rows(px, w, h, n)[at + 1] == px[y * w + x].g
            &&& bmp_rows(px, w, h, n)[at + 2] == px[y * w + x].r
        }),
    decreases n,
{
    let s = stride(w);
    lemma_rows_len(px, w, h, (n - 1) as nat);
    lemma_pixels_len(px, w, h - n, w as nat);
    if y == h - n {
        assert(s * (h - 1 - y) == s * (n - 1)) by (nonlinear_arith)
            requires
                y == h - n,
        ;
        assert(0 <= s * (n - 1)) by (nonlinear_arith)
            requires
                0 <= s,
                1 <= n,
        ;
        let row = bmp_row(px, w, y);
        lemma_pixel_in_row(px, w, y, w as nat, x);
        assert(row[3 * x] == bmp_pixels(px, w, y, w as nat)[3 * x]);
        assert(row[3 * x + 1] == bmp_pixels(px, w, y, w as nat)[3 * x + 1]);
        assert(row[3 * x + 2] == bmp_pixels(px, w, y, w as nat)[3 * x + 2]);
    } else {
        lemma_pixel_in_rows(px, w, h, (n - 1) as nat, x, y);
    }
}

// --- the picker ---

/// What a pointer sample on one of the picker's controls means. Decided once, at the press,
/// and held for the whole gesture.
///
/// Places are fractions of the control's box, in millionths of it.
#[derive(Clone, Copy, PartialEq, Eq, Debug)]
pub enum Grab {
    /// The pointer *is* the value, so a press with no travel is already a complete pick.
    At,
    /// The value moves *with* the pointer at a fifth of its travel, from where it already
    /// stood. The press picks nothing at all.
    Fine { from: (i32, i32), held: (i32, i32) },
}

impl Grab {
    /// What a press means, given where it landed in the control (`None` where that could
    /// not be measured), whether Shift was down, and where the marker stood.
    pub fn press(at: Option<(i32, i32)>, shift: bool, held: (i32, i32)) -> (grab: Grab)
        ensures
            grab == match at {
                Some(from) if shift => Grab::Fine { from, held },
                _ => Grab::At,
            },
    {
        match at {
            Some(from) => if shift {
                Grab::Fine { from, held }
            } else {
                Grab::At
            },
            None => Grab::At,
        }
    }

    /// Five times the place that the sample at `p` points to, on one axis.
    pub open spec fn pointed(self, p: (i32, i32), axis: int) -> int {
        let at = if axis == 0 {
            p.0
        } else {
            p.1
        };
        match self {
            Grab::At => 5 * at,
            Grab::Fine { from, held } => if axis == 0 {
                5 * held.0 + (at - from.0)
            } else {
                5 * held.1 + (at - from.1)
            },
        }
    }

    /// Where in the control's box this sample points, in fifths of a millionth of it.
    pub fn place(self, p: (i32, i32)) -> (at: (i64, i64))
        ensures
            at.0 == self.pointed(p, 0),
            at.1 == self.pointed(p, 1),
    {
        match self {
            Grab::At => (5 * (p.0 as i64), 5 * (p.1 as i64)),
            Grab::Fine { from, held } => (
                5 * (held.0 as i64) + (p.0 as i64 - from.0 as i64),
                5 * (held.1 as i64) + (p.1 as i64 - from.1 as i64),
            ),
        }
    }
}

/// A fine press picks nothing: the marker stays where it stood until the pointer moves.
pub proof fn law_a_fine_press_picks_nothing(from: (i32, i32), held: (i32, i32))
    ensures
        (Grab::Fine { from, held }).pointed(from, 0) == 5 * held.0,
        (Grab::Fine { from, held }).pointed(from, 1) == 5 * held.1,
{
}

/// End a drag, and say whether there was one: a stray release commits nothing. A cancelled
/// pick still commits, because every instant of it is a colour that was chosen.
pub fn end_pick(grab: &mut Option<Grab>) -> (commits: bool)
    ensures
        commits == (*old(grab) is Some),
        *final(grab) is None,
{
    let commits: bool = grab.is_some();
    *grab = None;
    commits
}

/// Take what has been typed as the whole colour, if it names one. The draft is cleared
/// either way, so a field that cannot be read goes back to showing the colour.
pub fn commit_hex(draft: &mut Option<String>) -> (color: Option<Rgb>)
    ensures
        color == match *old(draft) {
            Some(typed) => typed_color(typed@),
            None => None,
        },
        *final(draft) is None,
{
    let color: Option<Rgb> = match draft {
        Some(typed) => parse_hex(typed.as_str()),
        None => None,
    };
    *draft = None;
    color
}

/// What the field shows: what is being typed in it, or else the colour.
pub fn shown(draft: &Option<String>, color: Rgb) -> (words: String)
    ensures
        words@ == match *draft {
            Some(typed) => typed@,
            None => hex_code(color),
        },
{
    match draft {
        Some(typed) => typed.clone(),
        None => hex_of(color),
    }
}

/// Whether the markers are to be set again from the colour: only a moved seed says so,
/// since following every change of the colour would spin a marker under the hand that
/// dragged it.
pub fn reseeds(seed: u64, seeded: &mut u64) -> (again: bool)
    ensures
        again == (seed != *old(seeded)),
        *final(seeded) == seed,
{
    let again: bool = seed != *seeded;
    *seeded = seed;
    again
}

/// The colour a session starts on, by the bits of its channels: sixty-one, four and two
/// hundredths.
pub const INITIAL_COLOR: [u32; 3] = [0x3f1c_28f6, 0x3d23_d70a, 0x3ca3_d70a];

/// The colour a session starts on.
pub fn initial_color() -> (color: Srgb)
    ensures
        color.r.bits == INITIAL_COLOR[0],
        color.g.bits == INITIAL_COLOR[1],
        color.b.bits == INITIAL_COLOR[2],
{
    Srgb {
        r: amount(INITIAL_COLOR[0]),
        g: amount(INITIAL_COLOR[1]),
        b: amount(INITIAL_COLOR[2]),
    }
}

/// A hexadecimal digit counts up from nought to nine and on from A to F, in either case, and
/// nothing else is one.
pub proof fn law_a_hexadecimal_digit_counts_on_past_nine(c: char, v: Option<u8>)
    requires
        call_ensures(digit_value, (c,), v),
    ensures
        '0' <= c <= '9' ==> (v matches Some(n) && n == c as int - '0' as int),
        'a' <= c <= 'f' ==> (v matches Some(n) && n == 10 + (c as int - 'a' as int)),
        'A' <= c <= 'F' ==> (v matches Some(n) && n == 10 + (c as int - 'A' as int)),
        !('0' <= c <= '9' || 'a' <= c <= 'f' || 'A' <= c <= 'F') ==> v is None,
        v matches Some(n) ==> is_hex(c) && n == hex_value(c),
        v is None ==> !is_hex(c),
{
}

/// A code is a hash and three pairs of digits, of red, of green and of blue, the high digit first
/// and the letters small.
pub proof fn law_a_code_is_red_green_and_blue(c: Rgb, code: String)
    requires
        call_ensures(hex_of, (c,), code),
    ensures
        code@.len() == 7,
        code@[0] == '#',
        forall|i: int|
            1 <= i < 7 ==> '0' <= #[trigger] code@[i] <= '9' || 'a' <= code@[i] <= 'f',
        hex_value(code@[1]) * 16 + hex_value(code@[2]) == c.r,
        hex_value(code@[3]) * 16 + hex_value(code@[4]) == c.g,
        hex_value(code@[5]) * 16 + hex_value(code@[6]) == c.b,
{
    lemma_hex_digit(c.r as int / 16);
    lemma_hex_digit(c.r as int % 16);
    lemma_hex_digit(c.g as int / 16);
    lemma_hex_digit(c.g as int % 16);
    lemma_hex_digit(c.b as int / 16);
    lemma_hex_digit(c.b as int % 16);
}

/// A typed text names a colour where, without the white space around it and one hash in front, it
/// is six digits or three and no more. A hash more or a digit less names none.
pub proof fn law_a_typed_code_is_three_digits_or_six(s: &str, color: Option<Rgb>, body: Seq<char>)
    requires
        call_ensures(parse_hex, (s,), color),
        text::trimmed(s@) == seq!['#'] + body || text::trimmed(s@) == body && (body.len() == 0
            || body[0] != '#'),
    ensures
        color is Some <==> (body.len() == 3 || body.len() == 6) && forall|i: int|
            0 <= i < body.len() ==> is_hex(#[trigger] body[i]),
        color matches Some(c) ==> {
            &&& body.len() == 6 ==> c.r == hex_value(body[0]) * 16 + hex_value(body[1])
            &&& body.len() == 6 ==> c.g == hex_value(body[2]) * 16 + hex_value(body[3])
            &&& body.len() == 6 ==> c.b == hex_value(body[4]) * 16 + hex_value(body[5])
            &&& body.len() == 3 ==> c.r == hex_value(body[0]) * 16 + hex_value(body[0])
            &&& body.len() == 3 ==> c.g == hex_value(body[1]) * 16 + hex_value(body[1])
            &&& body.len() == 3 ==> c.b == hex_value(body[2]) * 16 + hex_value(body[2])
        },
{
    assert(unhashed(text::trimmed(s@)) =~= body);
    if all_hex(body) {
        assert forall|i: int| 0 <= i < body.len() implies 0 <= hex_value(#[trigger] body[i]) < 16 by {
            assert(is_hex(body[i]));
        }
        if body.len() == 6 {
            assert(0 <= hex_value(body[0]) < 16 && 0 <= hex_value(body[1]) < 16);
            assert(0 <= hex_value(body[2]) < 16 && 0 <= hex_value(body[3]) < 16);
            assert(0 <= hex_value(body[4]) < 16 && 0 <= hex_value(body[5]) < 16);
        }
        if body.len() == 3 {
            assert(0 <= hex_value(body[0]) < 16 && 0 <= hex_value(body[1]) < 16);
            assert(0 <= hex_value(body[2]) < 16);
        }
    }
}

/// A row takes three bytes to a pixel, and no more than it must to be a multiple of four.
pub proof fn law_a_row_is_padded_to_a_multiple_of_four(w: int)
    requires
        w >= 0,
    ensures
        stride(w) % 4 == 0,
        3 * w <= stride(w) < 3 * w + 4,
{
}

/// A bitmap's header says what it is: the mark of the format, forty bytes of description, one
/// plane of twenty-four bits a pixel, nothing compressed and no palette, and how many bytes of
/// pixels follow it.
pub proof fn law_a_bitmap_says_what_it_is(px: Seq<Rgb>, w: int, h: int)
    requires
        fits_bmp(px, w, h),
    ensures
        ({
            let file = bmp_bytes(px, w, h);
            &&& file[0] == 0x42 && file[1] == 0x4d
            &&& read_le32(file, 14) == 40
            &&& file[26] == 1 && file[27] == 0 && file[28] == 24 && file[29] == 0
            &&& read_le32(file, 30) == 0
            &&& read_le32(file, 34) == file.len() - 54
            &&& read_le32(file, 46) == 0 && read_le32(file, 50) == 0
        }),
{
    law_a_bitmap_is_the_size_its_header_says(px, w, h);
    let s = stride(w);
    assert(s * h >= 0) by (nonlinear_arith)
        requires
            s >= 0,
            h >= 0,
    ;
    let all = bmp_bytes(px, w, h);
    assert(bmp_header(w, h).len() == 54);
    assert(all.subrange(14, 18) =~= le32(40));
    assert(all.subrange(30, 34) =~= le32(0));
    assert(all.subrange(34, 38) =~= le32(s * h));
    assert(all.subrange(46, 50) =~= le32(0));
    assert(all.subrange(50, 54) =~= le32(0));
    lemma_le32_reads_back(all, 14, 40);
    lemma_le32_reads_back(all, 30, 0);
    lemma_le32_reads_back(all, 34, s * h);
    lemma_le32_reads_back(all, 46, 0);
    lemma_le32_reads_back(all, 50, 0);
}

/// Four bytes hold a number from the least significant up.
pub proof fn law_four_bytes_hold_a_number_from_the_least_up(s: Seq<u8>, at: int)
    ensures
        read_le32(s, at) == s[at] + 256 * (s[at + 1] + 256 * (s[at + 2] + 256 * s[at + 3])),
{
}

/// What is drawn with a bitmap is the bitmap: the address holds its bytes, all of them.
pub proof fn law_a_bitmap_s_address_holds_its_bytes(
    w: usize,
    h: usize,
    px: &Vec<Rgb>,
    file: Vec<u8>,
    url: String,
)
    requires
        fits_bmp(px@, w as int, h as int),
        call_ensures(bmp, (w, h, px), file),
        call_ensures(bmp_data_url, (w, h, px), url),
    ensures
        url@ == "url(data:image/bmp;base64,"@ + base64::encoded(file@) + ")"@,
{
}

/// A press lands where it is, and a coarse drag goes with the pointer. A fine one starts from
/// where the marker stood and goes a fifth as far, on each axis by that axis's travel alone.
pub proof fn law_a_fine_drag_goes_a_fifth_as_far(
    grab: Grab,
    p: (i32, i32),
    q: (i32, i32),
    at: (i64, i64),
    to: (i64, i64),
)
    requires
        call_ensures(Grab::place, (grab, p), at),
        call_ensures(Grab::place, (grab, q), to),
    ensures
        grab is At ==> at.0 == 5 * p.0 && at.1 == 5 * p.1,
        grab is At ==> to.0 - at.0 == 5 * (q.0 - p.0) && to.1 - at.1 == 5 * (q.1 - p.1),
        grab is Fine ==> to.0 - at.0 == q.0 - p.0 && to.1 - at.1 == q.1 - p.1,
        grab matches Grab::Fine { from, held } ==> (from == p ==> at.0 == 5 * held.0 && at.1 == 5
            * held.1),
{
}

} // verus!
