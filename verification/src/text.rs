//! Text as sequences of characters: decimal numbers, lengths in pixels, trimming, and
//! comparing names.
use vstd::prelude::*;

verus! {

/// `String::push` appends one character to the end of the string.
pub assume_specification[ String::push ](s: &mut String, c: char)
    ensures
        final(s)@ == old(s)@.push(c),
;

/// The character of a decimal digit.
pub open spec fn digit(d: nat) -> char {
    (48 + d) as char
}

/// The decimal digits of `n`, the way numbers are written: most significant first, no
/// leading zero.
pub open spec fn decimal(n: nat) -> Seq<char>
    decreases n,
{
    if n < 10 {
        seq![digit(n)]
    } else {
        decimal(n / 10).push(digit(n % 10))
    }
}

/// The number that a run of decimal digits writes.
pub open spec fn value(s: Seq<char>) -> int
    decreases s.len(),
{
    if s.len() == 0 {
        0
    } else {
        value(s.drop_last()) * 10 + (s.last() as int - 48)
    }
}

/// A decimal reads back as the number it was written from.
pub proof fn law_decimal_reads_back(n: nat)
    ensures
        value(decimal(n)) == n,
    decreases n,
{
    if n < 10 {
        assert(decimal(n).drop_last() =~= Seq::<char>::empty());
        assert(value(Seq::<char>::empty()) == 0);
    } else {
        law_decimal_reads_back(n / 10);
        assert(decimal(n).drop_last() =~= decimal(n / 10));
    }
}

/// Two numbers written alike are the same number.
pub proof fn law_decimals_differ(a: nat, b: nat)
    requires
        decimal(a) == decimal(b),
    ensures
        a == b,
{
    law_decimal_reads_back(a);
    law_decimal_reads_back(b);
}

pub fn digit_char(d: u8) -> (c: char)
    requires
        d < 10,
    ensures
        c == digit(d as nat),
{
    (48 + d) as char
}

/// `n` in decimal.
pub fn decimal_string(n: u128) -> (s: String)
    ensures
        s@ == decimal(n as nat),
    decreases n,
{
    let mut s: String = if n < 10 {
        String::new()
    } else {
        decimal_string(n / 10)
    };
    s.push(digit_char((n % 10) as u8));
    assert(n < 10 ==> s@ =~= decimal(n as nat));
    s
}

/// The digits after the point of `r / 64`, by long division, as far as they go and at
/// most `places` of them.
pub open spec fn fraction(r: nat, places: nat) -> Seq<char>
    decreases places,
{
    if r == 0 || places == 0 {
        Seq::empty()
    } else {
        seq![digit(r * 10 / 64)] + fraction(r * 10 % 64, (places - 1) as nat)
    }
}

/// A length in 64ths of a pixel, written in pixels. Six places always reach the end of the
/// fraction, since a million is a multiple of sixty-four.
pub open spec fn pixels(v: int) -> Seq<char> {
    let a: nat = if v < 0 {
        -v as nat
    } else {
        v as nat
    };
    (if v < 0 {
        seq!['-']
    } else {
        Seq::empty()
    }) + decimal(a / 64) + (if a % 64 == 0 {
        Seq::empty()
    } else {
        seq!['.'] + fraction(a % 64, 6)
    })
}

/// Long division of `r / 64` leaves nothing after six places.
pub proof fn law_six_places_are_exact(r: nat)
    requires
        r < 64,
    ensures
        r * 10 % 64 * 10 % 64 * 10 % 64 * 10 % 64 * 10 % 64 * 10 % 64 == 0,
{
    assert(r * 10 % 64 * 10 % 64 * 10 % 64 * 10 % 64 * 10 % 64 * 10 % 64 == 0)
        by (nonlinear_arith)
        requires
            r < 64,
    ;
}

fn push_fraction(s: &mut String, r: u64)
    requires
        r < 64,
    ensures
        final(s)@ == old(s)@ + fraction(r as nat, 6),
{
    let ghost start = s@;
    let mut left: u64 = r;
    let mut places: u64 = 6;
    while left != 0 && places != 0
        invariant
            left < 64,
            places <= 6,
            s@ + fraction(left as nat, places as nat) == start + fraction(r as nat, 6),
        decreases places,
    {
        let ghost before = s@;
        let ghost rest = fraction((left * 10 % 64) as nat, (places - 1) as nat);
        s.push(digit_char((left * 10 / 64) as u8));
        assert(before + (seq![digit((left * 10 / 64) as nat)] + rest) =~= s@ + rest);
        left = left * 10 % 64;
        places = places - 1;
    }
    assert(s@ + fraction(left as nat, places as nat) =~= s@);
}

/// The length `v`, in 64ths of a pixel, written in pixels.
pub fn pixels_string(v: i64) -> (s: String)
    ensures
        s@ == pixels(v as int),
{
    let mut s: String = String::new();
    let a: u64 = if v < 0 {
        (-(v as i128)) as u64
    } else {
        v as u64
    };
    if v < 0 {
        s.push('-');
    }
    let ghost sign = s@;
    s.append(decimal_string((a / 64) as u128).as_str());
    if a % 64 != 0 {
        s.push('.');
        push_fraction(&mut s, a % 64);
        assert(sign + decimal((a / 64) as nat) + (seq!['.'] + fraction((a % 64) as nat, 6)) =~= (
        sign + decimal((a / 64) as nat)).push('.') + fraction((a % 64) as nat, 6));
    } else {
        assert(sign + decimal((a / 64) as nat) + Seq::<char>::empty() =~= s@);
    }
    assert(sign =~= (if v < 0 {
        seq!['-']
    } else {
        Seq::empty()
    }));
    s
}

/// The characters of `s`.
pub fn chars_of(s: &str) -> (chars: Vec<char>)
    ensures
        chars@ == s@,
{
    let mut chars: Vec<char> = Vec::new();
    for c in it: s.chars()
        invariant
            it.seq() == s@,
            chars@ == s@.take(it.index() as int),
    {
        chars.push(c);
        assert(s@.take(it.index() as int + 1) =~= s@.take(it.index() as int).push(c));
    }
    assert(s@.take(s@.len() as int) =~= s@);
    chars
}

/// The string of the characters from `from` up to `to`.
pub fn string_of(chars: &Vec<char>, from: usize, to: usize) -> (s: String)
    requires
        from <= to <= chars@.len(),
    ensures
        s@ == chars@.subrange(from as int, to as int),
{
    let mut s: String = String::new();
    let mut i: usize = from;
    assert(s@ =~= chars@.subrange(from as int, from as int));
    while i < to
        invariant
            from <= i <= to <= chars@.len(),
            s@ == chars@.subrange(from as int, i as int),
        decreases to - i,
    {
        s.push(chars[i]);
        assert(s@ =~= chars@.subrange(from as int, i as int + 1));
        i = i + 1;
    }
    s
}

/// Whether the first characters of `text` are those of `head`.
fn opens_with(text: &Vec<char>, head: &Vec<char>) -> (yes: bool)
    ensures
        yes == head@.is_prefix_of(text@),
{
    if head.len() > text.len() {
        return false;
    }
    let mut i: usize = 0;
    while i < head.len()
        invariant
            i <= head@.len() <= text@.len(),
            head@.take(i as int) == text@.take(i as int),
        decreases head@.len() - i,
    {
        if head[i] != text[i] {
            assert(text@.subrange(0, head@.len() as int)[i as int] != head@[i as int]);
            return false;
        }
        assert(head@.take(i as int + 1) =~= head@.take(i as int).push(head@[i as int]));
        assert(text@.take(i as int + 1) =~= text@.take(i as int).push(text@[i as int]));
        i = i + 1;
    }
    assert(head@.take(head@.len() as int) =~= head@);
    assert(text@.subrange(0, head@.len() as int) =~= text@.take(head@.len() as int));
    true
}

/// Whether two texts are the same.
pub fn same(a: &str, b: &str) -> (yes: bool)
    ensures
        yes == (a@ == b@),
{
    let left: Vec<char> = chars_of(a);
    let right: Vec<char> = chars_of(b);
    let yes: bool = left.len() == right.len() && opens_with(&left, &right);
    assert(left@.len() == right@.len() ==> left@.subrange(0, right@.len() as int) =~= left@);
    yes
}

/// Whether `s` begins with `head`.
pub fn begins(s: &str, head: &str) -> (yes: bool)
    ensures
        yes == head@.is_prefix_of(s@),
{
    opens_with(&chars_of(s), &chars_of(head))
}

/// What follows `head` in a text that begins with it.
pub fn after(s: &str, head: &str) -> (rest: Option<String>)
    ensures
        rest is Some <==> head@.is_prefix_of(s@),
        rest matches Some(r) ==> r@ == s@.skip(head@.len() as int),
{
    if begins(s, head) {
        let chars: Vec<char> = chars_of(s);
        let from: usize = chars_of(head).len();
        let rest: String = string_of(&chars, from, chars.len());
        assert(rest@ =~= s@.skip(head@.len() as int));
        Some(rest)
    } else {
        None
    }
}

/// Unicode's white space.
pub open spec fn is_white(c: char) -> bool {
    let n = c as u32;
    ||| 0x09 <= n <= 0x0d
    ||| n == 0x20
    ||| n == 0x85
    ||| n == 0xa0
    ||| n == 0x1680
    ||| 0x2000 <= n <= 0x200a
    ||| n == 0x2028
    ||| n == 0x2029
    ||| n == 0x202f
    ||| n == 0x205f
    ||| n == 0x3000
}

/// Where the text starts, after the white space in front of it.
pub open spec fn first_ink(s: Seq<char>) -> int
    decreases s.len(),
{
    if s.len() == 0 || !is_white(s[0]) {
        0
    } else {
        1 + first_ink(s.drop_first())
    }
}

/// The text without the white space behind it.
pub open spec fn trimmed_end(s: Seq<char>) -> Seq<char>
    decreases s.len(),
{
    if s.len() == 0 || !is_white(s.last()) {
        s
    } else {
        trimmed_end(s.drop_last())
    }
}

/// The text without the white space around it.
pub open spec fn trimmed(s: Seq<char>) -> Seq<char> {
    trimmed_end(s.skip(first_ink(s)))
}

pub fn white(c: char) -> (yes: bool)
    ensures
        yes == is_white(c),
{
    let n: u32 = c as u32;
    0x09 <= n && n <= 0x0d || n == 0x20 || n == 0x85 || n == 0xa0 || n == 0x1680 || 0x2000 <= n && n
        <= 0x200a || n == 0x2028 || n == 0x2029 || n == 0x202f || n == 0x205f || n == 0x3000
}

/// The text without the white space around it.
pub fn trim(s: &str) -> (t: String)
    ensures
        t@ == trimmed(s@),
{
    let chars: Vec<char> = chars_of(s);
    let mut from: usize = 0;
    assert(chars@.skip(0) =~= chars@);
    while from < chars.len() && white(chars[from])
        invariant
            from <= chars@.len(),
            first_ink(chars@) == from + first_ink(chars@.skip(from as int)),
        decreases chars@.len() - from,
    {
        assert(chars@.skip(from as int).drop_first() =~= chars@.skip(from as int + 1));
        from = from + 1;
    }
    let mut to: usize = chars.len();
    assert(chars@.subrange(from as int, to as int) =~= chars@.skip(from as int));
    while from < to && white(chars[to - 1])
        invariant
            from <= to <= chars@.len(),
            trimmed_end(chars@.skip(from as int)) == trimmed_end(
                chars@.subrange(from as int, to as int),
            ),
        decreases to - from,
    {
        assert(chars@.subrange(from as int, to as int).drop_last() =~= chars@.subrange(
            from as int,
            to as int - 1,
        ));
        to = to - 1;
    }
    string_of(&chars, from, to)
}

/// Trimming what is trimmed changes nothing.
pub proof fn law_trimming_settles(s: Seq<char>)
    ensures
        trimmed(trimmed(s)) == trimmed(s),
{
    let t = s.skip(first_ink(s));
    lemma_first_ink(s);
    lemma_trimmed_end(t);
    let u = trimmed_end(t);
    lemma_first_ink(u);
    assert(first_ink(u) == 0) by {
        if u.len() > 0 {
            assert(u[0] == t[0]);
        }
    }
    assert(u.skip(0) =~= u);
    lemma_trimmed_end(u);
}

pub proof fn lemma_first_ink(s: Seq<char>)
    ensures
        0 <= first_ink(s) <= s.len(),
        first_ink(s) < s.len() ==> !is_white(s[first_ink(s)]),
    decreases s.len(),
{
    if s.len() > 0 && is_white(s[0]) {
        lemma_first_ink(s.drop_first());
    }
}

proof fn lemma_trimmed_end(s: Seq<char>)
    ensures
        trimmed_end(s).is_prefix_of(s),
        trimmed_end(s).len() > 0 ==> !is_white(trimmed_end(s).last()),
        trimmed_end(trimmed_end(s)) == trimmed_end(s),
    decreases s.len(),
{
    if s.len() > 0 && is_white(s.last()) {
        lemma_trimmed_end(s.drop_last());
        assert(trimmed_end(s) =~= s.subrange(0, trimmed_end(s).len() as int));
    } else {
        assert(s =~= s.subrange(0, s.len() as int));
    }
}

/// A text starts at its first ink: all that is before it is white space.
pub proof fn law_a_text_starts_at_its_first_ink(s: Seq<char>)
    ensures
        0 <= first_ink(s) <= s.len(),
        forall|i: int| 0 <= i < first_ink(s) ==> is_white(#[trigger] s[i]),
        first_ink(s) < s.len() ==> !is_white(s[first_ink(s)]),
    decreases s.len(),
{
    if s.len() > 0 && is_white(s[0]) {
        let rest = s.drop_first();
        law_a_text_starts_at_its_first_ink(rest);
        assert forall|i: int| 0 <= i < first_ink(s) implies is_white(#[trigger] s[i]) by {
            if i > 0 {
                assert(s[i] == rest[i - 1]);
            }
        }
        if first_ink(s) < s.len() {
            assert(s[first_ink(s)] == rest[first_ink(rest)]);
        }
    }
}

proof fn lemma_only_white_is_cut_behind(s: Seq<char>)
    ensures
        trimmed_end(s).len() <= s.len(),
        forall|i: int| trimmed_end(s).len() <= i < s.len() ==> is_white(#[trigger] s[i]),
    decreases s.len(),
{
    if s.len() > 0 && is_white(s.last()) {
        let rest = s.drop_last();
        lemma_only_white_is_cut_behind(rest);
        assert forall|i: int| trimmed_end(s).len() <= i < s.len() implies is_white(
            #[trigger] s[i],
        ) by {
            if i < rest.len() {
                assert(s[i] == rest[i]);
            }
        }
    }
}

/// Trimming cuts white space off both ends of a text and nothing else: what is left is a stretch
/// of it that neither starts nor ends with white space, and all that is cut is white space.
pub proof fn law_trimming_cuts_white_space_and_nothing_else(s: &str, t: String)
    requires
        call_ensures(trim, (s,), t),
    ensures
        ({
            let from = first_ink(s@);
            let to = from + t@.len();
            &&& 0 <= from <= to <= s@.len()
            &&& t@ == s@.subrange(from, to)
            &&& forall|i: int| 0 <= i < from ==> is_white(#[trigger] s@[i])
            &&& forall|i: int| to <= i < s@.len() ==> is_white(#[trigger] s@[i])
            &&& t@.len() > 0 ==> !is_white(t@[0]) && !is_white(t@.last())
        }),
{
    let from = first_ink(s@);
    let rest = s@.skip(from);
    law_a_text_starts_at_its_first_ink(s@);
    lemma_trimmed_end(rest);
    lemma_only_white_is_cut_behind(rest);
    let to = from + t@.len();
    assert(t@ =~= s@.subrange(from, to));
    assert forall|i: int| to <= i < s@.len() implies is_white(#[trigger] s@[i]) by {
        assert(s@[i] == rest[i - from]);
    }
    if t@.len() > 0 {
        assert(t@[0] == s@[from]);
    }
}

/// A number is written in digits, with no zero in front of another.
pub proof fn law_a_decimal_has_no_leading_zero(n: nat)
    ensures
        decimal(n).len() > 0,
        forall|i: int| 0 <= i < decimal(n).len() ==> '0' <= #[trigger] decimal(n)[i] <= '9',
        n > 0 ==> decimal(n)[0] != '0',
        n == 0 ==> decimal(n) == seq!['0'],
    decreases n,
{
    if n >= 10 {
        law_a_decimal_has_no_leading_zero(n / 10);
    }
}

proof fn lemma_value_of_a_head(d: char, rest: Seq<char>)
    ensures
        value(seq![d] + rest) == (d as int - 48) * power(rest.len()) + value(rest),
    decreases rest.len(),
{
    if rest.len() == 0 {
        assert((seq![d] + rest).drop_last() =~= Seq::<char>::empty());
        assert((seq![d] + rest).last() == d);
        assert(value(Seq::<char>::empty()) == 0);
        assert(power(0) == 1);
        assert((d as int - 48) * 1 == d as int - 48);
    } else {
        lemma_value_of_a_head(d, rest.drop_last());
        assert((seq![d] + rest).drop_last() =~= seq![d] + rest.drop_last());
        let p = power((rest.len() - 1) as nat);
        let k = d as int - 48;
        assert((seq![d] + rest).last() == rest.last());
        assert(power(rest.len()) == 10 * p);
        assert((k * p + value(rest.drop_last())) * 10 == k * (10 * p) + value(rest.drop_last()) * 10)
            by (nonlinear_arith);
    }
}

/// Ten times itself, so often.
pub open spec fn power(n: nat) -> nat
    decreases n,
{
    if n == 0 {
        1
    } else {
        10 * power((n - 1) as nat)
    }
}

proof fn lemma_fraction(r: nat, places: nat)
    requires
        r < 64,
    ensures
        fraction(r, places).len() <= places,
        64 * value(fraction(r, places)) <= r * power(fraction(r, places).len()),
        r * power(fraction(r, places).len()) < 64 * value(fraction(r, places)) + 64,
        fraction(r, places).len() < places ==> 64 * value(fraction(r, places)) == r * power(
            fraction(r, places).len(),
        ),
    decreases places,
{
    if r == 0 || places == 0 {
        assert(value(Seq::<char>::empty()) == 0);
        assert(power(0) == 1);
        assert(r * 1 == r);
    } else {
        let d = r * 10 / 64;
        let left = r * 10 % 64;
        let rest = fraction(left, (places - 1) as nat);
        lemma_fraction(left, (places - 1) as nat);
        lemma_value_of_a_head(digit(d), rest);
        assert(fraction(r, places) =~= seq![digit(d)] + rest);
        let p = power(rest.len());
        assert(power(fraction(r, places).len()) == 10 * p);
        assert(r * (10 * p) == 64 * (d * p) + left * p) by (nonlinear_arith)
            requires
                r * 10 == 64 * d + left,
        ;
        assert(digit(d) as int - 48 == d);
    }
}

/// A length in pixels is exact, to the last digit that is written: a sign where it is negative,
/// the whole pixels, and behind a point the rest of it, as many 64ths as there are.
pub proof fn law_a_length_is_written_exactly(v: i64, words: String)
    requires
        call_ensures(pixels_string, (v,), words),
    ensures
        ({
            let size = if v < 0 {
                -v
            } else {
                v as int
            };
            let sign = if v < 0 {
                seq!['-']
            } else {
                Seq::<char>::empty()
            };
            let whole = decimal((size / 64) as nat);
            let left = size % 64;
            &&& left == 0 ==> words@ == sign + whole
            &&& left != 0 ==> exists|tail: Seq<char>|
                words@ == sign + whole + seq!['.'] + tail && 64 * #[trigger] value(tail) == left
                    * power(tail.len())
        }),
{
    let size: int = if v < 0 {
        -v
    } else {
        v as int
    };
    let left = (size % 64) as nat;
    let sign = if v < 0 {
        seq!['-']
    } else {
        Seq::<char>::empty()
    };
    let whole = decimal((size / 64) as nat);
    if left == 0 {
        assert(words@ =~= sign + whole);
    } else {
        let tail = fraction(left, 6);
        lemma_fraction(left, 6);
        assert(words@ =~= sign + whole + seq!['.'] + tail);
        if tail.len() == 6 {
            assert(power(6) == 1000000) by {
                reveal_with_fuel(power, 7);
            }
        }
        assert(64 * value(tail) == left * power(tail.len()));
    }
}

/// White space is the blank, the tab and the line ends, the blanks that do not break, and every
/// width of blank that Unicode has. Nothing that is printed is.
pub proof fn law_a_blank_of_any_width_is_white(c: char, yes: bool)
    requires
        call_ensures(white, (c,), yes),
    ensures
        c == ' ' || c == '\t' || c == '\n' || c == '\r' ==> yes,
        c == '\u{0B}' || c == '\u{0C}' || c == '\u{85}' || c == '\u{A0}' ==> yes,
        '\u{2000}' <= c <= '\u{200A}' ==> yes,
        c == '\u{1680}' || c == '\u{2028}' || c == '\u{2029}' || c == '\u{202F}' || c == '\u{205F}'
            || c == '\u{3000}' ==> yes,
        '!' <= c <= '~' || '\u{A1}' <= c <= '\u{167F}' || '\u{1681}' <= c <= '\u{1FFF}' ==> !yes,
        '\u{200B}' <= c <= '\u{2027}' || '\u{3001}' <= c ==> !yes,
{
}

} // verus!
