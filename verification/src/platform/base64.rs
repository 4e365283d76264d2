//! Standard base64 with padding, for data URLs and stored blobs.
use vstd::prelude::*;
use vstd::utf8::*;

verus! {

/// The character that stands for the six bits `v`.
pub open spec fn letter(v: int) -> char {
    if v < 26 {
        (65 + v) as char
    } else if v < 52 {
        (71 + v) as char
    } else if v < 62 {
        (v - 4) as char
    } else if v == 62 {
        '+'
    } else {
        '/'
    }
}

/// The byte is a letter of the alphabet.
pub open spec fn is_letter(c: u8) -> bool {
    65 <= c <= 90 || 97 <= c <= 122 || 48 <= c <= 57 || c == 43 || c == 47
}

/// The six bits that a letter of the alphabet stands for.
pub open spec fn sextet(c: u8) -> int {
    if 65 <= c <= 90 {
        c - 65
    } else if 97 <= c <= 122 {
        c - 71
    } else if 48 <= c <= 57 {
        c + 4
    } else if c == 43 {
        62
    } else {
        63
    }
}

/// The text of `data`: each three bytes as four letters, a short tail padded with `=`.
pub open spec fn encoded(data: Seq<u8>) -> Seq<char>
    decreases data.len(),
{
    if data.len() == 0 {
        Seq::empty()
    } else if data.len() == 1 {
        seq![letter(data[0] as int / 4), letter(data[0] as int % 4 * 16), '=', '=']
    } else if data.len() == 2 {
        seq![
            letter(data[0] as int / 4),
            letter(data[0] as int % 4 * 16 + data[1] as int / 16),
            letter(data[1] as int % 16 * 4),
            '=',
        ]
    } else {
        seq![
            letter(data[0] as int / 4),
            letter(data[0] as int % 4 * 16 + data[1] as int / 16),
            letter(data[1] as int % 16 * 4 + data[2] as int / 64),
            letter(data[2] as int % 64),
        ] + encoded(data.skip(3))
    }
}

/// Where the letters end: at the first `=`, or at the end.
pub open spec fn stop(text: Seq<u8>) -> nat
    decreases text.len(),
{
    if text.len() == 0 || text[0] == 61 {
        0
    } else {
        1 + stop(text.drop_first())
    }
}

/// Everything before the padding is of the alphabet.
pub open spec fn well_spelled(text: Seq<u8>) -> bool {
    forall|i: int| 0 <= i < stop(text) ==> is_letter(#[trigger] text[i])
}

/// The byte at `i` of what `text` decodes to: eight bits out of a row of sixes.
pub open spec fn decoded_byte(text: Seq<u8>, i: int) -> int {
    let k = i / 3 * 4;
    if i % 3 == 0 {
        sextet(text[k]) * 4 + sextet(text[k + 1]) / 16
    } else if i % 3 == 1 {
        sextet(text[k + 1]) % 16 * 16 + sextet(text[k + 2]) / 4
    } else {
        sextet(text[k + 2]) % 4 * 64 + sextet(text[k + 3])
    }
}

/// The bytes of `text`: as many whole bytes as its letters hold.
pub open spec fn decoded(text: Seq<u8>) -> Seq<u8> {
    Seq::new(stop(text) * 6 / 8, |i: int| decoded_byte(text, i) as u8)
}

fn letter_of(v: u8) -> (c: char)
    requires
        v < 64,
    ensures
        c == letter(v as int),
{
    if v < 26 {
        (65 + v) as char
    } else if v < 52 {
        (71 + v) as char
    } else if v < 62 {
        (v - 4) as char
    } else if v == 62 {
        '+'
    } else {
        '/'
    }
}

fn sextet_of(c: u8) -> (v: Option<u32>)
    ensures
        v is Some <==> is_letter(c),
        v matches Some(six) ==> six == sextet(c) && six < 64,
{
    if 65 <= c && c <= 90 {
        Some((c - 65) as u32)
    } else if 97 <= c && c <= 122 {
        Some((c - 71) as u32)
    } else if 48 <= c && c <= 57 {
        Some((c + 4) as u32)
    } else if c == 43 {
        Some(62)
    } else if c == 47 {
        Some(63)
    } else {
        None
    }
}

/// Standard base64, with padding.
pub fn base64_encode(data: &[u8]) -> (out: String)
    ensures
        out@ == encoded(data@),
{
    let mut out: String = String::new();
    let mut i: usize = 0;
    assert(data@.skip(0) =~= data@);
    while i < data.len()
        invariant
            i <= data@.len(),
            out@ + encoded(data@.skip(i as int)) == encoded(data@),
        decreases data@.len() - i,
    {
        let ghost rest = data@.skip(i as int);
        let ghost before = out@;
        let left: usize = data.len() - i;
        let b0: u8 = data[i];
        let b1: u8 = if left > 1 {
            data[i + 1]
        } else {
            0
        };
        let b2: u8 = if left > 2 {
            data[i + 2]
        } else {
            0
        };
        out.push(letter_of(b0 / 4));
        out.push(letter_of(b0 % 4 * 16 + b1 / 16));
        out.push(
            if left > 1 {
                letter_of(b1 % 16 * 4 + b2 / 64)
            } else {
                '='
            },
        );
        out.push(
            if left > 2 {
                letter_of(b2 % 64)
            } else {
                '='
            },
        );
        if left > 3 {
            assert(rest.skip(3) =~= data@.skip(i as int + 3));
            assert(out@ + encoded(rest.skip(3)) =~= before + encoded(rest));
            i = i + 3;
        } else {
            proof {
                assert(rest.skip(3).len() == 0 || left < 3);
                assert(out@ =~= before + encoded(rest));
                assert(data@.skip(data@.len() as int) =~= Seq::<u8>::empty());
            }
            i = data.len();
        }
    }
    assert(out@ + encoded(data@.skip(i as int)) =~= out@);
    out
}

/// Standard-alphabet base64 to bytes, the inverse of [`base64_encode`]. What follows the
/// first `=` is not read, and bits short of a whole byte are dropped.
pub fn base64_decode(text: &str) -> (bytes: Result<Vec<u8>, String>)
    ensures
        bytes is Ok <==> well_spelled(encode_utf8(text@)),
        bytes matches Ok(out) ==> out@ == decoded(encode_utf8(text@)),
        bytes matches Err(why) ==> why@ == "invalid base64"@,
{
    let letters: &[u8] = text.as_bytes();
    let mut out: Vec<u8> = Vec::new();
    let mut acc: u32 = 0;
    let mut bits: u32 = 0;
    let mut i: usize = 0;
    while i < letters.len() && letters[i] != 61
        invariant
            letters@ == encode_utf8(text@),
            i <= letters@.len(),
            forall|k: int| 0 <= k < i ==> is_letter(#[trigger] letters@[k]),
            bits == i * 6 % 8,
            out@.len() == i * 6 / 8,
            forall|k: int|
                0 <= k < out@.len() ==> #[trigger] out@[k] == decoded_byte(letters@, k),
            bits == 6 ==> acc & 63 == sextet(letters@[i - 1]),
            bits == 4 ==> acc & 15 == sextet(letters@[i - 1]) % 16,
            bits == 2 ==> acc & 3 == sextet(letters@[i - 1]) % 4,
        decreases letters@.len() - i,
    {
        let six: u32 = match sextet_of(letters[i]) {
            Some(six) => six,
            None => {
                proof {
                    lemma_stop_is_past(letters@, i as int);
                    assert(!is_letter(letters@[i as int]));
                }
                return Err("invalid base64".to_owned());
            },
        };
        let next: u32 = (acc << 6) | six;
        proof {
            assert(six < 64 ==> ((acc << 6) | six) & 63 == six) by (bit_vector);
            assert(six < 64 ==> ((acc << 6) | six) & 15 == six % 16) by (bit_vector);
            assert(six < 64 ==> ((acc << 6) | six) & 3 == six % 4) by (bit_vector);
            assert(six < 64 ==> ((((acc << 6) | six) >> 4) as u8) == (acc & 63) * 4 + six / 16)
                by (bit_vector);
            assert(six < 64 ==> ((((acc << 6) | six) >> 2) as u8) == (acc & 15) * 16 + six / 4)
                by (bit_vector);
            assert(six < 64 ==> ((((acc << 6) | six) >> 0) as u8) == (acc & 3) * 64 + six)
                by (bit_vector);
        }
        acc = next;
        bits = bits + 6;
        if bits >= 8 {
            bits = bits - 8;
            out.push((acc >> bits) as u8);
        }
        i = i + 1;
    }
    proof {
        lemma_stop_is_past(letters@, i as int);
        assert(out@ =~= decoded(letters@));
    }
    Ok(out)
}

/// Nothing of the alphabet is the padding, so the letters run at least as far as they have
/// been read, and no further than a padding byte or the end.
proof fn lemma_stop_is_past(text: Seq<u8>, i: int)
    requires
        0 <= i <= text.len(),
        forall|k: int| 0 <= k < i ==> #[trigger] text[k] != 61,
    ensures
        stop(text) >= i,
        i < text.len() && text[i] != 61 ==> stop(text) > i,
        i == text.len() || text[i] == 61 ==> stop(text) == i,
        stop(text) <= text.len(),
    decreases text.len(),
{
    if text.len() > 0 {
        if i > 0 {
            assert(text[0] != 61);
            assert forall|k: int| 0 <= k < i - 1 implies #[trigger] text.drop_first()[k] != 61 by {
                assert(text.drop_first()[k] == text[k + 1]);
            }
            lemma_stop_is_past(text.drop_first(), i - 1);
        } else {
            lemma_stop_is_past(text.drop_first(), 0);
        }
    }
}

/// The byte at `i`, or zero past the end.
spec fn byte_or_zero(data: Seq<u8>, i: int) -> int {
    if i < data.len() {
        data[i] as int
    } else {
        0
    }
}

/// The `i`th six bits of `data`.
spec fn six_bits(data: Seq<u8>, i: int) -> int {
    let k = i / 4 * 3;
    if i % 4 == 0 {
        byte_or_zero(data, k) / 4
    } else if i % 4 == 1 {
        byte_or_zero(data, k) % 4 * 16 + byte_or_zero(data, k + 1) / 16
    } else if i % 4 == 2 {
        byte_or_zero(data, k + 1) % 16 * 4 + byte_or_zero(data, k + 2) / 64
    } else {
        byte_or_zero(data, k + 2) % 64
    }
}

/// How many letters `n` bytes take before the padding.
spec fn letter_count(n: int) -> int {
    (4 * n + 2) / 3
}

proof fn lemma_encoded_letters(data: Seq<u8>)
    ensures
        encoded(data).len() == 4 * ((data.len() + 2) / 3),
        forall|i: int|
            0 <= i < letter_count(data.len() as int) ==> #[trigger] encoded(data)[i] == letter(
                six_bits(data, i),
            ),
        forall|i: int|
            letter_count(data.len() as int) <= i < encoded(data).len()
                ==> #[trigger] encoded(data)[i] == '=',
    decreases data.len(),
{
    if data.len() > 2 {
        let rest = data.skip(3);
        lemma_encoded_letters(rest);
        assert forall|i: int| 0 <= i < letter_count(data.len() as int) implies #[trigger] encoded(
            data,
        )[i] == letter(six_bits(data, i)) by {
            if i >= 4 {
                assert(encoded(data)[i] == encoded(rest)[i - 4]);
                assert(six_bits(data, i) == six_bits(rest, i - 4));
            }
        }
        assert forall|i: int|
            letter_count(data.len() as int) <= i < encoded(data).len() implies #[trigger] encoded(
            data,
        )[i] == '=' by {
            assert(encoded(data)[i] == encoded(rest)[i - 4]);
        }
    }
}

proof fn lemma_letter_stands_for_its_bits(v: int)
    requires
        0 <= v < 64,
    ensures
        is_ascii_chars(seq![letter(v)]),
        is_letter(letter(v) as u8),
        letter(v) as u8 != 61,
        sextet(letter(v) as u8) == v,
{
    assert(seq![letter(v)][0] == letter(v));
}

/// Eight bits dealt out over two sixes, and put together again: the first, the second and the
/// third byte of three.
proof fn lemma_bits_come_back(a: int, b: int, c: int)
    requires
        0 <= a < 256,
        0 <= b < 256,
        0 <= c < 256,
    ensures
        a / 4 * 4 + (a % 4 * 16 + b / 16) / 16 == a,
        (a % 4 * 16 + b / 16) % 16 * 16 + (b % 16 * 4 + c / 64) / 4 == b,
        (b % 16 * 4 + c / 64) % 4 * 64 + c % 64 == c,
{
    assert((a % 4 * 16 + b / 16) / 16 == a % 4);
    assert((a % 4 * 16 + b / 16) % 16 == b / 16);
    assert((b % 16 * 4 + c / 64) / 4 == b % 16);
    assert((b % 16 * 4 + c / 64) % 4 == c / 64);
}

/// The four sixes that start with number `4 * g` are dealt out from the three bytes that start with
/// number `3 * g`.
proof fn lemma_sixes_of_three(data: Seq<u8>, g: int)
    requires
        0 <= g,
    ensures
        ({
            let a = byte_or_zero(data, 3 * g);
            let b = byte_or_zero(data, 3 * g + 1);
            let c = byte_or_zero(data, 3 * g + 2);
            &&& six_bits(data, 4 * g) == a / 4
            &&& six_bits(data, 4 * g + 1) == a % 4 * 16 + b / 16
            &&& six_bits(data, 4 * g + 2) == b % 16 * 4 + c / 64
            &&& six_bits(data, 4 * g + 3) == c % 64
        }),
{
    assert((4 * g) / 4 == g && (4 * g) % 4 == 0);
    assert((4 * g + 1) / 4 == g && (4 * g + 1) % 4 == 1);
    assert((4 * g + 2) / 4 == g && (4 * g + 2) % 4 == 2);
    assert((4 * g + 3) / 4 == g && (4 * g + 3) % 4 == 3);
}

/// A byte is put together again from the two letters that its bits went into.
proof fn lemma_byte_comes_back(bytes: Seq<u8>, data: Seq<u8>, i: int)
    requires
        0 <= i < data.len(),
        forall|j: int|
            0 <= j < letter_count(data.len() as int) ==> sextet(#[trigger] bytes[j]) == six_bits(
                data,
                j,
            ),
    ensures
        decoded_byte(bytes, i) == data[i],
{
    let g = i / 3;
    let r = i % 3;
    let a = byte_or_zero(data, 3 * g);
    let b = byte_or_zero(data, 3 * g + 1);
    let c = byte_or_zero(data, 3 * g + 2);
    assert(i == 3 * g + r && 0 <= r < 3);
    assert(4 * g + r + 1 < letter_count(data.len() as int));
    lemma_sixes_of_three(data, g);
    lemma_bits_come_back(a, b, c);
    let first = sextet(bytes[4 * g + r]);
    let second = sextet(bytes[4 * g + r + 1]);
    assert(first == six_bits(data, 4 * g + r) && second == six_bits(data, 4 * g + r + 1));
    if r == 0 {
        assert(decoded_byte(bytes, i) == first * 4 + second / 16);
        assert(data[i] == a);
    } else if r == 1 {
        assert(decoded_byte(bytes, i) == first % 16 * 16 + second / 4);
        assert(data[i] == b);
    } else {
        assert(decoded_byte(bytes, i) == first % 4 * 64 + second);
        assert(data[i] == c);
    }
}

/// Three bytes, or a tail short of them, take four characters.
pub proof fn law_encoded_length(data: Seq<u8>)
    ensures
        encoded(data).len() == 4 * ((data.len() + 2) / 3),
{
    lemma_encoded_letters(data);
}

/// Decoding what was encoded gives the bytes back, whatever they are.
pub proof fn law_decode_undoes_encode(data: Seq<u8>)
    ensures
        well_spelled(encode_utf8(encoded(data))),
        decoded(encode_utf8(encoded(data))) == data,
{
    let text = encoded(data);
    let bytes = encode_utf8(text);
    let n = data.len() as int;
    lemma_encoded_letters(data);
    assert forall|i: int| 0 <= i < text.len() implies (#[trigger] text[i]) as u32 <= 127 by {
        if i < letter_count(n) {
            lemma_letter_stands_for_its_bits(six_bits(data, i));
        }
    }
    is_ascii_chars_encode_utf8(text);
    assert forall|i: int| 0 <= i < letter_count(n) implies {
        &&& is_letter(#[trigger] bytes[i])
        &&& bytes[i] != 61
        &&& sextet(bytes[i]) == six_bits(data, i)
    } by {
        lemma_letter_stands_for_its_bits(six_bits(data, i));
    }
    lemma_stop_is_past(bytes, letter_count(n));
    assert forall|i: int| 0 <= i < n implies decoded_byte(bytes, i) == data[i] by {
        lemma_byte_comes_back(bytes, data, i);
    }
    assert(decoded(bytes) =~= data);
}

/// The alphabet is capitals, small letters, figures, plus and slash, in that order.
pub proof fn law_the_alphabet_is_in_order(v: int)
    requires
        0 <= v < 64,
    ensures
        v < 26 ==> 'A' <= letter(v) <= 'Z' && letter(v) as int - 'A' as int == v,
        26 <= v < 52 ==> 'a' <= letter(v) <= 'z' && letter(v) as int - 'a' as int == v - 26,
        52 <= v < 62 ==> '0' <= letter(v) <= '9' && letter(v) as int - '0' as int == v - 52,
        v == 62 ==> letter(v) == '+',
        v == 63 ==> letter(v) == '/',
{
}

/// Each three bytes are one number of twenty-four bits, the first byte the highest, and its four
/// letters are that number's sixes from the highest down.
pub proof fn law_four_letters_are_three_bytes_from_the_highest_bit_down(
    data: Seq<u8>,
    s0: int,
    s1: int,
    s2: int,
    s3: int,
)
    requires
        data.len() >= 3,
        0 <= s0 < 64,
        0 <= s1 < 64,
        0 <= s2 < 64,
        0 <= s3 < 64,
        262144 * s0 + 4096 * s1 + 64 * s2 + s3 == 65536 * data[0] + 256 * data[1] + data[2],
    ensures
        encoded(data).len() >= 4,
        encoded(data)[0] == letter(s0),
        encoded(data)[1] == letter(s1),
        encoded(data)[2] == letter(s2),
        encoded(data)[3] == letter(s3),
        encoded(data).skip(4) == encoded(data.skip(3)),
{
    let (a, b, c) = (data[0] as int, data[1] as int, data[2] as int);
    assert(s0 == a / 4);
    assert(s1 == a % 4 * 16 + b / 16);
    assert(s2 == b % 16 * 4 + c / 64);
    assert(s3 == c % 64);
    assert(encoded(data).skip(4) =~= encoded(data.skip(3)));
}

/// A tail short of three bytes is written as if zeros followed it, with a `=` for each byte that
/// is missing.
pub proof fn law_a_short_tail_is_padded(data: Seq<u8>)
    requires
        data.len() == 1 || data.len() == 2,
    ensures
        ({
            let full = encoded(data + seq![0u8, 0u8].take(3 - data.len()));
            &&& encoded(data).len() == 4
            &&& encoded(data).take(1 + data.len() as int) == full.take(1 + data.len() as int)
            &&& encoded(data)[3] == '='
            &&& (encoded(data)[2] == '=' <==> data.len() == 1)
        }),
{
    let filled = data + seq![0u8, 0u8].take(3 - data.len());
    assert(filled.len() == 3);
    assert(filled.skip(3).len() == 0);
    assert(encoded(filled.skip(3)) =~= Seq::<char>::empty());
    assert(encoded(data).take(1 + data.len() as int) =~= encoded(filled).take(1 + data.len() as int));
    if data.len() == 2 {
        lemma_letter_stands_for_its_bits(data[1] as int % 16 * 4);
    }
}

} // verus!
