//! What the interface decides about the drawing surface and the people sharing it: when a
//! resize is one, which surface format to ask for, and how a collaborator is badged.
use crate::brush_config::ContentId;
use crate::amount::At;
use crate::model::LayerId;
use crate::text;
use vstd::prelude::*;

verus! {

/// The upper case of a text, as Unicode maps it.
pub uninterp spec fn upper_case(s: Seq<char>) -> Seq<char>;

/// `str::to_uppercase` maps a text to upper case, which is a function of the text alone:
/// no locale enters into it. Which characters it maps to which is Unicode's table and is
/// not stated.
#[verifier::external_body]
fn to_upper(s: &str) -> (upper: String)
    ensures
        upper@ == upper_case(s@),
{
    s.to_uppercase()
}

/// A collaborator, as the chrome draws them: who is here, where they are, and where they
/// are working.
#[derive(Clone, PartialEq, Eq, Debug)]
pub struct PeerInfo {
    pub actor: u64,
    pub name: String,
    pub red: u8,
    pub green: u8,
    pub blue: u8,
    /// Where they point on the canvas, while they do.
    pub cursor: Option<At>,
    pub active_layer: LayerId,
}

/// Where the word at the head of `s` ends: at the first white space.
pub open spec fn word_end(s: Seq<char>) -> int
    decreases s.len(),
{
    if s.len() == 0 || text::is_white(s[0]) {
        0
    } else {
        1 + word_end(s.drop_first())
    }
}

/// The first characters of the first `n` words of `s`.
pub open spec fn word_heads(s: Seq<char>, n: nat) -> Seq<char>
    decreases n,
{
    let t = s.skip(text::first_ink(s));
    if n == 0 || t.len() == 0 {
        Seq::empty()
    } else {
        seq![t[0]] + word_heads(t.skip(word_end(t)), (n - 1) as nat)
    }
}

/// The first characters of the first two words of a name.
pub fn badge_letters(name: &str) -> (letters: String)
    ensures
        letters@ == word_heads(name@, 2),
{
    let chars: Vec<char> = text::chars_of(name);
    let mut letters: String = String::new();
    let mut at: usize = 0;
    let mut left: usize = 2;
    assert(chars@.skip(0) =~= chars@);
    assert(letters@ + word_heads(chars@, 2) =~= word_heads(chars@, 2));
    while left > 0
        invariant
            chars@ == name@,
            at <= chars@.len(),
            left <= 2,
            letters@ + word_heads(chars@.skip(at as int), left as nat) == word_heads(chars@, 2),
        decreases left,
    {
        let ghost rest = chars@.skip(at as int);
        let from: usize = next_ink(&chars, at);
        assert(rest.skip(text::first_ink(rest)) =~= chars@.skip(from as int));
        if from == chars.len() {
            assert(word_heads(rest, left as nat) =~= Seq::<char>::empty());
            assert(letters@ + Seq::<char>::empty() =~= letters@);
            return letters;
        }
        let ghost word = chars@.skip(from as int);
        let to: usize = next_white(&chars, from);
        assert(word.skip(word_end(word)) =~= chars@.skip(to as int));
        let ghost before = letters@;
        letters.push(chars[from]);
        assert(letters@ + word_heads(chars@.skip(to as int), (left - 1) as nat) =~= before + (
        seq![word[0]] + word_heads(chars@.skip(to as int), (left - 1) as nat)));
        at = to;
        left = left - 1;
    }
    assert(letters@ + Seq::<char>::empty() =~= letters@);
    letters
}

fn next_ink(chars: &Vec<char>, from: usize) -> (at: usize)
    requires
        from <= chars@.len(),
    ensures
        from <= at <= chars@.len(),
        at == from + text::first_ink(chars@.skip(from as int)),
{
    let mut at: usize = from;
    while at < chars.len() && text::white(chars[at])
        invariant
            from <= at <= chars@.len(),
            from + text::first_ink(chars@.skip(from as int)) == at + text::first_ink(
                chars@.skip(at as int),
            ),
        decreases chars@.len() - at,
    {
        assert(chars@.skip(at as int).drop_first() =~= chars@.skip(at as int + 1));
        at = at + 1;
    }
    at
}

fn next_white(chars: &Vec<char>, from: usize) -> (at: usize)
    requires
        from <= chars@.len(),
    ensures
        from <= at <= chars@.len(),
        at == from + word_end(chars@.skip(from as int)),
{
    let mut at: usize = from;
    while at < chars.len() && !text::white(chars[at])
        invariant
            from <= at <= chars@.len(),
            from + word_end(chars@.skip(from as int)) == at + word_end(chars@.skip(at as int)),
        decreases chars@.len() - at,
    {
        assert(chars@.skip(at as int).drop_first() =~= chars@.skip(at as int + 1));
        at = at + 1;
    }
    at
}

/// A badge is at most two characters before it is put in upper case, and none of them is
/// white space.
pub proof fn law_a_badge_is_short(name: Seq<char>, n: nat)
    ensures
        word_heads(name, n).len() <= n,
        forall|i: int|
            0 <= i < word_heads(name, n).len() ==> !text::is_white(#[trigger] word_heads(name, n)[i]),
    decreases n,
{
    let t = name.skip(text::first_ink(name));
    if n > 0 && t.len() > 0 {
        text::lemma_first_ink(name);
        law_a_badge_is_short(t.skip(word_end(t)), (n - 1) as nat);
        let tail = word_heads(t.skip(word_end(t)), (n - 1) as nat);
        assert forall|i: int| 0 <= i < word_heads(name, n).len() implies !text::is_white(
            #[trigger] word_heads(name, n)[i],
        ) by {
            if i > 0 {
                assert(word_heads(name, n)[i] == tail[i - 1]);
            }
        }
    }
}

impl PeerInfo {
    /// The peer's colour as a CSS `rgb(...)`, for chips and cursors.
    pub fn css_color(&self) -> (css: String)
        ensures
            css@ == "rgb("@ + text::decimal(self.red as nat) + ","@ + text::decimal(
                self.green as nat,
            ) + ","@ + text::decimal(self.blue as nat) + ")"@,
    {
        let mut css: String = "rgb(".to_owned();
        css.append(text::decimal_string(self.red as u128).as_str());
        css.append(",");
        css.append(text::decimal_string(self.green as u128).as_str());
        css.append(",");
        css.append(text::decimal_string(self.blue as u128).as_str());
        css.append(")");
        css
    }

    /// A badge of one or two characters: the name's initials, so a chip reads as a person
    /// rather than as a coloured dot.
    pub fn initials(&self) -> (badge: String)
        ensures
            badge@ == upper_case(word_heads(self.name@, 2)),
    {
        to_upper(badge_letters(self.name.as_str()).as_str())
    }
}

/// The size a surface is to be given, or `None` where there is nothing to do: a size of
/// nothing, or the size it has.
pub fn resize(width: u32, height: u32, now: (u32, u32)) -> (size: Option<(u32, u32)>)
    ensures
        size is None <==> width == 0 || height == 0 || (width, height) == now,
        size matches Some(s) ==> s == (width, height),
{
    if width == 0 || height == 0 || (width == now.0 && height == now.1) {
        None
    } else {
        Some((width, height))
    }
}

/// Which of a list of formats to ask for, given which of them encode sRGB: the first that does
/// not, since the media pass already encodes and would do so twice, or the first of all where
/// every one does.
pub fn first_plain(srgb: &Vec<bool>) -> (at: usize)
    requires
        srgb@.len() > 0,
    ensures
        at < srgb@.len(),
        srgb@[at as int] ==> at == 0 && forall|k: int| 0 <= k < srgb@.len() ==> #[trigger] srgb@[k],
        forall|k: int| 0 <= k < at ==> #[trigger] srgb@[k],
{
    let mut at: usize = 0;
    while at < srgb.len()
        invariant
            at <= srgb@.len(),
            forall|k: int| 0 <= k < at ==> #[trigger] srgb@[k],
        decreases srgb@.len() - at,
    {
        if !srgb[at] {
            return at;
        }
        at = at + 1;
    }
    0
}

/// `wgpu::TextureFormat`, the layout of a texture's pixels.
#[verifier::external_type_specification]
pub struct ExTextureFormat(wgpu::TextureFormat);

/// `wgpu::AstcBlock`, the size of a compressed block.
#[verifier::external_type_specification]
pub struct ExAstcBlock(wgpu::AstcBlock);

/// `wgpu::AstcChannel`, how a compressed block is read.
#[verifier::external_type_specification]
pub struct ExAstcChannel(wgpu::AstcChannel);

/// A format that encodes sRGB as it is written.
pub open spec fn encodes_srgb(format: wgpu::TextureFormat) -> bool {
    match format {
        wgpu::TextureFormat::Rgba8UnormSrgb => true,
        wgpu::TextureFormat::Bgra8UnormSrgb => true,
        wgpu::TextureFormat::Bc1RgbaUnormSrgb => true,
        wgpu::TextureFormat::Bc2RgbaUnormSrgb => true,
        wgpu::TextureFormat::Bc3RgbaUnormSrgb => true,
        wgpu::TextureFormat::Bc7RgbaUnormSrgb => true,
        wgpu::TextureFormat::Etc2Rgb8UnormSrgb => true,
        wgpu::TextureFormat::Etc2Rgb8A1UnormSrgb => true,
        wgpu::TextureFormat::Etc2Rgba8UnormSrgb => true,
        wgpu::TextureFormat::Astc { channel, .. } => channel == wgpu::AstcChannel::UnormSrgb,
        _ => false,
    }
}

/// `wgpu::TextureFormat::is_srgb`: whether a format is one of those that encode sRGB as they are
/// written, which are the ones whose names end in `Srgb`, and the ASTC ones with that channel.
pub assume_specification[ wgpu::TextureFormat::is_srgb ](format: &wgpu::TextureFormat) -> (srgb: bool)
    ensures
        srgb == encodes_srgb(*format),
;

/// Which of the formats that a surface offers to ask for: the first that does not encode sRGB,
/// or the first of all where every one does.
pub fn surface_format(formats: &Vec<wgpu::TextureFormat>) -> (at: usize)
    requires
        formats@.len() > 0,
    ensures
        at < formats@.len(),
        encodes_srgb(formats@[at as int]) ==> at == 0 && forall|k: int|
            0 <= k < formats@.len() ==> encodes_srgb(#[trigger] formats@[k]),
        forall|k: int| 0 <= k < at ==> encodes_srgb(#[trigger] formats@[k]),
{
    let mut srgb: Vec<bool> = Vec::new();
    let mut i: usize = 0;
    while i < formats.len()
        invariant
            i <= formats@.len(),
            srgb@.len() == i,
            forall|k: int| 0 <= k < i ==> #[trigger] srgb@[k] == encodes_srgb(formats@[k]),
        decreases formats@.len() - i,
    {
        srgb.push(formats[i].is_srgb());
        i = i + 1;
    }
    let at: usize = first_plain(&srgb);
    proof {
        assert(srgb@[at as int] == encodes_srgb(formats@[at as int]));
        assert forall|k: int| 0 <= k < at implies encodes_srgb(#[trigger] formats@[k]) by {
            assert(srgb@[k]);
        }
        if encodes_srgb(formats@[at as int]) {
            assert forall|k: int| 0 <= k < formats@.len() implies encodes_srgb(
                #[trigger] formats@[k],
            ) by {
                assert(srgb@[k]);
            }
        }
    }
    at
}

/// The bundled stamp once its import has been tried: its new id, or the one it had if the
/// import failed.
pub fn load_bristle(now: Option<ContentId>, imported: Option<ContentId>) -> (id: Option<ContentId>)
    ensures
        id == match imported {
            Some(_) => imported,
            None => now,
        },
{
    match imported {
        Some(_) => imported,
        None => now,
    }
}

/// A word of a text starts at `p`: there is ink there, and none just before it.
pub open spec fn word_starts(s: Seq<char>, p: int) -> bool {
    0 <= p < s.len() && !text::is_white(s[p]) && (p == 0 || text::is_white(s[p - 1]))
}

proof fn lemma_word_end(s: Seq<char>)
    ensures
        0 <= word_end(s) <= s.len(),
        forall|i: int| 0 <= i < word_end(s) ==> !text::is_white(#[trigger] s[i]),
        word_end(s) < s.len() ==> text::is_white(s[word_end(s)]),
    decreases s.len(),
{
    if s.len() > 0 && !text::is_white(s[0]) {
        let rest = s.drop_first();
        lemma_word_end(rest);
        assert forall|i: int| 0 <= i < word_end(s) implies !text::is_white(#[trigger] s[i]) by {
            if i > 0 {
                assert(s[i] == rest[i - 1]);
            }
        }
    }
}

/// The first word of a text starts where its ink does, and the next where ink follows the white
/// space behind it.
proof fn lemma_heads_of_a_text(s: Seq<char>, p: int, n: nat)
    requires
        word_starts(s, p),
        forall|i: int| 0 <= i < p ==> !word_starts(s, i),
        n > 0,
    ensures
        p == text::first_ink(s),
        ({
            let end = p + word_end(s.skip(p));
            &&& p < end <= s.len()
            &&& forall|i: int| p < i < end ==> !word_starts(s, i)
            &&& end < s.len() ==> text::is_white(s[end])
            &&& word_heads(s, n) == seq![s[p]] + word_heads(s.skip(end), (n - 1) as nat)
        }),
{
    text::lemma_first_ink(s);
    text::law_a_text_starts_at_its_first_ink(s);
    let f = text::first_ink(s);
    if f < s.len() {
        assert(word_starts(s, f));
    }
    if f < p {
        assert(!word_starts(s, f));
    }
    if p < f {
        assert(text::is_white(s[p]));
    }
    let t = s.skip(p);
    lemma_word_end(t);
    assert(t[0] == s[p]);
    assert forall|i: int| p < i < p + word_end(t) implies !word_starts(s, i) by {
        assert(t[i - 1 - p] == s[i - 1]);
    }
    if word_end(t) < t.len() {
        assert(t[word_end(t)] == s[p + word_end(t)]);
    }
    assert(t.skip(word_end(t)) =~= s.skip(p + word_end(t)));
}

/// A badge is the first character of the first word, and of the second where there is one: of
/// words as white space parts them, however much of it there is and wherever it stands.
pub proof fn law_a_badge_is_the_heads_of_the_first_two_words(name: &str, badge: String, p: int, q: int)
    requires
        call_ensures(badge_letters, (name,), badge),
        0 <= p <= q <= name@.len(),
        forall|i: int| 0 <= i < p ==> !word_starts(name@, i),
        forall|i: int| p < i < q ==> !word_starts(name@, i),
        p < name@.len() ==> word_starts(name@, p) && p < q,
        q < name@.len() ==> word_starts(name@, q),
    ensures
        p == name@.len() ==> badge@ == Seq::<char>::empty(),
        p < name@.len() && q == name@.len() ==> badge@ == seq![name@[p]],
        q < name@.len() ==> badge@ == seq![name@[p], name@[q]],
{
    let s = name@;
    text::lemma_first_ink(s);
    text::law_a_text_starts_at_its_first_ink(s);
    if p == s.len() {
        let f = text::first_ink(s);
        if f < s.len() {
            assert(word_starts(s, f));
        }
        assert(s.skip(f).len() == 0);
    } else {
        lemma_heads_of_a_text(s, p, 2);
        let end = p + word_end(s.skip(p));
        let rest = s.skip(end);
        text::lemma_first_ink(rest);
        text::law_a_text_starts_at_its_first_ink(rest);
        let f = text::first_ink(rest);
        if f < rest.len() {
            assert(rest[f] == s[end + f]);
            assert(word_starts(s, end + f)) by {
                if f > 0 {
                    assert(rest[f - 1] == s[end + f - 1]);
                } else {
                    assert(rest[0] == s[end]);
                }
            }
        }
        if q == s.len() {
            assert(f == rest.len());
            assert(rest.skip(f).len() == 0);
            assert(word_heads(rest, 1) =~= Seq::<char>::empty());
            assert(badge@ =~= seq![s[p]]);
        } else {
            assert(q >= end);
            if end + f < q {
                assert(!word_starts(s, end + f));
            }
            if q < end + f {
                assert(rest[q - end] == s[q]);
                assert(text::is_white(rest[q - end]));
            }
            assert(q == end + f);
            assert(rest.skip(f)[0] == s[q]);
            let after = rest.skip(f);
            assert(word_heads(after.skip(word_end(after)), 0) =~= Seq::<char>::empty());
            assert(word_heads(rest, 1) =~= seq![s[q]]);
            assert(badge@ =~= seq![s[p], s[q]]);
        }
    }
}

/// The format to ask for is the first that does not encode sRGB by itself, and the first of all
/// where there is none such.
pub proof fn law_a_surface_is_asked_for_plain(
    formats: &Vec<wgpu::TextureFormat>,
    at: usize,
    i: int,
)
    requires
        formats@.len() > 0,
        call_ensures(surface_format, (formats,), at),
        0 <= i < formats@.len(),
        !encodes_srgb(formats@[i]),
    ensures
        at <= i,
        !encodes_srgb(formats@[at as int]),
{
}

/// A plain format encodes nothing by itself, and its sRGB twin does.
pub proof fn law_a_plain_format_has_a_twin_that_encodes()
    ensures
        encodes_srgb(wgpu::TextureFormat::Rgba8UnormSrgb),
        encodes_srgb(wgpu::TextureFormat::Bgra8UnormSrgb),
        !encodes_srgb(wgpu::TextureFormat::Rgba8Unorm),
        !encodes_srgb(wgpu::TextureFormat::Bgra8Unorm),
        !encodes_srgb(wgpu::TextureFormat::Rgba16Float),
        !encodes_srgb(wgpu::TextureFormat::Rgb10a2Unorm),
{
}

} // verus!
