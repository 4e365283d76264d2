//! What the page is asked and what it answers: which element owns its keystrokes, the
//! address bar's fragment, the picture on the clipboard, the size of an element.
use crate::platform::base64;
use crate::text;
use vstd::prelude::*;
use vstd::utf8::*;

verus! {

/// The tags of elements that take text, whatever their type.
pub open spec fn is_text_tag(tag: Seq<char>) -> bool {
    tag == "TEXTAREA"@ || tag == "SELECT"@
}

/// The types of `<input>` that hold no text: sliders, checkboxes, colour wells. They want
/// arrows and space, but an undo over one still means the document.
pub open spec fn is_textless_input(kind: Seq<char>) -> bool {
    ||| kind == "button"@
    ||| kind == "checkbox"@
    ||| kind == "color"@
    ||| kind == "file"@
    ||| kind == "radio"@
    ||| kind == "range"@
    ||| kind == "reset"@
    ||| kind == "submit"@
}

/// An element that an event was aimed at.
#[derive(Clone, PartialEq, Eq, Debug)]
pub struct Target {
    /// The element is, or is inside, an editable region.
    pub editable: bool,
    /// The element's tag, in capitals.
    pub tag: String,
    /// The `type` of an `<input>`; not read for any other tag.
    pub kind: String,
}

impl Target {
    /// The element owns its own keystrokes.
    pub open spec fn takes_text(&self) -> bool {
        ||| self.editable
        ||| is_text_tag(self.tag@)
        ||| self.tag@ == "INPUT"@ && !is_textless_input(self.kind@)
    }
}

/// Whether an event was aimed at a control that owns its own keystrokes: a text field, a
/// `<select>`, an editable region. An event aimed at no element is not.
pub fn on_text_entry(target: Option<&Target>) -> (owns: bool)
    ensures
        owns == (target matches Some(t) && t.takes_text()),
{
    match target {
        None => false,
        Some(t) => {
            let tag: &str = t.tag.as_str();
            let kind: &str = t.kind.as_str();
            t.editable || text::same(tag, "TEXTAREA") || text::same(tag, "SELECT") || text::same(
                tag,
                "INPUT",
            ) && !(text::same(kind, "button") || text::same(kind, "checkbox") || text::same(
                kind,
                "color",
            ) || text::same(kind, "file") || text::same(kind, "radio") || text::same(kind, "range")
                || text::same(kind, "reset") || text::same(kind, "submit"))
        },
    }
}

/// The parts of the page's address, each empty where it could not be read.
#[derive(Clone, PartialEq, Eq, Debug)]
pub struct Location {
    pub origin: String,
    pub pathname: String,
    pub search: String,
}

/// A fragment behind its mark.
pub open spec fn marked(fragment: Seq<char>) -> Seq<char> {
    seq!['#'] + fragment
}

/// The address's hash without its leading `#`, where there is one.
pub open spec fn unmarked(hash: Seq<char>) -> Seq<char> {
    if hash.len() > 0 && hash[0] == '#' {
        hash.skip(1)
    } else {
        hash
    }
}

/// The page URL's fragment, without its leading `#`, from the hash that was read.
pub fn url_fragment(hash: Option<&str>) -> (fragment: Option<String>)
    ensures
        fragment is Some <==> hash is Some,
        hash matches Some(h) ==> fragment->0@ == unmarked(h@),
{
    match hash {
        None => None,
        Some(h) => {
            let chars: Vec<char> = text::chars_of(h);
            let from: usize = if chars.len() > 0 && chars[0] == '#' {
                1
            } else {
                0
            };
            let fragment: String = text::string_of(&chars, from, chars.len());
            assert(fragment@ =~= unmarked(h@));
            Some(fragment)
        },
    }
}

/// This page's address with `fragment` after the `#`, or just the fragment where there is
/// no location to read.
pub fn url_with_fragment(location: Option<&Location>, fragment: &str) -> (url: String)
    ensures
        url@ == match location {
            None => marked(fragment@),
            Some(l) => l.origin@ + l.pathname@ + l.search@ + marked(fragment@),
        },
{
    let mut url: String = String::new();
    if let Some(l) = location {
        url.append(l.origin.as_str());
        url.append(l.pathname.as_str());
        url.append(l.search.as_str());
        assert(url@ =~= l.origin@ + l.pathname@ + l.search@);
    }
    let ghost base = url@;
    url.push('#');
    url.append(fragment);
    assert(url@ =~= base + marked(fragment@));
    url
}

/// The address to put in the bar to show `fragment`, or with `None` to clear it: the path
/// and query rebuilt, since an empty address would keep the hash.
pub fn set_url_fragment(location: &Location, fragment: Option<&str>) -> (url: String)
    ensures
        url@ == match fragment {
            Some(f) => marked(f@),
            None => location.pathname@ + location.search@,
        },
{
    match fragment {
        Some(f) => {
            let mut url: String = String::new();
            url.push('#');
            url.append(f);
            assert(url@ =~= marked(f@));
            url
        },
        None => {
            let mut url: String = location.pathname.clone();
            url.append(location.search.as_str());
            url
        },
    }
}

/// A fragment put in the address bar is the fragment read back from it, whatever it holds.
pub proof fn law_a_fragment_reads_back(fragment: Seq<char>)
    ensures
        unmarked(marked(fragment)) == fragment,
{
    assert(marked(fragment).skip(1) =~= fragment);
}

/// One thing on the clipboard: what kind it is, its media type, and whether the browser
/// hands over a file for it.
#[derive(Clone, PartialEq, Eq, Debug)]
pub struct Clip {
    pub kind: String,
    pub mime: String,
    pub file: bool,
}

impl Clip {
    /// A picture that can be read.
    pub open spec fn is_picture(&self) -> bool {
        self.kind@ == "file"@ && "image/"@.is_prefix_of(self.mime@) && self.file
    }
}

/// The clipboard entry a paste places: the first picture, and only the first, since a
/// clipboard carrying a picture usually carries it several times over. A paste into a text
/// field places nothing.
pub fn pasted_picture(target: Option<&Target>, items: &Vec<Clip>) -> (at: Option<usize>)
    ensures
        at matches Some(i) ==> {
            &&& !(target matches Some(t) && t.takes_text())
            &&& i < items@.len()
            &&& items@[i as int].is_picture()
            &&& forall|k: int| 0 <= k < i ==> !(#[trigger] items@[k]).is_picture()
        },
        at is None ==> {
            ||| target matches Some(t) && t.takes_text()
            ||| forall|k: int| 0 <= k < items@.len() ==> !(#[trigger] items@[k]).is_picture()
        },
{
    if on_text_entry(target) {
        return None;
    }
    let mut i: usize = 0;
    while i < items.len()
        invariant
            i <= items@.len(),
            forall|k: int| 0 <= k < i ==> !(#[trigger] items@[k]).is_picture(),
            !(target matches Some(t) && t.takes_text()),
        decreases items@.len() - i,
    {
        let item: &Clip = &items[i];
        if text::same(item.kind.as_str(), "file") && text::begins(item.mime.as_str(), "image/")
            && item.file {
            return Some(i);
        }
        i = i + 1;
    }
    None
}

/// What a browser writes in front of a PNG's base64.
pub open spec fn png_head() -> Seq<char> {
    "data:image/png;base64,"@
}

/// The bytes of a PNG that the browser wrote as a data URL.
pub fn png_of_data_url(url: &str) -> (png: Result<Vec<u8>, String>)
    ensures
        png is Ok <==> png_head().is_prefix_of(url@) && base64::well_spelled(
            encode_utf8(url@.skip(png_head().len() as int)),
        ),
        png matches Ok(bytes) ==> bytes@ == base64::decoded(
            encode_utf8(url@.skip(png_head().len() as int)),
        ),
        png matches Err(why) ==> why@ == if png_head().is_prefix_of(url@) {
            "invalid base64"@
        } else {
            "unexpected data URL"@
        },
{
    match text::after(url, "data:image/png;base64,") {
        Some(b64) => base64::base64_decode(b64.as_str()),
        None => Err("unexpected data URL".to_owned()),
    }
}

/// An element's laid-out size, never less than one pixel either way.
pub fn laid_out_size(client_width: i32, client_height: i32) -> (size: (u32, u32))
    ensures
        size.0 == if client_width < 1 {
            1
        } else {
            client_width as int
        },
        size.1 == if client_height < 1 {
            1
        } else {
            client_height as int
        },
{
    (
        if client_width < 1 {
            1
        } else {
            client_width as u32
        },
        if client_height < 1 {
            1
        } else {
            client_height as u32
        },
    )
}

/// One element's box on screen, in layout units from the viewport's top-left.
#[derive(Clone, Copy, PartialEq, Eq, Structural, Debug)]
pub struct ElementBox {
    pub left: i32,
    pub top: i32,
    pub width: i32,
    pub height: i32,
}

impl ElementBox {
    /// The box's right edge, where a card placed to its right starts.
    pub fn right(&self) -> (x: i64)
        ensures
            x == self.left + self.width,
    {
        self.left as i64 + self.width as i64
    }

    /// The box's bottom edge.
    pub fn bottom(&self) -> (y: i64)
        ensures
            y == self.top + self.height,
    {
        self.top as i64 + self.height as i64
    }

    /// The horizontal middle of the box, in half units so that it is exact.
    pub fn mid_x(&self) -> (x: i64)
        ensures
            x == 2 * self.left + self.width,
    {
        2 * (self.left as i64) + self.width as i64
    }

    /// The vertical middle of the box, in half units so that it is exact.
    pub fn mid_y(&self) -> (y: i64)
        ensures
            y == 2 * self.top + self.height,
    {
        2 * (self.top as i64) + self.height as i64
    }
}

/// A pointer event's button fields. Both are here because the two halves of a press report
/// differently.
#[derive(Clone, Copy, PartialEq, Eq, Structural, Debug)]
pub struct RawPointer {
    /// The device is a stylus.
    pub pen: bool,
    /// The button that *changed*; -1 on a move.
    pub button: i16,
    /// The buttons still down.
    pub buttons: u16,
}

impl Default for RawPointer {
    fn default() -> (raw: Self)
        ensures
            raw == (RawPointer { pen: false, button: 0, buttons: 0 }),
    {
        RawPointer { pen: false, button: 0, buttons: 0 }
    }
}

/// The button fields of a pointer event, by the kind of its device.
pub fn raw_of(pointer_type: &str, button: i16, buttons: u16) -> (raw: RawPointer)
    ensures
        raw == (RawPointer { pen: pointer_type@ == "pen"@, button, buttons }),
{
    RawPointer { pen: text::same(pointer_type, "pen"), button, buttons }
}

/// A field owns its keystrokes: an editable region, a text area, a drop-down, and an input of any
/// type but the ones that hold no text. Nothing else does.
pub proof fn law_a_field_owns_its_keystrokes(target: Target, owns: bool)
    requires
        call_ensures(on_text_entry, (Some(&target),), owns),
    ensures
        owns <==> target.editable || target.tag@ == "TEXTAREA"@ || target.tag@ == "SELECT"@ || (
        target.tag@ == "INPUT"@ && target.kind@ != "button"@ && target.kind@ != "checkbox"@
            && target.kind@ != "color"@ && target.kind@ != "file"@ && target.kind@ != "radio"@
            && target.kind@ != "range"@ && target.kind@ != "reset"@ && target.kind@ != "submit"@),
{
}

/// What a paste can place is a file whose media type is a picture's, and which the browser hands
/// over: each of the three is wanted, and nothing else is asked.
pub proof fn law_a_picture_is_a_file_that_can_be_read(clip: Clip)
    ensures
        clip.kind@ != "file"@ ==> !clip.is_picture(),
        !clip.file ==> !clip.is_picture(),
        !"image/"@.is_prefix_of(clip.mime@) ==> !clip.is_picture(),
        clip.kind@ == "file"@ && clip.file && (exists|rest: Seq<char>|
            clip.mime@ == #[trigger] ("image/"@ + rest)) ==> clip.is_picture(),
{
    if exists|rest: Seq<char>| clip.mime@ == #[trigger] ("image/"@ + rest) {
        let rest = choose|rest: Seq<char>| clip.mime@ == #[trigger] ("image/"@ + rest);
        assert(("image/"@ + rest).subrange(0, "image/"@.len() as int) =~= "image/"@);
    }
}

/// A hash that wears no mark is the fragment as it stands.
pub proof fn law_an_unmarked_hash_is_its_own_fragment(hash: &str, fragment: Option<String>)
    requires
        call_ensures(url_fragment, (Some(hash),), fragment),
    ensures
        hash@.len() > 0 && hash@[0] == '#' ==> (fragment matches Some(f) && seq!['#'] + f@ == hash@),
        hash@.len() == 0 || hash@[0] != '#' ==> (fragment matches Some(f) && f@ == hash@),
{
    if hash@.len() > 0 && hash@[0] == '#' {
        assert(seq!['#'] + hash@.skip(1) =~= hash@);
    }
}

/// A picture written as a data URL reads back byte for byte.
pub proof fn law_a_picture_in_a_data_url_reads_back(
    data: Seq<u8>,
    url: &str,
    png: Result<Vec<u8>, String>,
)
    requires
        url@ == "data:image/png;base64,"@ + base64::encoded(data),
        call_ensures(png_of_data_url, (url,), png),
    ensures
        png matches Ok(bytes) && bytes@ == data,
{
    let head = "data:image/png;base64,"@;
    assert(url@.skip(head.len() as int) =~= base64::encoded(data));
    assert(url@.subrange(0, head.len() as int) =~= head);
    base64::law_decode_undoes_encode(data);
}

} // verus!
