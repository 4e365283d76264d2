//! The Brush panel: the library of presets, and the dialog that saves one.
use crate::brush_config::{BrushConfig, BrushShape, OrientationSource};
use crate::presets;
use crate::presets::PresetEntry;
use crate::text;
use vstd::prelude::*;

verus! {

/// The range of the radius, by the bits of its ends: one pixel and five hundred. A tip finer than
/// a pixel has nothing left to narrow.
pub const MIN_RADIUS: u32 = 0x3f80_0000;

pub const MAX_RADIUS: u32 = 0x43fa_0000;

/// The most flow on offer, three, by its bits. Flow is a rate rather than a fraction.
pub const MAX_FLOW: u32 = 0x4040_0000;

/// The longest taper on offer, twenty radii, by its bits.
pub const MAX_TAPER: u32 = 0x41a0_0000;

/// The widest contact transition on offer, one, by its bits.
pub const MAX_TOOTH_SOFTNESS: u32 = 0x3f80_0000;

/// A preset's row, lit where its tool is the one in hand.
pub fn row_class(active: bool) -> (class: &'static str)
    ensures
        class@ == if active {
            "preset-row active"@
        } else {
            "preset-row"@
        },
{
    if active {
        "preset-row active"
    } else {
        "preset-row"
    }
}

/// The stroke that fills a row, where it has been drawn. Its absence is written out, or a row that
/// is used again would keep the stroke it had.
pub fn row_background(url: Option<&str>) -> (style: String)
    ensures
        style@ == match url {
            Some(url) if url@.len() > 0 => "background-image: url("@ + url@ + ");"@,
            _ => "background-image: none;"@,
        },
{
    match url {
        Some(url) => {
            if url.unicode_len() > 0 {
                let mut style: String = "background-image: url(".to_owned();
                style.append(url);
                style.append(");");
                style
            } else {
                "background-image: none;".to_owned()
            }
        },
        None => "background-image: none;".to_owned(),
    }
}

/// What the row offers at its end.
#[derive(Clone, Copy, PartialEq, Eq, Structural, Debug)]
pub enum RowEnd {
    /// A lock, always shown: the app keeps this one up to date.
    Lock,
    /// A trash can.
    Remove,
}

pub fn row_end(builtin: bool) -> (end: RowEnd)
    ensures
        end == if builtin {
            RowEnd::Lock
        } else {
            RowEnd::Remove
        },
{
    if builtin {
        RowEnd::Lock
    } else {
        RowEnd::Remove
    }
}

pub fn row_end_title(end: RowEnd) -> (title: &'static str)
    ensures
        title@ == match end {
            RowEnd::Lock => "Built in \u{2014} kept up to date with the app"@,
            RowEnd::Remove => "Remove preset"@,
        },
{
    match end {
        RowEnd::Lock => "Built in \u{2014} kept up to date with the app",
        RowEnd::Remove => "Remove preset",
    }
}

/// Switch to a shape, every other knob left alone.
pub fn set_shape(brush: BrushConfig, shape: BrushShape) -> (next: BrushConfig)
    ensures
        next == (BrushConfig { shape, ..brush }),
{
    BrushConfig { shape, ..brush }
}

/// Set what orients the shape as it sweeps, every other knob left alone.
pub fn set_orientation(brush: BrushConfig, orientation: OrientationSource) -> (next: BrushConfig)
    ensures
        next == (BrushConfig { orientation, ..brush }),
{
    BrushConfig { orientation, ..brush }
}

// --- the dialog that saves a preset ---

/// What the dialog says of the name typed into it.
#[derive(Clone, Copy, PartialEq, Eq, Structural, Debug)]
pub enum Naming {
    /// There is nothing to call it.
    Blank,
    /// No preset is called that.
    New,
    /// One of the user's own is, and would be replaced.
    Replaces,
    /// One of the app's own is, and is not the user's to replace.
    Refused,
}

/// What the dialog says of a typed name, which is taken without the white space around it.
pub open spec fn naming_of(library: Seq<presets::PresetView>, typed: Seq<char>) -> Naming {
    let name = text::trimmed(typed);
    if name.len() == 0 {
        Naming::Blank
    } else if presets::taken_by_the_app(library, name) {
        Naming::Refused
    } else if presets::taken(library, name) {
        Naming::Replaces
    } else {
        Naming::New
    }
}

/// The dialog: the name as it stands in its field.
#[derive(Clone, PartialEq, Eq, Debug)]
pub struct SaveDialog {
    pub name: String,
}

/// The line under the field. It is always there, so that the dialog does not change height under
/// the hand, and is empty where there is nothing to say.
pub open spec fn hint_words(naming: Naming, name: Seq<char>) -> Seq<char> {
    match naming {
        Naming::Refused => seq!['\u{201C}'] + name
            + "\u{201D} is one of the app's own presets, which it keeps up to date. Pick another name."@,
        Naming::Replaces => "Replaces the preset already called \u{201C}"@ + name + "\u{201D}."@,
        _ => Seq::empty(),
    }
}

impl SaveDialog {
    /// Open on the next free name, which is there to be typed over.
    pub fn open(entries: &[PresetEntry]) -> (dialog: SaveDialog)
        ensures
            !presets::taken(presets::library(entries@), dialog.name@),
            exists|n: nat|
                1 <= n && dialog.name@ == #[trigger] presets::proposed(n) && forall|k: nat|
                    1 <= k < n ==> presets::taken(
                        presets::library(entries@),
                        #[trigger] presets::proposed(k),
                    ),
    {
        SaveDialog { name: presets::next_name(entries) }
    }

    /// The field was typed into.
    pub fn input(&mut self, typed: String)
        ensures
            final(self).name@ == typed@,
    {
        self.name = typed;
    }

    /// What the dialog says of the name in its field.
    pub fn naming(&self, entries: &[PresetEntry]) -> (naming: Naming)
        ensures
            naming == naming_of(presets::library(entries@), self.name@),
    {
        let name: String = text::trim(self.name.as_str());
        if name.as_str().unicode_len() == 0 {
            Naming::Blank
        } else if presets::is_builtin(entries, name.as_str()) {
            Naming::Refused
        } else {
            match presets::find(entries, name.as_str()) {
                Some(_) => Naming::Replaces,
                None => Naming::New,
            }
        }
    }

    /// The line under the field.
    pub fn hint(&self, entries: &[PresetEntry]) -> (words: String)
        ensures
            words@ == hint_words(
                naming_of(presets::library(entries@), self.name@),
                text::trimmed(self.name@),
            ),
    {
        let naming: Naming = self.naming(entries);
        let name: String = text::trim(self.name.as_str());
        let mut words: String = String::new();
        match naming {
            Naming::Refused => {
                words.push('\u{201C}');
                words.append(name.as_str());
                words.append(
                    "\u{201D} is one of the app's own presets, which it keeps up to date. Pick another name.",
                );
            },
            Naming::Replaces => {
                words.append("Replaces the preset already called \u{201C}");
                words.append(name.as_str());
                words.append("\u{201D}.");
            },
            _ => {},
        }
        assert(words@ =~= hint_words(naming, name@));
        words
    }

    /// What Save keeps the brush as, from the button and from the keyboard alike: the name
    /// without the white space around it, and nothing where the dialog will not take it, which
    /// is where it is blank or one of the app's own.
    pub fn save(&self, entries: &[PresetEntry]) -> (name: Option<String>)
        ensures
            name is None <==> {
                let naming = naming_of(presets::library(entries@), self.name@);
                naming == Naming::Blank || naming == Naming::Refused
            },
            name matches Some(n) ==> n@ == text::trimmed(self.name@),
    {
        if save_disabled(self.naming(entries)) {
            None
        } else {
            Some(text::trim(self.name.as_str()))
        }
    }
}

pub fn hint_class(naming: Naming) -> (class: &'static str)
    ensures
        class@ == if naming == Naming::Refused {
            "modal-hint refused"@
        } else {
            "modal-hint"@
        },
{
    if naming == Naming::Refused {
        "modal-hint refused"
    } else {
        "modal-hint"
    }
}

/// The word on the button that saves.
pub fn save_word(naming: Naming) -> (word: &'static str)
    ensures
        word@ == if naming == Naming::Replaces {
            "Replace"@
        } else {
            "Save"@
        },
{
    if naming == Naming::Replaces {
        "Replace"
    } else {
        "Save"
    }
}

/// The button goes dead on a name that it will not take: a blank one, or one of the app's own.
pub fn save_disabled(naming: Naming) -> (disabled: bool)
    ensures
        disabled == (naming == Naming::Blank || naming == Naming::Refused),
{
    matches!(naming, Naming::Blank | Naming::Refused)
}

/// The name that the dialog opens on is as good as it stands: it is not blank, the white space
/// around it is none, and it is nobody's, so that Save makes a new preset of it.
pub proof fn law_the_dialog_opens_on_a_name_that_saves(library: Seq<presets::PresetView>, n: nat)
    requires
        !presets::taken(library, presets::proposed(n)),
    ensures
        text::trimmed(presets::proposed(n)) == presets::proposed(n),
        naming_of(library, presets::proposed(n)) == Naming::New,
{
    let name = presets::proposed(n);
    reveal_strlit("Preset ");
    let last = text::decimal(n).last();
    assert(text::decimal(n).len() > 0 && 48 <= last as int <= 57);
    assert(name[0] == 'P');
    assert(name.last() == last);
    assert(text::first_ink(name) == 0);
    assert(name.skip(0) =~= name);
}

/// The dialog goes by the name without the white space around it. One of nothing is blank, one
/// that any preset of the app's own wears is refused, one that only the user's wear replaces, and
/// one that nobody wears is new. What is blank or refused is not saved, and all else is, under
/// that name.
pub proof fn law_a_name_is_saved_where_it_is_the_user_s_to_take(
    dialog: SaveDialog,
    entries: &[PresetEntry],
    naming: Naming,
    saved: Option<String>,
    name: Seq<char>,
)
    requires
        call_ensures(SaveDialog::naming, (&dialog, entries), naming),
        call_ensures(SaveDialog::save, (&dialog, entries), saved),
        name == text::trimmed(dialog.name@),
    ensures
        name.len() == 0 <==> naming is Blank,
        name.len() > 0 && (exists|i: int|
            0 <= i < entries@.len() && (#[trigger] entries@[i]).name@ == name && entries@[i].builtin)
            ==> naming is Refused,
        name.len() > 0 && (exists|i: int|
            0 <= i < entries@.len() && (#[trigger] entries@[i]).name@ == name) && (forall|i: int|
            0 <= i < entries@.len() && (#[trigger] entries@[i]).name@ == name
                ==> !entries@[i].builtin) ==> naming is Replaces,
        name.len() > 0 && (forall|i: int|
            0 <= i < entries@.len() ==> (#[trigger] entries@[i]).name@ != name) ==> naming is New,
        naming is Blank || naming is Refused <==> saved is None,
        saved matches Some(n) ==> n@ == name,
{
    let lib = presets::library(entries@);
    if exists|i: int|
        0 <= i < entries@.len() && (#[trigger] entries@[i]).name@ == name && entries@[i].builtin {
        let i = choose|i: int|
            0 <= i < entries@.len() && (#[trigger] entries@[i]).name@ == name && entries@[i].builtin;
        assert(lib[i].name == name && lib[i].builtin);
    }
    if exists|i: int| 0 <= i < entries@.len() && (#[trigger] entries@[i]).name@ == name {
        let i = choose|i: int| 0 <= i < entries@.len() && (#[trigger] entries@[i]).name@ == name;
        assert(lib[i].name == name);
    }
    assert forall|i: int| 0 <= i < lib.len() implies (#[trigger] lib[i]).name == entries@[i].name@
        && lib[i].builtin == entries@[i].builtin by {}
}

/// The line under the field speaks only of a name that is taken, and quotes it.
pub proof fn law_the_hint_speaks_of_a_name_that_is_taken(naming: Naming, name: Seq<char>)
    ensures
        naming is Blank || naming is New ==> hint_words(naming, name) == Seq::<char>::empty(),
        naming is Refused || naming is Replaces ==> exists|at: int|
            0 < at && at + name.len() < hint_words(naming, name).len() && hint_words(naming, name)[at
                - 1] == '\u{201C}' && hint_words(naming, name)[at + name.len()] == '\u{201D}'
                && #[trigger] hint_words(naming, name).subrange(at, at + name.len()) == name,
{
    let words = hint_words(naming, name);
    if naming is Refused {
        reveal_strlit(
            "\u{201D} is one of the app's own presets, which it keeps up to date. Pick another name.",
        );
        assert(words.subrange(1, 1 + name.len() as int) =~= name);
    }
    if naming is Replaces {
        reveal_strlit("Replaces the preset already called \u{201C}");
        reveal_strlit("\u{201D}.");
        let head = "Replaces the preset already called \u{201C}"@.len() as int;
        assert(words[head - 1] == '\u{201C}');
        assert(words.subrange(head, head + name.len()) =~= name);
    }
}

} // verus!
