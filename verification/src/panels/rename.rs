//! Renaming a row in place: the field a double-click opens, and the ways it closes.
use vstd::prelude::*;

verus! {

/// A key pressed in the field, as far as the field cares.
#[derive(Clone, Copy, PartialEq, Eq, Structural, Debug)]
pub enum FieldKey {
    Enter,
    Escape,
    Other,
}

/// The rename in progress on a row, or none while the row is just a row.
///
/// The draft is held rather than read back off the field on commit, because both ways to
/// commit need it, and one of them comes while the field is on its way out.
#[derive(Clone, PartialEq, Eq, Debug)]
pub struct Rename {
    pub draft: Option<String>,
}

impl Rename {
    /// A row that is just a row.
    pub fn closed() -> (rename: Self)
        ensures
            rename.draft is None,
    {
        Rename { draft: None }
    }

    /// Open the field on the row's name, which for one that has never been named is empty.
    /// Deliberately not the label the row shows: opening the field and pressing Enter must
    /// not turn a description into a name.
    pub fn open(&mut self, name: Option<&String>)
        ensures
            final(self).draft is Some,
            final(self).draft->0@ == match name {
                Some(n) => n@,
                None => Seq::empty(),
            },
    {
        self.draft = Some(
            match name {
                Some(n) => n.clone(),
                None => String::new(),
            },
        );
    }

    /// Take what was typed.
    pub fn input(&mut self, typed: String)
        ensures
            final(self).draft == Some(typed),
    {
        self.draft = Some(typed);
    }

    /// Commit whatever the field holds, and close it. The draft is *taken*, so of two
    /// commits the second finds nothing to send.
    pub fn commit(&mut self) -> (name: Option<String>)
        ensures
            name == old(self).draft,
            final(self).draft is None,
    {
        let name: Option<String> = match &self.draft {
            Some(n) => Some(n.clone()),
            None => None,
        };
        self.draft = None;
        name
    }

    /// What a key does: Enter commits, Escape abandons the edit (so the blur that follows
    /// has nothing left to commit), and anything else is left to the field.
    pub fn key(&mut self, key: FieldKey) -> (name: Option<String>)
        ensures
            key == FieldKey::Enter ==> name == old(self).draft && final(self).draft is None,
            key == FieldKey::Escape ==> name is None && final(self).draft is None,
            key == FieldKey::Other ==> name is None && final(self).draft == old(self).draft,
    {
        match key {
            FieldKey::Enter => self.commit(),
            FieldKey::Escape => {
                self.draft = None;
                None
            },
            FieldKey::Other => None,
        }
    }
}

} // verus!
