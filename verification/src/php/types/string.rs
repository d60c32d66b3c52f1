//! The engine's string, as far as a value needs it.

use vstd::prelude::*;

verus! {

/// How long the engine keeps a string.
#[derive(Clone, Copy, Debug, PartialEq, Eq, Structural)]
pub enum StringStorage {
    /// Until the end of the request.
    Request,
    /// Across requests.
    Persistent,
    /// In the engine's table of interned strings, where equal strings are one.
    Interned,
}

/// A string of the engine: its text and how long the engine keeps it.
#[derive(Debug, PartialEq, Eq)]
pub struct ZendString {
    text: String,
    storage: StringStorage,
}

/// What a `ZendString` stands for.
pub struct ZendStringView {
    pub text: Seq<char>,
    pub storage: StringStorage,
}

impl View for ZendString {
    type V = ZendStringView;

    closed spec fn view(&self) -> ZendStringView {
        ZendStringView { text: self.text@, storage: self.storage }
    }
}

/// What each of `strings` stands for, in their order.
pub open spec fn string_views(strings: Seq<ZendString>) -> Seq<ZendStringView> {
    Seq::new(strings.len(), |i: int| strings[i]@)
}

impl Clone for ZendString {
    fn clone(&self) -> (copy: Self)
        ensures
            copy == *self,
    {
        ZendString { text: self.text.clone(), storage: self.storage }
    }
}

impl ZendString {
    /// The text as it is held.
    pub closed spec fn text(self) -> String {
        self.text
    }

    /// What the held text stands for is the text of the view.
    pub proof fn lemma_text_view(self)
        ensures
            self.text()@ == self@.text,
    {
    }

    /// A string with the text of `val`, kept across requests if `persistent`
    /// and until the end of the request otherwise.
    pub fn new(val: &str, persistent: bool) -> (string: Self)
        ensures
            string@ == (ZendStringView {
                text: val@,
                storage: if persistent {
                    StringStorage::Persistent
                } else {
                    StringStorage::Request
                },
            }),
    {
        let storage = if persistent {
            StringStorage::Persistent
        } else {
            StringStorage::Request
        };
        ZendString { text: val.to_owned(), storage }
    }

    /// An interned string with the text of `val`.
    pub fn new_interned(val: &str) -> (string: Self)
        ensures
            string@ == (ZendStringView { text: val@, storage: StringStorage::Interned }),
    {
        ZendString { text: val.to_owned(), storage: StringStorage::Interned }
    }

    /// The text.
    pub fn as_str(&self) -> (text: &str)
        ensures
            text@ == self@.text,
    {
        self.text.as_str()
    }

    /// A copy of the text.
    pub fn to_text(&self) -> (text: String)
        ensures
            text == self.text(),
            text@ == self@.text,
    {
        self.text.clone()
    }

    /// How long the engine keeps the string.
    pub fn storage(&self) -> (storage: StringStorage)
        ensures
            storage == self@.storage,
    {
        self.storage
    }
}

} // verus!
