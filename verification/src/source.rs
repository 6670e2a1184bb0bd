//! What the best-effort read of a configuration file brought, and the pair
//! of texts that the notification engine is handed.

use vstd::prelude::*;
use crate::error::ForwardError;
use crate::product::Product;

verus! {

/// The outcome of reading one configuration file.
#[derive(Debug, PartialEq, Eq)]
pub enum FileRead {
    /// There is no such file.
    Missing,
    /// The file exists but reading it failed.
    Unreadable,
    /// The file was read.
    Content(String),
}

impl FileRead {
    /// The text that was read, if any was.
    pub open spec fn content(self) -> Option<Seq<char>> {
        match self {
            FileRead::Content(text) => Some(text@),
            _ => None,
        }
    }

    /// The text that stands for the file: what was read, or nothing.
    pub open spec fn text(self) -> Seq<char> {
        match self {
            FileRead::Content(text) => text@,
            _ => Seq::empty(),
        }
    }

    /// The failure to report for this read of a file of `product`: one for
    /// an unreadable file, none for a missing one.
    pub open spec fn failure(self, product: Product) -> Option<ForwardError> {
        if self is Unreadable {
            Some(ForwardError::FileRead(product))
        } else {
            None
        }
    }

    /// The text that stands for the file; an absent file stands for the
    /// empty text.
    pub fn into_text(self) -> (text: String)
        ensures
            text@ == self.text(),
    {
        match self {
            FileRead::Content(text) => text,
            _ => String::new(),
        }
    }
}

/// Turns the outcome of a read into the content to work with and the failure
/// to report. A missing file is no failure; an unreadable one is reported
/// and then counts as missing.
pub fn attempt_file_read(product: Product, read: FileRead) -> (outcome: (
    Option<String>,
    Option<ForwardError>,
))
    ensures
        outcome.0.deep_view() == read.content(),
        outcome.1 == read.failure(product),
{
    match read {
        FileRead::Missing => (None, None),
        FileRead::Unreadable => (None, Some(ForwardError::FileRead(product))),
        FileRead::Content(text) => (Some(text), None),
    }
}

/// The two configuration texts of one product, as the notification engine
/// takes them.
#[derive(Debug, PartialEq, Eq)]
pub struct ConfigSource {
    pub public: String,
    pub private: String,
}

/// The mathematical value of a `ConfigSource`.
pub struct ConfigText {
    pub public: Seq<char>,
    pub private: Seq<char>,
}

impl ConfigText {
    /// The pair of empty texts: the engine then works with its built-in
    /// targets and matchers alone.
    pub open spec fn builtin() -> ConfigText {
        ConfigText { public: Seq::empty(), private: Seq::empty() }
    }
}

impl View for ConfigSource {
    type V = ConfigText;

    open spec fn view(&self) -> ConfigText {
        ConfigText { public: self.public@, private: self.private@ }
    }
}

impl ConfigSource {
    /// The empty configuration, which holds the built-in defaults only.
    pub fn builtin() -> (source: ConfigSource)
        ensures
            source@ == ConfigText::builtin(),
    {
        ConfigSource { public: String::new(), private: String::new() }
    }

    /// The configuration made of what the reads of the two files brought.
    pub fn from_reads(public: FileRead, private: FileRead) -> (source: ConfigSource)
        ensures
            source@ == (ConfigText { public: public.text(), private: private.text() }),
    {
        ConfigSource { public: public.into_text(), private: private.into_text() }
    }

    /// A copy with the same texts.
    pub fn duplicate(&self) -> (copy: ConfigSource)
        ensures
            copy@ == self@,
    {
        ConfigSource { public: self.public.clone(), private: self.private.clone() }
    }
}

} // verus!
