//! Fields, the three states of a field, and the errors of a request.

use vstd::prelude::*;
use vstd::string::*;

verus! {

/// The fields that can be edited, one for each key of a request.
#[derive(Clone, Copy, Debug, PartialEq, Eq, Structural)]
pub enum Field {
    Artist,
    Title,
    Album,
    Genre,
    Category,
    Description,
    MediaType,
    Artwork,
    Bpm,
    Track,
    Disc,
    Copyright,
    Isrc,
    Show,
    Work,
    Year,
}

/// What is to happen to one field: nothing, its removal, or a new value.
#[derive(Clone, Debug, PartialEq, Eq)]
pub enum FieldValue<T> {
    /// The field was not mentioned: what the tag holds for it stays.
    Absent,
    /// The field was given without a value: what the tag holds for it goes.
    Clear,
    /// The field was given a value, which replaces what the tag holds for it.
    Put(T),
}

impl<T: DeepView> DeepView for FieldValue<T> {
    type V = FieldValue<T::V>;

    open spec fn deep_view(&self) -> FieldValue<T::V> {
        match self {
            FieldValue::Absent => FieldValue::Absent,
            FieldValue::Clear => FieldValue::Clear,
            FieldValue::Put(value) => FieldValue::Put(value.deep_view()),
        }
    }
}

/// Why a request cannot be carried out. Each of these is found before any
/// file is touched.
#[derive(Clone, Copy, Debug, PartialEq, Eq, Structural)]
pub enum ConfigError {
    /// A list holds an empty item beside a non-empty one.
    EmptyItem(Field),
    /// The value is no unsigned 16-bit number.
    NotANumber(Field),
    /// The value is not of the form N/TOTAL.
    PairSyntax(Field),
    /// The value is of the form N/TOTAL, with N above TOTAL.
    PairOrder(Field),
    /// The value names no media type.
    UnknownMediaType,
    /// The artwork path has no extension to tell the image format by.
    NoExtension,
    /// The extension of the artwork path names no supported image format.
    UnsupportedExtension,
    /// No field was mentioned at all.
    NothingToDo,
}

impl ConfigError {
    /// The text of [`ConfigError::message`].
    pub open spec fn message_text(self) -> Seq<char> {
        match self {
            ConfigError::EmptyItem(_) => "a list must not hold an empty item"@,
            ConfigError::NotANumber(_) => "the value must be a positive integer or 0"@,
            ConfigError::PairSyntax(_) => "the correct syntax is N/TOTAL"@,
            ConfigError::PairOrder(_) => "N/TOTAL: N can't be larger than TOTAL"@,
            ConfigError::UnknownMediaType => "unknown media type"@,
            ConfigError::NoExtension => "image format can't be determined"@,
            ConfigError::UnsupportedExtension => "unsupported image extension"@,
            ConfigError::NothingToDo => "no field was given"@,
        }
    }

    /// A sentence that tells the user what is wrong.
    pub fn message(&self) -> (text: String)
        ensures
            text@ == self.message_text(),
    {
        match self {
            ConfigError::EmptyItem(_) => String::from_str("a list must not hold an empty item"),
            ConfigError::NotANumber(_) => String::from_str(
                "the value must be a positive integer or 0",
            ),
            ConfigError::PairSyntax(_) => String::from_str("the correct syntax is N/TOTAL"),
            ConfigError::PairOrder(_) => String::from_str("N/TOTAL: N can't be larger than TOTAL"),
            ConfigError::UnknownMediaType => String::from_str("unknown media type"),
            ConfigError::NoExtension => String::from_str("image format can't be determined"),
            ConfigError::UnsupportedExtension => String::from_str("unsupported image extension"),
            ConfigError::NothingToDo => String::from_str("no field was given"),
        }
    }
}

} // verus!
