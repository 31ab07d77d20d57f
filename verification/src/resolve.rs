//! From what the user wrote for one field to what is to happen to it.
//!
//! A field that was not mentioned is left alone, a field given the empty
//! string is cleared, and anything else is the field's new value, once it
//! is found to be well formed.

use crate::field::{ConfigError, Field, FieldValue};
use crate::image::{format_for, image_format_for, ArtworkSource, ImageFormat};
use crate::list::{items, split_items};
use crate::media::{kind_named, lowercase, parse_media_type, MediaKind};
use crate::number::{parse_u16, parsed_u16};
use crate::track::{read_pair, written_pair};
use vstd::prelude::*;
use vstd::string::*;

verus! {

/// What is to happen to a field whose value is one string.
pub open spec fn resolved_text(raw: Option<Seq<char>>) -> FieldValue<Seq<char>> {
    match raw {
        None => FieldValue::Absent,
        Some(s) => if s.len() == 0 {
            FieldValue::Clear
        } else {
            FieldValue::Put(s)
        },
    }
}

/// Resolves a field whose value is one string.
pub fn resolve_text(raw: &Option<String>) -> (r: FieldValue<String>)
    ensures
        r.deep_view() == resolved_text(raw.deep_view()),
{
    match raw {
        None => FieldValue::Absent,
        Some(s) => if s.as_str().unicode_len() == 0 {
            FieldValue::Clear
        } else {
            FieldValue::Put(s.clone())
        },
    }
}

/// Whether one of the strings is empty.
pub open spec fn has_empty(v: Seq<Seq<char>>) -> bool {
    exists|i: int| 0 <= i < v.len() && (#[trigger] v[i]).len() == 0
}

/// Whether one of the strings is not empty.
pub open spec fn has_nonempty(v: Seq<Seq<char>>) -> bool {
    exists|i: int| 0 <= i < v.len() && (#[trigger] v[i]).len() > 0
}

/// What is to happen to a field whose value is a list: the items of the
/// string become the list, unless an empty item stands beside a non-empty
/// one.
pub open spec fn resolved_list(raw: Option<Seq<char>>, field: Field) -> Result<
    FieldValue<Seq<Seq<char>>>,
    ConfigError,
> {
    match raw {
        None => Ok(FieldValue::Absent),
        Some(s) => if s.len() == 0 {
            Ok(FieldValue::Clear)
        } else if has_empty(items(s)) && has_nonempty(items(s)) {
            Err(ConfigError::EmptyItem(field))
        } else {
            Ok(FieldValue::Put(items(s)))
        },
    }
}

/// Resolves a field whose value is a list.
pub fn resolve_list(raw: &Option<String>, field: Field) -> (r: Result<
    FieldValue<Vec<String>>,
    ConfigError,
>)
    ensures
        match r {
            Ok(value) => resolved_list(raw.deep_view(), field) == Ok::<
                FieldValue<Seq<Seq<char>>>,
                ConfigError,
            >(value.deep_view()),
            Err(error) => resolved_list(raw.deep_view(), field) == Err::<
                FieldValue<Seq<Seq<char>>>,
                ConfigError,
            >(error),
        },
{
    match raw {
        None => Ok(FieldValue::Absent),
        Some(s) => {
            if s.as_str().unicode_len() == 0 {
                return Ok(FieldValue::Clear);
            }
            let list = split_items(s.as_str());
            let ghost v = list.deep_view();
            let mut empty = false;
            let mut nonempty = false;
            let mut i: usize = 0;
            while i < list.len()
                invariant
                    i <= list.len(),
                    v == list.deep_view(),
                    empty <==> exists|j: int| 0 <= j < i && (#[trigger] v[j]).len() == 0,
                    nonempty <==> exists|j: int| 0 <= j < i && (#[trigger] v[j]).len() > 0,
                decreases list.len() - i,
            {
                assert(v[i as int] == list[i as int]@);
                if list[i].as_str().unicode_len() == 0 {
                    empty = true;
                } else {
                    nonempty = true;
                }
                i += 1;
            }
            if empty && nonempty {
                Err(ConfigError::EmptyItem(field))
            } else {
                Ok(FieldValue::Put(list))
            }
        },
    }
}

/// What is to happen to a field whose value is a number.
pub open spec fn resolved_number(raw: Option<Seq<char>>, field: Field) -> Result<
    FieldValue<u16>,
    ConfigError,
> {
    match raw {
        None => Ok(FieldValue::Absent),
        Some(s) => if s.len() == 0 {
            Ok(FieldValue::Clear)
        } else {
            match parsed_u16(s) {
                Some(n) => Ok(FieldValue::Put(n)),
                None => Err(ConfigError::NotANumber(field)),
            }
        },
    }
}

/// Resolves a field whose value is a number.
pub fn resolve_number(raw: &Option<String>, field: Field) -> (r: Result<
    FieldValue<u16>,
    ConfigError,
>)
    ensures
        r == resolved_number(raw.deep_view(), field),
{
    match raw {
        None => Ok(FieldValue::Absent),
        Some(s) => if s.as_str().unicode_len() == 0 {
            Ok(FieldValue::Clear)
        } else {
            match parse_u16(s.as_str()) {
                Some(n) => Ok(FieldValue::Put(n)),
                None => Err(ConfigError::NotANumber(field)),
            }
        },
    }
}

/// What is to happen to a field whose value is a number and a total: the
/// number must not be above the total.
pub open spec fn resolved_pair(raw: Option<Seq<char>>, field: Field) -> Result<
    FieldValue<(u16, u16)>,
    ConfigError,
> {
    match raw {
        None => Ok(FieldValue::Absent),
        Some(s) => if s.len() == 0 {
            Ok(FieldValue::Clear)
        } else {
            match written_pair(s) {
                None => Err(ConfigError::PairSyntax(field)),
                Some(pair) => if pair.0 > pair.1 {
                    Err(ConfigError::PairOrder(field))
                } else {
                    Ok(FieldValue::Put(pair))
                },
            }
        },
    }
}

/// Resolves a field whose value is a number and a total.
pub fn resolve_pair(raw: &Option<String>, field: Field) -> (r: Result<
    FieldValue<(u16, u16)>,
    ConfigError,
>)
    ensures
        r == resolved_pair(raw.deep_view(), field),
{
    match raw {
        None => Ok(FieldValue::Absent),
        Some(s) => if s.as_str().unicode_len() == 0 {
            Ok(FieldValue::Clear)
        } else {
            match read_pair(s.as_str()) {
                None => Err(ConfigError::PairSyntax(field)),
                Some(pair) => if pair.0 > pair.1 {
                    Err(ConfigError::PairOrder(field))
                } else {
                    Ok(FieldValue::Put(pair))
                },
            }
        },
    }
}

/// What is to happen to the media type.
pub open spec fn resolved_media_type(raw: Option<Seq<char>>) -> Result<
    FieldValue<MediaKind>,
    ConfigError,
> {
    match raw {
        None => Ok(FieldValue::Absent),
        Some(s) => if s.len() == 0 {
            Ok(FieldValue::Clear)
        } else {
            match kind_named(lowercase(s)) {
                Some(kind) => Ok(FieldValue::Put(kind)),
                None => Err(ConfigError::UnknownMediaType),
            }
        },
    }
}

/// Resolves the media type.
pub fn resolve_media_type(raw: &Option<String>) -> (r: Result<FieldValue<MediaKind>, ConfigError>)
    ensures
        r == resolved_media_type(raw.deep_view()),
{
    match raw {
        None => Ok(FieldValue::Absent),
        Some(s) => if s.as_str().unicode_len() == 0 {
            Ok(FieldValue::Clear)
        } else {
            match parse_media_type(s.as_str()) {
                Some(kind) => Ok(FieldValue::Put(kind)),
                None => Err(ConfigError::UnknownMediaType),
            }
        },
    }
}

/// What is to happen to the artwork, given the extension of the path that
/// was written for it: the path is where the new image is to be read from.
pub open spec fn resolved_artwork(raw: Option<Seq<char>>, extension: Option<Seq<char>>) -> Result<
    FieldValue<(Seq<char>, ImageFormat)>,
    ConfigError,
> {
    match raw {
        None => Ok(FieldValue::Absent),
        Some(path) => if path.len() == 0 {
            Ok(FieldValue::Clear)
        } else {
            match format_for(extension) {
                Ok(format) => Ok(FieldValue::Put((path, format))),
                Err(error) => Err(error),
            }
        },
    }
}

/// Resolves the artwork, given the extension of the path that was written
/// for it.
pub fn resolve_artwork(raw: &Option<String>, extension: &Option<String>) -> (r: Result<
    FieldValue<ArtworkSource>,
    ConfigError,
>)
    ensures
        match r {
            Ok(value) => resolved_artwork(raw.deep_view(), extension.deep_view()) == Ok::<
                FieldValue<(Seq<char>, ImageFormat)>,
                ConfigError,
            >(value.deep_view()),
            Err(error) => resolved_artwork(raw.deep_view(), extension.deep_view()) == Err::<
                FieldValue<(Seq<char>, ImageFormat)>,
                ConfigError,
            >(error),
        },
{
    match raw {
        None => Ok(FieldValue::Absent),
        Some(path) => {
            if path.as_str().unicode_len() == 0 {
                return Ok(FieldValue::Clear);
            }
            let format = match extension {
                Some(e) => image_format_for(Some(e.as_str())),
                None => image_format_for(None),
            };
            match format {
                Ok(format) => Ok(FieldValue::Put(ArtworkSource { path: path.clone(), format })),
                Err(error) => Err(error),
            }
        },
    }
}

} // verus!
