//! Media types and their names.

use crate::text::same_text;
use vstd::prelude::*;
use vstd::string::*;

verus! {

/// The kind of media that a file holds.
#[derive(Clone, Copy, Debug, PartialEq, Eq, Structural)]
pub enum MediaKind {
    Movie,
    Normal,
    AudioBook,
    MusicVideo,
    ShortFilm,
    TvShow,
    Booklet,
}

impl DeepView for MediaKind {
    type V = MediaKind;

    open spec fn deep_view(&self) -> MediaKind {
        *self
    }
}

/// The lower-case form of a string, as `str::to_lowercase` gives it: it
/// follows the Unicode rules, which are not written out here.
pub uninterp spec fn lowercase(s: Seq<char>) -> Seq<char>;

/// `str::to_lowercase`: the result is the lower-case form of `s`.
#[verifier::external_body]
fn to_lowercase(s: &str) -> (r: String)
    ensures
        r@ == lowercase(s@),
{
    s.to_lowercase()
}

/// The media kind that goes by `name`, where `name` is one of the seven
/// names, written in lower case.
pub open spec fn kind_named(name: Seq<char>) -> Option<MediaKind> {
    if name == "movie"@ {
        Some(MediaKind::Movie)
    } else if name == "normal"@ {
        Some(MediaKind::Normal)
    } else if name == "audiobook"@ {
        Some(MediaKind::AudioBook)
    } else if name == "music-video"@ {
        Some(MediaKind::MusicVideo)
    } else if name == "short-film"@ {
        Some(MediaKind::ShortFilm)
    } else if name == "tv-show"@ {
        Some(MediaKind::TvShow)
    } else if name == "booklet"@ {
        Some(MediaKind::Booklet)
    } else {
        None
    }
}

/// The media kind that goes by `name`, which is taken as it stands.
pub fn media_kind_named(name: &str) -> (r: Option<MediaKind>)
    ensures
        r == kind_named(name@),
{
    if same_text(name, "movie") {
        Some(MediaKind::Movie)
    } else if same_text(name, "normal") {
        Some(MediaKind::Normal)
    } else if same_text(name, "audiobook") {
        Some(MediaKind::AudioBook)
    } else if same_text(name, "music-video") {
        Some(MediaKind::MusicVideo)
    } else if same_text(name, "short-film") {
        Some(MediaKind::ShortFilm)
    } else if same_text(name, "tv-show") {
        Some(MediaKind::TvShow)
    } else if same_text(name, "booklet") {
        Some(MediaKind::Booklet)
    } else {
        None
    }
}

/// The media kind that `s` names, in whatever case it is written.
pub fn parse_media_type(s: &str) -> (r: Option<MediaKind>)
    ensures
        r == kind_named(lowercase(s@)),
{
    let lowered = to_lowercase(s);
    media_kind_named(lowered.as_str())
}

} // verus!
