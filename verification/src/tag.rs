//! The metadata of one file, as `mp4ameta` holds it in memory.
//!
//! A tag is opaque here. [`contents`] names what it holds, store by store, and
//! each function of this module changes a tag through one method of
//! `mp4ameta::Tag`. The contracts of these functions are taken from the source
//! of `mp4ameta`; they are believed, not proved. All of them have one shape:
//! the stores that the method writes or empties are named, and every other
//! store is as it was before the call.

use crate::image::{Image, ImageFormat};
use crate::media::MediaKind;
use mp4ameta::{Img, ImgFmt, MediaType, Tag};
use vstd::prelude::*;

verus! {

#[verifier::external_type_specification]
#[verifier::external_body]
pub struct ExTag(Tag);

/// A place in a tag where values of one kind are kept.
#[derive(Clone, Copy, Debug, PartialEq, Eq, Structural)]
pub enum Store {
    Album,
    AlbumArtist,
    Artist,
    Artwork,
    Bpm,
    Category,
    Composer,
    Copyright,
    CustomGenre,
    Description,
    Disc,
    Isrc,
    MediaType,
    StandardGenre,
    Title,
    Track,
    TvShowName,
    Work,
    Year,
}

/// One value kept in a store.
pub enum Datum {
    /// A string, in one of the text stores.
    Text(Seq<char>),
    /// The beats per minute.
    Number(u16),
    /// A track or disc number and the total; 0 stands for a part that is not given.
    Pair(u16, u16),
    /// The media type.
    Kind(MediaKind),
    /// An artwork image: its format and its bytes.
    Picture(ImageFormat, Seq<u8>),
}

/// What a tag holds. A store has an entry where the tag has an atom under the
/// store's identifier, and the entry is what the reading methods of
/// `mp4ameta::Tag` report for that store, in their order: every string of a
/// text store, every image of the artwork store, and for the others the one
/// value that is read. A media type that is none of [`MediaKind`] is not told
/// here.
pub uninterp spec fn contents(tag: Tag) -> Map<Store, Seq<Datum>>;

/// The strings `v` as the values of a text store.
pub open spec fn texts(v: Seq<Seq<char>>) -> Seq<Datum> {
    v.map_values(|s: Seq<char>| Datum::Text(s))
}

/// The string `s` as the only value of a text store.
pub open spec fn text(s: Seq<char>) -> Seq<Datum> {
    seq![Datum::Text(s)]
}

/// `Tag::set_album`: the album store holds the given string and nothing else
/// afterwards.
#[verifier::external_body]
pub(crate) fn set_album(tag: &mut Tag, value: &str)
    ensures
        contents(*final(tag)) == contents(*old(tag)).insert(Store::Album, text(value@)),
{
    tag.set_album(value);
}

/// `Tag::remove_album`: the album store has no entry afterwards.
#[verifier::external_body]
pub(crate) fn remove_album(tag: &mut Tag)
    ensures
        contents(*final(tag)) == contents(*old(tag)).remove(Store::Album),
{
    tag.remove_album();
}

/// `Tag::set_copyright`: the copyright store holds the given string and nothing else
/// afterwards.
#[verifier::external_body]
pub(crate) fn set_copyright(tag: &mut Tag, value: &str)
    ensures
        contents(*final(tag)) == contents(*old(tag)).insert(Store::Copyright, text(value@)),
{
    tag.set_copyright(value);
}

/// `Tag::remove_copyright`: the copyright store has no entry afterwards.
#[verifier::external_body]
pub(crate) fn remove_copyright(tag: &mut Tag)
    ensures
        contents(*final(tag)) == contents(*old(tag)).remove(Store::Copyright),
{
    tag.remove_copyright();
}

/// `Tag::set_description`: the description store holds the given string and nothing else
/// afterwards.
#[verifier::external_body]
pub(crate) fn set_description(tag: &mut Tag, value: &str)
    ensures
        contents(*final(tag)) == contents(*old(tag)).insert(Store::Description, text(value@)),
{
    tag.set_description(value);
}

/// `Tag::remove_descriptions`: the description store has no entry afterwards.
#[verifier::external_body]
pub(crate) fn remove_descriptions(tag: &mut Tag)
    ensures
        contents(*final(tag)) == contents(*old(tag)).remove(Store::Description),
{
    tag.remove_descriptions();
}

/// `Tag::set_isrc`: the ISRC store holds the given string and nothing else
/// afterwards.
#[verifier::external_body]
pub(crate) fn set_isrc(tag: &mut Tag, value: &str)
    ensures
        contents(*final(tag)) == contents(*old(tag)).insert(Store::Isrc, text(value@)),
{
    tag.set_isrc(value);
}

/// `Tag::remove_isrc`: the ISRC store has no entry afterwards.
#[verifier::external_body]
pub(crate) fn remove_isrc(tag: &mut Tag)
    ensures
        contents(*final(tag)) == contents(*old(tag)).remove(Store::Isrc),
{
    tag.remove_isrc();
}

/// `Tag::set_title`: the title store holds the given string and nothing else
/// afterwards.
#[verifier::external_body]
pub(crate) fn set_title(tag: &mut Tag, value: &str)
    ensures
        contents(*final(tag)) == contents(*old(tag)).insert(Store::Title, text(value@)),
{
    tag.set_title(value);
}

/// `Tag::remove_title`: the title store has no entry afterwards.
#[verifier::external_body]
pub(crate) fn remove_title(tag: &mut Tag)
    ensures
        contents(*final(tag)) == contents(*old(tag)).remove(Store::Title),
{
    tag.remove_title();
}

/// `Tag::set_tv_show_name`: the show name store holds the given string and nothing else
/// afterwards.
#[verifier::external_body]
pub(crate) fn set_tv_show_name(tag: &mut Tag, value: &str)
    ensures
        contents(*final(tag)) == contents(*old(tag)).insert(Store::TvShowName, text(value@)),
{
    tag.set_tv_show_name(value);
}

/// `Tag::remove_tv_show_name`: the show name store has no entry afterwards.
#[verifier::external_body]
pub(crate) fn remove_tv_show_name(tag: &mut Tag)
    ensures
        contents(*final(tag)) == contents(*old(tag)).remove(Store::TvShowName),
{
    tag.remove_tv_show_name();
}

/// `Tag::set_work`: the work store holds the given string and nothing else
/// afterwards.
#[verifier::external_body]
pub(crate) fn set_work(tag: &mut Tag, value: &str)
    ensures
        contents(*final(tag)) == contents(*old(tag)).insert(Store::Work, text(value@)),
{
    tag.set_work(value);
}

/// `Tag::remove_work`: the work store has no entry afterwards.
#[verifier::external_body]
pub(crate) fn remove_work(tag: &mut Tag)
    ensures
        contents(*final(tag)) == contents(*old(tag)).remove(Store::Work),
{
    tag.remove_work();
}

/// `Tag::set_year`: the year store holds the given string and nothing else
/// afterwards.
#[verifier::external_body]
pub(crate) fn set_year(tag: &mut Tag, value: &str)
    ensures
        contents(*final(tag)) == contents(*old(tag)).insert(Store::Year, text(value@)),
{
    tag.set_year(value);
}

/// `Tag::remove_year`: the year store has no entry afterwards.
#[verifier::external_body]
pub(crate) fn remove_year(tag: &mut Tag)
    ensures
        contents(*final(tag)) == contents(*old(tag)).remove(Store::Year),
{
    tag.remove_year();
}

/// `Tag::set_album_artists`: the album artist store holds the given strings, in their order, and
/// nothing else afterwards.
#[verifier::external_body]
pub(crate) fn set_album_artists(tag: &mut Tag, values: &Vec<String>)
    ensures
        contents(*final(tag)) == contents(*old(tag)).insert(
            Store::AlbumArtist,
            texts(values.deep_view()),
        ),
{
    tag.set_album_artists(values.clone());
}

/// `Tag::remove_album_artists`: the album artist store has no entry afterwards.
#[verifier::external_body]
pub(crate) fn remove_album_artists(tag: &mut Tag)
    ensures
        contents(*final(tag)) == contents(*old(tag)).remove(Store::AlbumArtist),
{
    tag.remove_album_artists();
}

/// `Tag::set_artists`: the artist store holds the given strings, in their order, and
/// nothing else afterwards.
#[verifier::external_body]
pub(crate) fn set_artists(tag: &mut Tag, values: &Vec<String>)
    ensures
        contents(*final(tag)) == contents(*old(tag)).insert(
            Store::Artist,
            texts(values.deep_view()),
        ),
{
    tag.set_artists(values.clone());
}

/// `Tag::remove_artists`: the artist store has no entry afterwards.
#[verifier::external_body]
pub(crate) fn remove_artists(tag: &mut Tag)
    ensures
        contents(*final(tag)) == contents(*old(tag)).remove(Store::Artist),
{
    tag.remove_artists();
}

/// `Tag::set_categories`: the category store holds the given strings, in their order, and
/// nothing else afterwards.
#[verifier::external_body]
pub(crate) fn set_categories(tag: &mut Tag, values: &Vec<String>)
    ensures
        contents(*final(tag)) == contents(*old(tag)).insert(
            Store::Category,
            texts(values.deep_view()),
        ),
{
    tag.set_categories(values.clone());
}

/// `Tag::remove_categories`: the category store has no entry afterwards.
#[verifier::external_body]
pub(crate) fn remove_categories(tag: &mut Tag)
    ensures
        contents(*final(tag)) == contents(*old(tag)).remove(Store::Category),
{
    tag.remove_categories();
}

/// `Tag::set_composers`: the composer store holds the given strings, in their order, and
/// nothing else afterwards.
#[verifier::external_body]
pub(crate) fn set_composers(tag: &mut Tag, values: &Vec<String>)
    ensures
        contents(*final(tag)) == contents(*old(tag)).insert(
            Store::Composer,
            texts(values.deep_view()),
        ),
{
    tag.set_composers(values.clone());
}

/// `Tag::remove_composers`: the composer store has no entry afterwards.
#[verifier::external_body]
pub(crate) fn remove_composers(tag: &mut Tag)
    ensures
        contents(*final(tag)) == contents(*old(tag)).remove(Store::Composer),
{
    tag.remove_composers();
}

/// `Tag::set_genres`: the custom genre store holds the given strings, in their
/// order, and nothing else afterwards, and the standard genre store has no
/// entry.
#[verifier::external_body]
pub(crate) fn set_genres(tag: &mut Tag, values: &Vec<String>)
    ensures
        contents(*final(tag)) == contents(*old(tag)).insert(
            Store::CustomGenre,
            texts(values.deep_view()),
        ).remove(Store::StandardGenre),
{
    tag.set_genres(values.clone());
}

/// `Tag::remove_genres`: neither genre store has an entry afterwards.
#[verifier::external_body]
pub(crate) fn remove_genres(tag: &mut Tag)
    ensures
        contents(*final(tag)) == contents(*old(tag)).remove(Store::StandardGenre).remove(
            Store::CustomGenre,
        ),
{
    tag.remove_genres();
}

/// `Tag::set_media_type`: the media type store holds the given kind and
/// nothing else afterwards.
#[verifier::external_body]
pub(crate) fn set_media_type(tag: &mut Tag, kind: MediaKind)
    ensures
        contents(*final(tag)) == contents(*old(tag)).insert(
            Store::MediaType,
            seq![Datum::Kind(kind)],
        ),
{
    tag.set_media_type(
        match kind {
            MediaKind::Movie => MediaType::Movie,
            MediaKind::Normal => MediaType::Normal,
            MediaKind::AudioBook => MediaType::AudioBook,
            MediaKind::MusicVideo => MediaType::MusicVideo,
            MediaKind::ShortFilm => MediaType::ShortFilm,
            MediaKind::TvShow => MediaType::TvShow,
            MediaKind::Booklet => MediaType::Booklet,
        },
    );
}

/// `Tag::remove_media_type`: the media type store has no entry afterwards.
#[verifier::external_body]
pub(crate) fn remove_media_type(tag: &mut Tag)
    ensures
        contents(*final(tag)) == contents(*old(tag)).remove(Store::MediaType),
{
    tag.remove_media_type();
}

/// `Tag::set_artwork`: the artwork store holds the given image and nothing
/// else afterwards.
#[verifier::external_body]
pub(crate) fn set_artwork(tag: &mut Tag, image: &Image)
    ensures
        contents(*final(tag)) == contents(*old(tag)).insert(
            Store::Artwork,
            seq![Datum::Picture(image.format, image.data@)],
        ),
{
    let format = match image.format {
        ImageFormat::Png => ImgFmt::Png,
        ImageFormat::Bmp => ImgFmt::Bmp,
        ImageFormat::Jpeg => ImgFmt::Jpeg,
    };
    tag.set_artwork(Img::new(format, image.data.clone()));
}

/// `Tag::remove_artworks`: the artwork store has no entry afterwards.
#[verifier::external_body]
pub(crate) fn remove_artworks(tag: &mut Tag)
    ensures
        contents(*final(tag)) == contents(*old(tag)).remove(Store::Artwork),
{
    tag.remove_artworks();
}

/// `Tag::set_bpm`: the store of the beats per minute holds the given number
/// and nothing else afterwards.
#[verifier::external_body]
pub(crate) fn set_bpm(tag: &mut Tag, bpm: u16)
    ensures
        contents(*final(tag)) == contents(*old(tag)).insert(Store::Bpm, seq![Datum::Number(bpm)]),
{
    tag.set_bpm(bpm);
}

/// `Tag::remove_bpm`: the beats per minute store has no entry afterwards.
#[verifier::external_body]
pub(crate) fn remove_bpm(tag: &mut Tag)
    ensures
        contents(*final(tag)) == contents(*old(tag)).remove(Store::Bpm),
{
    tag.remove_bpm();
}

/// `Tag::set_track`: the track store reports the given number and total
/// afterwards.
#[verifier::external_body]
pub(crate) fn set_track(tag: &mut Tag, number: u16, total: u16)
    ensures
        contents(*final(tag)) == contents(*old(tag)).insert(
            Store::Track,
            seq![Datum::Pair(number, total)],
        ),
{
    tag.set_track(number, total);
}

/// `Tag::remove_track`: the track store has no entry afterwards.
#[verifier::external_body]
pub(crate) fn remove_track(tag: &mut Tag)
    ensures
        contents(*final(tag)) == contents(*old(tag)).remove(Store::Track),
{
    tag.remove_track();
}

/// `Tag::set_disc`: the disc store reports the given number and total
/// afterwards.
#[verifier::external_body]
pub(crate) fn set_disc(tag: &mut Tag, number: u16, total: u16)
    ensures
        contents(*final(tag)) == contents(*old(tag)).insert(
            Store::Disc,
            seq![Datum::Pair(number, total)],
        ),
{
    tag.set_disc(number, total);
}

/// `Tag::remove_disc`: the disc store has no entry afterwards.
#[verifier::external_body]
pub(crate) fn remove_disc(tag: &mut Tag)
    ensures
        contents(*final(tag)) == contents(*old(tag)).remove(Store::Disc),
{
    tag.remove_disc();
}

/// `Tag::clear`: no store has an entry afterwards.
#[verifier::external_body]
pub(crate) fn clear(tag: &mut Tag)
    ensures
        contents(*final(tag)).dom() == Set::<Store>::empty(),
{
    tag.clear();
}

} // verus!
