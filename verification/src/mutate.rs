//! Editing one field of a tag.
//!
//! A field is kept in one store or in a group of stores that go together:
//! the artists are also the album artists and the composers, and the genres
//! are kept in a standard and in a custom store. A field is edited as a
//! whole: all stores of its group change in one call.

use crate::field::{Field, FieldValue};
use crate::image::{Image, ImageFormat};
use crate::media::MediaKind;
use crate::number::{decimal_string, decimal_text};
use crate::tag;
use crate::tag::{contents, text, texts, Datum, Store};
use mp4ameta::Tag;
use vstd::prelude::*;

verus! {

/// The field that store `s` is kept for.
pub open spec fn owner(s: Store) -> Field {
    match s {
        Store::Album => Field::Album,
        Store::AlbumArtist => Field::Artist,
        Store::Artist => Field::Artist,
        Store::Artwork => Field::Artwork,
        Store::Bpm => Field::Bpm,
        Store::Category => Field::Category,
        Store::Composer => Field::Artist,
        Store::Copyright => Field::Copyright,
        Store::CustomGenre => Field::Genre,
        Store::Description => Field::Description,
        Store::Disc => Field::Disc,
        Store::Isrc => Field::Isrc,
        Store::MediaType => Field::MediaType,
        Store::StandardGenre => Field::Genre,
        Store::Title => Field::Title,
        Store::Track => Field::Track,
        Store::TvShowName => Field::Show,
        Store::Work => Field::Work,
        Store::Year => Field::Year,
    }
}

/// What an edit of a field means for store `s` of the field's group. A new
/// value goes into every store of the group but the standard genre store:
/// that one holds codes, not names, and is emptied, so that the genres of
/// the tag are the new ones and no others.
pub open spec fn change(edit: FieldValue<Seq<Datum>>, s: Store) -> FieldValue<Seq<Datum>> {
    match edit {
        FieldValue::Put(_) => if s == Store::StandardGenre {
            FieldValue::Clear
        } else {
            edit
        },
        _ => edit,
    }
}

/// What a tag holds after `field` was edited, if it held `held` before: the
/// stores of the field's group follow the edit, all others are untouched.
pub open spec fn edited(
    held: Map<Store, Seq<Datum>>,
    field: Field,
    edit: FieldValue<Seq<Datum>>,
) -> Map<Store, Seq<Datum>> {
    Map::new(
        |s: Store|
            if owner(s) == field {
                match change(edit, s) {
                    FieldValue::Absent => held.dom().contains(s),
                    FieldValue::Clear => false,
                    FieldValue::Put(_) => true,
                }
            } else {
                held.dom().contains(s)
            },
        |s: Store|
            if owner(s) == field {
                match change(edit, s) {
                    FieldValue::Put(values) => values,
                    _ => held[s],
                }
            } else {
                held[s]
            },
    )
}

/// Whether the field's value is one string.
pub open spec fn is_text_field(field: Field) -> bool {
    field == Field::Title || field == Field::Album || field == Field::Description || field
        == Field::Copyright || field == Field::Isrc || field == Field::Show || field == Field::Work
        || field == Field::Year
}

/// Whether the field's value is a list of strings.
pub open spec fn is_list_field(field: Field) -> bool {
    field == Field::Artist || field == Field::Genre || field == Field::Category
}

/// Whether the field's value is a number and a total.
pub open spec fn is_pair_field(field: Field) -> bool {
    field == Field::Track || field == Field::Disc
}

/// Removes what the tag holds for `field`, in every store of its group.
pub fn clear_field(tag: &mut Tag, field: Field)
    ensures
        contents(*final(tag)) == edited(contents(*old(tag)), field, FieldValue::Clear),
{
    match field {
        Field::Artist => {
            tag::remove_artists(tag);
            tag::remove_album_artists(tag);
            tag::remove_composers(tag);
        },
        Field::Title => tag::remove_title(tag),
        Field::Album => tag::remove_album(tag),
        Field::Genre => tag::remove_genres(tag),
        Field::Category => tag::remove_categories(tag),
        Field::Description => tag::remove_descriptions(tag),
        Field::MediaType => tag::remove_media_type(tag),
        Field::Artwork => tag::remove_artworks(tag),
        Field::Bpm => tag::remove_bpm(tag),
        Field::Track => tag::remove_track(tag),
        Field::Disc => tag::remove_disc(tag),
        Field::Copyright => tag::remove_copyright(tag),
        Field::Isrc => tag::remove_isrc(tag),
        Field::Show => tag::remove_tv_show_name(tag),
        Field::Work => tag::remove_work(tag),
        Field::Year => tag::remove_year(tag),
    }
    assert(contents(*tag) =~= edited(contents(*old(tag)), field, FieldValue::Clear));
}

/// Replaces what the tag holds for a text field by one string.
pub(crate) fn put_text(tag: &mut Tag, field: Field, value: &str)
    requires
        is_text_field(field),
    ensures
        contents(*final(tag)) == edited(contents(*old(tag)), field, FieldValue::Put(text(value@))),
{
    match field {
        Field::Title => tag::set_title(tag, value),
        Field::Album => tag::set_album(tag, value),
        Field::Description => tag::set_description(tag, value),
        Field::Copyright => tag::set_copyright(tag, value),
        Field::Isrc => tag::set_isrc(tag, value),
        Field::Show => tag::set_tv_show_name(tag, value),
        Field::Work => tag::set_work(tag, value),
        _ => tag::set_year(tag, value),
    }
    assert(contents(*tag) =~= edited(
        contents(*old(tag)),
        field,
        FieldValue::Put(text(value@)),
    ));
}

/// Replaces what the tag holds for a list field by the given strings, in
/// every store of the field's group.
pub(crate) fn put_list(tag: &mut Tag, field: Field, values: &Vec<String>)
    requires
        is_list_field(field),
    ensures
        contents(*final(tag)) == edited(
            contents(*old(tag)),
            field,
            FieldValue::Put(texts(values.deep_view())),
        ),
{
    match field {
        Field::Artist => {
            tag::set_artists(tag, values);
            tag::set_album_artists(tag, values);
            tag::set_composers(tag, values);
        },
        Field::Genre => tag::set_genres(tag, values),
        _ => tag::set_categories(tag, values),
    }
    assert(contents(*tag) =~= edited(
        contents(*old(tag)),
        field,
        FieldValue::Put(texts(values.deep_view())),
    ));
}

/// Replaces the track or the disc number that the tag holds.
pub(crate) fn put_pair(tag: &mut Tag, field: Field, number: u16, total: u16)
    requires
        is_pair_field(field),
    ensures
        contents(*final(tag)) == edited(
            contents(*old(tag)),
            field,
            FieldValue::Put(seq![Datum::Pair(number, total)]),
        ),
{
    match field {
        Field::Track => tag::set_track(tag, number, total),
        _ => tag::set_disc(tag, number, total),
    }
    assert(contents(*tag) =~= edited(
        contents(*old(tag)),
        field,
        FieldValue::Put(seq![Datum::Pair(number, total)]),
    ));
}

/// The edit of a text field, as the values that go into the tag.
pub open spec fn text_edit(value: FieldValue<Seq<char>>) -> FieldValue<Seq<Datum>> {
    match value {
        FieldValue::Absent => FieldValue::Absent,
        FieldValue::Clear => FieldValue::Clear,
        FieldValue::Put(s) => FieldValue::Put(text(s)),
    }
}

/// The edit of a list field, as the values that go into the tag.
pub open spec fn list_edit(value: FieldValue<Seq<Seq<char>>>) -> FieldValue<Seq<Datum>> {
    match value {
        FieldValue::Absent => FieldValue::Absent,
        FieldValue::Clear => FieldValue::Clear,
        FieldValue::Put(v) => FieldValue::Put(texts(v)),
    }
}

/// The edit of the beats per minute, as the values that go into the tag.
pub open spec fn number_edit(value: FieldValue<u16>) -> FieldValue<Seq<Datum>> {
    match value {
        FieldValue::Absent => FieldValue::Absent,
        FieldValue::Clear => FieldValue::Clear,
        FieldValue::Put(n) => FieldValue::Put(seq![Datum::Number(n)]),
    }
}

/// The edit of the year, as the values that go into the tag: the year is
/// kept as text, in decimal digits.
pub open spec fn year_edit(value: FieldValue<u16>) -> FieldValue<Seq<Datum>> {
    match value {
        FieldValue::Absent => FieldValue::Absent,
        FieldValue::Clear => FieldValue::Clear,
        FieldValue::Put(n) => FieldValue::Put(text(decimal_text(n as nat))),
    }
}

/// The edit of a track or disc number, as the values that go into the tag.
pub open spec fn pair_edit(value: FieldValue<(u16, u16)>) -> FieldValue<Seq<Datum>> {
    match value {
        FieldValue::Absent => FieldValue::Absent,
        FieldValue::Clear => FieldValue::Clear,
        FieldValue::Put(pair) => FieldValue::Put(seq![Datum::Pair(pair.0, pair.1)]),
    }
}

/// The edit of the media type, as the values that go into the tag.
pub open spec fn kind_edit(value: FieldValue<MediaKind>) -> FieldValue<Seq<Datum>> {
    match value {
        FieldValue::Absent => FieldValue::Absent,
        FieldValue::Clear => FieldValue::Clear,
        FieldValue::Put(kind) => FieldValue::Put(seq![Datum::Kind(kind)]),
    }
}

/// The edit of the artwork, as the values that go into the tag.
pub open spec fn picture_edit(value: FieldValue<(ImageFormat, Seq<u8>)>) -> FieldValue<
    Seq<Datum>,
> {
    match value {
        FieldValue::Absent => FieldValue::Absent,
        FieldValue::Clear => FieldValue::Clear,
        FieldValue::Put(image) => FieldValue::Put(seq![Datum::Picture(image.0, image.1)]),
    }
}

/// An edit that says nothing leaves every store as it is.
pub proof fn lemma_absent_edit(held: Map<Store, Seq<Datum>>, field: Field)
    ensures
        edited(held, field, FieldValue::Absent) == held,
{
    assert(edited(held, field, FieldValue::Absent) =~= held);
}

/// Edits of two fields can be made in either order: no store is kept for
/// more than one field.
pub proof fn lemma_edits_commute(
    held: Map<Store, Seq<Datum>>,
    one: Field,
    edit_of_one: FieldValue<Seq<Datum>>,
    other: Field,
    edit_of_other: FieldValue<Seq<Datum>>,
)
    requires
        one != other,
    ensures
        edited(edited(held, one, edit_of_one), other, edit_of_other) == edited(
            edited(held, other, edit_of_other),
            one,
            edit_of_one,
        ),
{
    assert(edited(edited(held, one, edit_of_one), other, edit_of_other) =~= edited(
        edited(held, other, edit_of_other),
        one,
        edit_of_one,
    ));
}

/// Edits a text field of the tag.
pub(crate) fn edit_text(tag: &mut Tag, field: Field, value: &FieldValue<String>)
    requires
        is_text_field(field),
    ensures
        contents(*final(tag)) == edited(contents(*old(tag)), field, text_edit(value.deep_view())),
{
    match value {
        FieldValue::Absent => {
            proof {
                lemma_absent_edit(contents(*tag), field);
            }
        },
        FieldValue::Clear => clear_field(tag, field),
        FieldValue::Put(s) => put_text(tag, field, s.as_str()),
    }
}

/// Edits a list field of the tag, in every store of the field's group.
pub(crate) fn edit_list(tag: &mut Tag, field: Field, value: &FieldValue<Vec<String>>)
    requires
        is_list_field(field),
    ensures
        contents(*final(tag)) == edited(contents(*old(tag)), field, list_edit(value.deep_view())),
{
    match value {
        FieldValue::Absent => {
            proof {
                lemma_absent_edit(contents(*tag), field);
            }
        },
        FieldValue::Clear => clear_field(tag, field),
        FieldValue::Put(v) => put_list(tag, field, v),
    }
}

/// Edits the track or the disc number of the tag.
pub(crate) fn edit_pair(tag: &mut Tag, field: Field, value: &FieldValue<(u16, u16)>)
    requires
        is_pair_field(field),
    ensures
        contents(*final(tag)) == edited(contents(*old(tag)), field, pair_edit(value.deep_view())),
{
    match value {
        FieldValue::Absent => {
            proof {
                lemma_absent_edit(contents(*tag), field);
            }
        },
        FieldValue::Clear => clear_field(tag, field),
        FieldValue::Put(pair) => put_pair(tag, field, pair.0, pair.1),
    }
}

/// Edits the beats per minute of the tag.
pub(crate) fn edit_bpm(tag: &mut Tag, value: &FieldValue<u16>)
    ensures
        contents(*final(tag)) == edited(
            contents(*old(tag)),
            Field::Bpm,
            number_edit(value.deep_view()),
        ),
{
    match value {
        FieldValue::Absent => {
            proof {
                lemma_absent_edit(contents(*tag), Field::Bpm);
            }
        },
        FieldValue::Clear => clear_field(tag, Field::Bpm),
        FieldValue::Put(n) => {
            tag::set_bpm(tag, *n);
            assert(contents(*tag) =~= edited(
                contents(*old(tag)),
                Field::Bpm,
                number_edit(value.deep_view()),
            ));
        },
    }
}

/// Edits the year of the tag.
pub(crate) fn edit_year(tag: &mut Tag, value: &FieldValue<u16>)
    ensures
        contents(*final(tag)) == edited(
            contents(*old(tag)),
            Field::Year,
            year_edit(value.deep_view()),
        ),
{
    match value {
        FieldValue::Absent => {
            proof {
                lemma_absent_edit(contents(*tag), Field::Year);
            }
        },
        FieldValue::Clear => clear_field(tag, Field::Year),
        FieldValue::Put(n) => {
            let digits = decimal_string(*n);
            put_text(tag, Field::Year, digits.as_str());
        },
    }
}

/// Edits the media type of the tag.
pub(crate) fn edit_media_type(tag: &mut Tag, value: &FieldValue<MediaKind>)
    ensures
        contents(*final(tag)) == edited(
            contents(*old(tag)),
            Field::MediaType,
            kind_edit(value.deep_view()),
        ),
{
    match value {
        FieldValue::Absent => {
            proof {
                lemma_absent_edit(contents(*tag), Field::MediaType);
            }
        },
        FieldValue::Clear => clear_field(tag, Field::MediaType),
        FieldValue::Put(kind) => {
            tag::set_media_type(tag, *kind);
            assert(contents(*tag) =~= edited(
                contents(*old(tag)),
                Field::MediaType,
                kind_edit(value.deep_view()),
            ));
        },
    }
}

/// Edits the artwork of the tag: a new image takes the place of all that
/// the tag held.
pub(crate) fn edit_artwork(tag: &mut Tag, value: &FieldValue<Image>)
    ensures
        contents(*final(tag)) == edited(
            contents(*old(tag)),
            Field::Artwork,
            picture_edit(value.deep_view()),
        ),
{
    match value {
        FieldValue::Absent => {
            proof {
                lemma_absent_edit(contents(*tag), Field::Artwork);
            }
        },
        FieldValue::Clear => clear_field(tag, Field::Artwork),
        FieldValue::Put(image) => {
            tag::set_artwork(tag, image);
            assert(contents(*tag) =~= edited(
                contents(*old(tag)),
                Field::Artwork,
                picture_edit(value.deep_view()),
            ));
        },
    }
}

} // verus!
