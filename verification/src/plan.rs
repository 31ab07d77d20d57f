//! The plan of an invocation: what is to happen to each field, and the files
//! it is to happen to.
//!
//! A plan is made in two steps. What the user wrote is resolved into a
//! [`Draft`], which names the image file of a new artwork without having
//! read it. The bytes of that file turn the draft into a [`Plan`]. Neither
//! can be changed once it is made, and one plan serves every file.

use crate::field::{ConfigError, Field, FieldValue};
use crate::image::{
    is_plain_name, lemma_extension_needs_dot, path_extension, plain_extension, stands_behind_dot,
    ArtworkSource, Image, ImageFormat,
};
use crate::media::MediaKind;
use crate::mutate::{
    edit_artwork, edit_bpm, edit_list, edit_media_type, edit_pair, edit_text, edit_year, edited,
    kind_edit, list_edit, number_edit, owner, pair_edit, picture_edit, text_edit, year_edit,
};
use crate::resolve::{
    resolve_artwork, resolve_list, resolve_media_type, resolve_number, resolve_pair, resolve_text,
    resolved_artwork, resolved_list, resolved_media_type, resolved_number, resolved_pair,
    resolved_text,
};
use crate::tag::{contents, Datum, Store};
use mp4ameta::Tag;
use vstd::prelude::*;
use vstd::string::*;

verus! {

/// What the user wrote: for each field the string given for it, if the
/// field was mentioned, and the files to edit, in their order.
#[derive(Clone, Debug, Default, PartialEq, Eq)]
pub struct RawArgs {
    pub artist: Option<String>,
    pub title: Option<String>,
    pub album: Option<String>,
    pub genre: Option<String>,
    pub category: Option<String>,
    pub description: Option<String>,
    pub media_type: Option<String>,
    pub artwork: Option<String>,
    pub bpm: Option<String>,
    pub track: Option<String>,
    pub disc: Option<String>,
    pub copyright: Option<String>,
    pub isrc: Option<String>,
    pub show: Option<String>,
    pub work: Option<String>,
    pub year: Option<String>,
    pub files: Vec<String>,
}

impl RawArgs {
    /// Whether no field was mentioned.
    pub open spec fn mentions_nothing(self) -> bool {
        &&& self.artist is None
        &&& self.title is None
        &&& self.album is None
        &&& self.genre is None
        &&& self.category is None
        &&& self.description is None
        &&& self.media_type is None
        &&& self.artwork is None
        &&& self.bpm is None
        &&& self.track is None
        &&& self.disc is None
        &&& self.copyright is None
        &&& self.isrc is None
        &&& self.show is None
        &&& self.work is None
        &&& self.year is None
    }

    /// What was written for `field`, if it was mentioned.
    pub open spec fn written(self, field: Field) -> Option<Seq<char>> {
        match field {
            Field::Artist => self.artist.deep_view(),
            Field::Title => self.title.deep_view(),
            Field::Album => self.album.deep_view(),
            Field::Genre => self.genre.deep_view(),
            Field::Category => self.category.deep_view(),
            Field::Description => self.description.deep_view(),
            Field::MediaType => self.media_type.deep_view(),
            Field::Artwork => self.artwork.deep_view(),
            Field::Bpm => self.bpm.deep_view(),
            Field::Track => self.track.deep_view(),
            Field::Disc => self.disc.deep_view(),
            Field::Copyright => self.copyright.deep_view(),
            Field::Isrc => self.isrc.deep_view(),
            Field::Show => self.show.deep_view(),
            Field::Work => self.work.deep_view(),
            Field::Year => self.year.deep_view(),
        }
    }

    /// Whether a new artwork is asked for, so that the extension of the
    /// artwork path matters.
    pub open spec fn names_artwork(self) -> bool {
        self.artwork matches Some(path) && path@.len() > 0
    }
}

/// What is to happen to each field but the artwork.
#[derive(Clone, Debug, PartialEq, Eq)]
pub struct Edits {
    pub artists: FieldValue<Vec<String>>,
    pub title: FieldValue<String>,
    pub album: FieldValue<String>,
    pub genres: FieldValue<Vec<String>>,
    pub categories: FieldValue<Vec<String>>,
    pub description: FieldValue<String>,
    pub media_type: FieldValue<MediaKind>,
    pub bpm: FieldValue<u16>,
    pub track: FieldValue<(u16, u16)>,
    pub disc: FieldValue<(u16, u16)>,
    pub copyright: FieldValue<String>,
    pub isrc: FieldValue<String>,
    pub show: FieldValue<String>,
    pub work: FieldValue<String>,
    pub year: FieldValue<u16>,
}

/// [`Edits`] as plain values.
pub struct EditsView {
    pub artists: FieldValue<Seq<Seq<char>>>,
    pub title: FieldValue<Seq<char>>,
    pub album: FieldValue<Seq<char>>,
    pub genres: FieldValue<Seq<Seq<char>>>,
    pub categories: FieldValue<Seq<Seq<char>>>,
    pub description: FieldValue<Seq<char>>,
    pub media_type: FieldValue<MediaKind>,
    pub bpm: FieldValue<u16>,
    pub track: FieldValue<(u16, u16)>,
    pub disc: FieldValue<(u16, u16)>,
    pub copyright: FieldValue<Seq<char>>,
    pub isrc: FieldValue<Seq<char>>,
    pub show: FieldValue<Seq<char>>,
    pub work: FieldValue<Seq<char>>,
    pub year: FieldValue<u16>,
}

impl DeepView for Edits {
    type V = EditsView;

    open spec fn deep_view(&self) -> EditsView {
        EditsView {
            artists: self.artists.deep_view(),
            title: self.title.deep_view(),
            album: self.album.deep_view(),
            genres: self.genres.deep_view(),
            categories: self.categories.deep_view(),
            description: self.description.deep_view(),
            media_type: self.media_type.deep_view(),
            bpm: self.bpm.deep_view(),
            track: self.track.deep_view(),
            disc: self.disc.deep_view(),
            copyright: self.copyright.deep_view(),
            isrc: self.isrc.deep_view(),
            show: self.show.deep_view(),
            work: self.work.deep_view(),
            year: self.year.deep_view(),
        }
    }
}

impl EditsView {
    /// Whether every number stands with a total that it is not above.
    pub open spec fn pairs_in_order(self) -> bool {
        &&& self.track matches FieldValue::Put(pair) ==> pair.0 <= pair.1
        &&& self.disc matches FieldValue::Put(pair) ==> pair.0 <= pair.1
    }
}

/// A draft as plain values: the edits, the artwork as the path of an image
/// file with the format that the path promises, and the files.
pub struct DraftView {
    pub edits: EditsView,
    pub artwork: FieldValue<(Seq<char>, ImageFormat)>,
    pub files: Seq<Seq<char>>,
}

/// A plan as plain values: the edits, the artwork as an image, and the
/// files.
pub struct PlanView {
    pub edits: EditsView,
    pub artwork: FieldValue<(ImageFormat, Seq<u8>)>,
    pub files: Seq<Seq<char>>,
}

/// What the user asked for, resolved and found well formed; the image of a
/// new artwork is still to be read.
#[derive(Clone, Debug, PartialEq, Eq)]
pub struct Draft {
    edits: Edits,
    artwork: FieldValue<ArtworkSource>,
    files: Vec<String>,
}

/// What is to be done to every file of an invocation.
#[derive(Clone, Debug, PartialEq, Eq)]
pub struct Plan {
    edits: Edits,
    artwork: FieldValue<Image>,
    files: Vec<String>,
}

/// The draft that `raw` resolves into, or the first thing wrong with it,
/// given the extension of the artwork path. The fields are looked at in a
/// fixed order, the artwork last.
pub open spec fn resolved(raw: RawArgs, extension: Option<Seq<char>>) -> Result<
    DraftView,
    ConfigError,
> {
    if raw.mentions_nothing() {
        Err(ConfigError::NothingToDo)
    } else {
        match resolved_list(raw.artist.deep_view(), Field::Artist) {
            Err(error) => Err(error),
            Ok(artists) => match resolved_list(raw.genre.deep_view(), Field::Genre) {
                Err(error) => Err(error),
                Ok(genres) => match resolved_list(raw.category.deep_view(), Field::Category) {
                    Err(error) => Err(error),
                    Ok(categories) => match resolved_media_type(raw.media_type.deep_view()) {
                        Err(error) => Err(error),
                        Ok(media_type) => match resolved_number(raw.bpm.deep_view(), Field::Bpm) {
                            Err(error) => Err(error),
                            Ok(bpm) => match resolved_pair(raw.track.deep_view(), Field::Track) {
                                Err(error) => Err(error),
                                Ok(track) => match resolved_pair(
                                    raw.disc.deep_view(),
                                    Field::Disc,
                                ) {
                                    Err(error) => Err(error),
                                    Ok(disc) => match resolved_number(
                                        raw.year.deep_view(),
                                        Field::Year,
                                    ) {
                                        Err(error) => Err(error),
                                        Ok(year) => match resolved_artwork(
                                            raw.artwork.deep_view(),
                                            extension,
                                        ) {
                                            Err(error) => Err(error),
                                            Ok(artwork) => Ok(
                                                DraftView {
                                                    edits: EditsView {
                                                        artists,
                                                        title: resolved_text(
                                                            raw.title.deep_view(),
                                                        ),
                                                        album: resolved_text(
                                                            raw.album.deep_view(),
                                                        ),
                                                        genres,
                                                        categories,
                                                        description: resolved_text(
                                                            raw.description.deep_view(),
                                                        ),
                                                        media_type,
                                                        bpm,
                                                        track,
                                                        disc,
                                                        copyright: resolved_text(
                                                            raw.copyright.deep_view(),
                                                        ),
                                                        isrc: resolved_text(raw.isrc.deep_view()),
                                                        show: resolved_text(raw.show.deep_view()),
                                                        work: resolved_text(raw.work.deep_view()),
                                                        year,
                                                    },
                                                    artwork,
                                                    files: raw.files.deep_view(),
                                                },
                                            ),
                                        },
                                    },
                                },
                            },
                        },
                    },
                },
            },
        }
    }
}

/// Whether `outcome` is what `expected` says, as plain values.
pub open spec fn agrees(
    outcome: Result<Draft, ConfigError>,
    expected: Result<DraftView, ConfigError>,
) -> bool {
    match outcome {
        Ok(draft) => expected == Ok::<DraftView, ConfigError>(draft.deep_view()),
        Err(error) => expected == Err::<DraftView, ConfigError>(error),
    }
}

impl DeepView for Draft {
    type V = DraftView;

    closed spec fn deep_view(&self) -> DraftView {
        DraftView {
            edits: self.edits.deep_view(),
            artwork: self.artwork.deep_view(),
            files: self.files.deep_view(),
        }
    }
}

impl Draft {
    /// Resolves what the user wrote, given the extension of the artwork
    /// path. The extension is looked at only where a new artwork is asked
    /// for.
    pub fn resolve_with(raw: RawArgs, extension: &Option<String>) -> (r: Result<Draft, ConfigError>)
        ensures
            agrees(r, resolved(raw, extension.deep_view())),
    {
        if raw.artist.is_none() && raw.title.is_none() && raw.album.is_none()
            && raw.genre.is_none() && raw.category.is_none() && raw.description.is_none()
            && raw.media_type.is_none() && raw.artwork.is_none() && raw.bpm.is_none()
            && raw.track.is_none() && raw.disc.is_none() && raw.copyright.is_none()
            && raw.isrc.is_none() && raw.show.is_none() && raw.work.is_none()
            && raw.year.is_none() {
            return Err(ConfigError::NothingToDo);
        }
        let artists = match resolve_list(&raw.artist, Field::Artist) {
            Ok(value) => value,
            Err(error) => {
                return Err(error);
            },
        };
        let genres = match resolve_list(&raw.genre, Field::Genre) {
            Ok(value) => value,
            Err(error) => {
                return Err(error);
            },
        };
        let categories = match resolve_list(&raw.category, Field::Category) {
            Ok(value) => value,
            Err(error) => {
                return Err(error);
            },
        };
        let media_type = match resolve_media_type(&raw.media_type) {
            Ok(value) => value,
            Err(error) => {
                return Err(error);
            },
        };
        let bpm = match resolve_number(&raw.bpm, Field::Bpm) {
            Ok(value) => value,
            Err(error) => {
                return Err(error);
            },
        };
        let track = match resolve_pair(&raw.track, Field::Track) {
            Ok(value) => value,
            Err(error) => {
                return Err(error);
            },
        };
        let disc = match resolve_pair(&raw.disc, Field::Disc) {
            Ok(value) => value,
            Err(error) => {
                return Err(error);
            },
        };
        let year = match resolve_number(&raw.year, Field::Year) {
            Ok(value) => value,
            Err(error) => {
                return Err(error);
            },
        };
        let artwork = match resolve_artwork(&raw.artwork, extension) {
            Ok(value) => value,
            Err(error) => {
                return Err(error);
            },
        };
        let edits = Edits {
            artists,
            title: resolve_text(&raw.title),
            album: resolve_text(&raw.album),
            genres,
            categories,
            description: resolve_text(&raw.description),
            media_type,
            bpm,
            track,
            disc,
            copyright: resolve_text(&raw.copyright),
            isrc: resolve_text(&raw.isrc),
            show: resolve_text(&raw.show),
            work: resolve_text(&raw.work),
            year,
        };
        Ok(Draft { edits, artwork, files: raw.files })
    }

    /// Resolves what the user wrote. Where a new artwork is asked for, the
    /// format of the image is told by the extension of its path. For a plain
    /// file name the result is fixed; for a path with directories the
    /// platform's rules for paths pick out the file name.
    pub fn resolve(raw: RawArgs) -> (r: Result<Draft, ConfigError>)
        ensures
            !raw.names_artwork() ==> agrees(r, resolved(raw, None)),
            raw.names_artwork() ==> exists|extension: Option<Seq<char>>|
                {
                    &&& extension matches Some(e) ==> stands_behind_dot(raw.artwork->0@, e)
                    &&& #[trigger] agrees(r, resolved(raw, extension))
                },
            raw.names_artwork() && !raw.artwork->0@.contains('.') ==> agrees(
                r,
                resolved(raw, None),
            ),
            raw.names_artwork() && is_plain_name(raw.artwork->0@) ==> agrees(
                r,
                resolved(raw, plain_extension(raw.artwork->0@)),
            ),
    {
        let extension = match &raw.artwork {
            Some(path) => if path.as_str().unicode_len() == 0 {
                None
            } else {
                path_extension(path.as_str())
            },
            None => None,
        };
        let ghost shown = extension.deep_view();
        let r = Draft::resolve_with(raw, &extension);
        proof {
            if raw.names_artwork() {
                assert(agrees(r, resolved(raw, shown)));
                if let Some(e) = shown {
                    lemma_extension_needs_dot(raw.artwork->0@, e);
                }
            }
        }
        r
    }

    /// What is to happen to each field but the artwork.
    pub fn edits(&self) -> (r: &Edits)
        ensures
            r.deep_view() == self.deep_view().edits,
    {
        &self.edits
    }

    /// What is to happen to the artwork.
    pub fn artwork(&self) -> (r: &FieldValue<ArtworkSource>)
        ensures
            r.deep_view() == self.deep_view().artwork,
    {
        &self.artwork
    }

    /// The files to edit, in their order.
    pub fn files(&self) -> (r: &Vec<String>)
        ensures
            r.deep_view() == self.deep_view().files,
    {
        &self.files
    }

    /// The path of the image file that is to be read, where a new artwork
    /// is asked for.
    pub fn artwork_path(&self) -> (r: Option<&String>)
        ensures
            match self.deep_view().artwork {
                FieldValue::Put(source) => r matches Some(path) && path@ == source.0,
                _ => r is None,
            },
    {
        match &self.artwork {
            FieldValue::Put(source) => Some(&source.path),
            _ => None,
        }
    }

    /// Makes the plan. `data` is what the image file of the new artwork
    /// holds; it is left aside where no new artwork is asked for.
    pub fn into_plan(self, data: Vec<u8>) -> (plan: Plan)
        ensures
            plan.deep_view() == self.deep_view().loaded(data@),
    {
        let artwork = match self.artwork {
            FieldValue::Absent => FieldValue::Absent,
            FieldValue::Clear => FieldValue::Clear,
            FieldValue::Put(source) => FieldValue::Put(Image { format: source.format, data }),
        };
        Plan { edits: self.edits, artwork, files: self.files }
    }
}

impl DraftView {
    /// The plan that the draft becomes once the image file of a new artwork
    /// was read and held `data`.
    pub open spec fn loaded(self, data: Seq<u8>) -> PlanView {
        PlanView {
            edits: self.edits,
            artwork: match self.artwork {
                FieldValue::Absent => FieldValue::Absent,
                FieldValue::Clear => FieldValue::Clear,
                FieldValue::Put(source) => FieldValue::Put((source.1, data)),
            },
            files: self.files,
        }
    }
}

impl PlanView {
    /// What the plan does to `field`, as the values that go into a tag.
    pub open spec fn entry(self, field: Field) -> FieldValue<Seq<Datum>> {
        match field {
            Field::Artist => list_edit(self.edits.artists),
            Field::Title => text_edit(self.edits.title),
            Field::Album => text_edit(self.edits.album),
            Field::Genre => list_edit(self.edits.genres),
            Field::Category => list_edit(self.edits.categories),
            Field::Description => text_edit(self.edits.description),
            Field::MediaType => kind_edit(self.edits.media_type),
            Field::Artwork => picture_edit(self.artwork),
            Field::Bpm => number_edit(self.edits.bpm),
            Field::Track => pair_edit(self.edits.track),
            Field::Disc => pair_edit(self.edits.disc),
            Field::Copyright => text_edit(self.edits.copyright),
            Field::Isrc => text_edit(self.edits.isrc),
            Field::Show => text_edit(self.edits.show),
            Field::Work => text_edit(self.edits.work),
            Field::Year => year_edit(self.edits.year),
        }
    }

    /// What a tag holds while the plan is being applied to it, once the
    /// fields in `done` were edited and no others.
    pub open spec fn partly_updated(
        self,
        held: Map<Store, Seq<Datum>>,
        done: Set<Field>,
    ) -> Map<Store, Seq<Datum>> {
        Map::new(
            |s: Store|
                if done.contains(owner(s)) {
                    self.updated(held).dom().contains(s)
                } else {
                    held.dom().contains(s)
                },
            |s: Store|
                if done.contains(owner(s)) {
                    self.updated(held)[s]
                } else {
                    held[s]
                },
        )
    }

    /// What a tag holds after the plan was applied to it, if it held `held`
    /// before: every store follows the edit of the field it is kept for.
    pub open spec fn updated(self, held: Map<Store, Seq<Datum>>) -> Map<Store, Seq<Datum>> {
        Map::new(
            |s: Store| edited(held, owner(s), self.entry(owner(s))).dom().contains(s),
            |s: Store| edited(held, owner(s), self.entry(owner(s)))[s],
        )
    }
}

impl DeepView for Plan {
    type V = PlanView;

    closed spec fn deep_view(&self) -> PlanView {
        PlanView {
            edits: self.edits.deep_view(),
            artwork: self.artwork.deep_view(),
            files: self.files.deep_view(),
        }
    }
}

impl Plan {
    /// What is to happen to each field but the artwork.
    pub fn edits(&self) -> (r: &Edits)
        ensures
            r.deep_view() == self.deep_view().edits,
    {
        &self.edits
    }

    /// What is to happen to the artwork.
    pub fn artwork(&self) -> (r: &FieldValue<Image>)
        ensures
            r.deep_view() == self.deep_view().artwork,
    {
        &self.artwork
    }

    /// The files to edit, in their order.
    pub fn files(&self) -> (r: &Vec<String>)
        ensures
            r.deep_view() == self.deep_view().files,
    {
        &self.files
    }

    /// Applies the plan to the tag of one file. Nothing here can fail: all
    /// that could be wrong was found when the plan was made.
    pub fn apply(&self, tag: &mut Tag)
        ensures
            contents(*final(tag)) == self.deep_view().updated(contents(*old(tag))),
    {
        let ghost plan = self.deep_view();
        let ghost held = contents(*tag);
        let ghost mut done: Set<Field> = Set::empty();
        assert(plan.partly_updated(held, done) =~= held);
        edit_artwork(tag, &self.artwork);
        proof {
            lemma_one_more_field(plan, held, done, Field::Artwork);
            done = done.insert(Field::Artwork);
        }
        edit_list(tag, Field::Artist, &self.edits.artists);
        proof {
            lemma_one_more_field(plan, held, done, Field::Artist);
            done = done.insert(Field::Artist);
        }
        edit_text(tag, Field::Title, &self.edits.title);
        proof {
            lemma_one_more_field(plan, held, done, Field::Title);
            done = done.insert(Field::Title);
        }
        edit_text(tag, Field::Album, &self.edits.album);
        proof {
            lemma_one_more_field(plan, held, done, Field::Album);
            done = done.insert(Field::Album);
        }
        edit_list(tag, Field::Genre, &self.edits.genres);
        proof {
            lemma_one_more_field(plan, held, done, Field::Genre);
            done = done.insert(Field::Genre);
        }
        edit_list(tag, Field::Category, &self.edits.categories);
        proof {
            lemma_one_more_field(plan, held, done, Field::Category);
            done = done.insert(Field::Category);
        }
        edit_text(tag, Field::Description, &self.edits.description);
        proof {
            lemma_one_more_field(plan, held, done, Field::Description);
            done = done.insert(Field::Description);
        }
        edit_media_type(tag, &self.edits.media_type);
        proof {
            lemma_one_more_field(plan, held, done, Field::MediaType);
            done = done.insert(Field::MediaType);
        }
        edit_bpm(tag, &self.edits.bpm);
        proof {
            lemma_one_more_field(plan, held, done, Field::Bpm);
            done = done.insert(Field::Bpm);
        }
        edit_pair(tag, Field::Track, &self.edits.track);
        proof {
            lemma_one_more_field(plan, held, done, Field::Track);
            done = done.insert(Field::Track);
        }
        edit_pair(tag, Field::Disc, &self.edits.disc);
        proof {
            lemma_one_more_field(plan, held, done, Field::Disc);
            done = done.insert(Field::Disc);
        }
        edit_text(tag, Field::Copyright, &self.edits.copyright);
        proof {
            lemma_one_more_field(plan, held, done, Field::Copyright);
            done = done.insert(Field::Copyright);
        }
        edit_text(tag, Field::Isrc, &self.edits.isrc);
        proof {
            lemma_one_more_field(plan, held, done, Field::Isrc);
            done = done.insert(Field::Isrc);
        }
        edit_text(tag, Field::Show, &self.edits.show);
        proof {
            lemma_one_more_field(plan, held, done, Field::Show);
            done = done.insert(Field::Show);
        }
        edit_text(tag, Field::Work, &self.edits.work);
        proof {
            lemma_one_more_field(plan, held, done, Field::Work);
            done = done.insert(Field::Work);
        }
        edit_year(tag, &self.edits.year);
        proof {
            lemma_one_more_field(plan, held, done, Field::Year);
            done = done.insert(Field::Year);
            assert forall|field: Field| done.contains(field) by {}
            lemma_all_fields_done(plan, held, done);
        }
    }
}

/// Editing one more field takes a tag, in which the fields in `done` were
/// edited, to one in which that field was edited too.
proof fn lemma_one_more_field(
    plan: PlanView,
    held: Map<Store, Seq<Datum>>,
    done: Set<Field>,
    field: Field,
)
    requires
        !done.contains(field),
    ensures
        edited(plan.partly_updated(held, done), field, plan.entry(field)) == plan.partly_updated(
            held,
            done.insert(field),
        ),
{
    assert(edited(plan.partly_updated(held, done), field, plan.entry(field))
        =~= plan.partly_updated(held, done.insert(field)));
}

/// Once every field was edited, the tag holds what the plan makes of it.
proof fn lemma_all_fields_done(plan: PlanView, held: Map<Store, Seq<Datum>>, done: Set<Field>)
    requires
        forall|field: Field| done.contains(field),
    ensures
        plan.partly_updated(held, done) == plan.updated(held),
{
    assert(plan.partly_updated(held, done) =~= plan.updated(held));
}

/// A field that the plan does not mention keeps what the tag held for it:
/// each store of its group has the entry it had, or none as before.
pub proof fn lemma_absent_keeps(
    plan: PlanView,
    held: Map<Store, Seq<Datum>>,
    field: Field,
    s: Store,
)
    requires
        plan.entry(field) is Absent,
        owner(s) == field,
    ensures
        plan.updated(held).dom().contains(s) == held.dom().contains(s),
        held.dom().contains(s) ==> plan.updated(held)[s] == held[s],
{
}

/// A field that the plan clears is gone from every store of its group,
/// whatever the tag held for it, and also where it held nothing.
pub proof fn lemma_clear_removes(
    plan: PlanView,
    held: Map<Store, Seq<Datum>>,
    field: Field,
    s: Store,
)
    requires
        plan.entry(field) is Clear,
        owner(s) == field,
    ensures
        !plan.updated(held).dom().contains(s),
{
}

/// A field that the plan gives a value holds that value and nothing of
/// what the tag held for it: the value stands in every store of the
/// field's group, but for the standard genre store, which is emptied.
pub proof fn lemma_put_overwrites(
    plan: PlanView,
    held: Map<Store, Seq<Datum>>,
    field: Field,
    s: Store,
)
    requires
        plan.entry(field) is Put,
        owner(s) == field,
    ensures
        s != Store::StandardGenre ==> plan.updated(held).dom().contains(s) && plan.updated(
            held,
        )[s] == plan.entry(field)->Put_0,
        s == Store::StandardGenre ==> !plan.updated(held).dom().contains(s),
{
}

/// What a plan makes of a tag does not depend on what the tag held for the
/// fields that the plan clears or gives a value.
pub proof fn lemma_prior_state_discarded(
    plan: PlanView,
    one: Map<Store, Seq<Datum>>,
    other: Map<Store, Seq<Datum>>,
    s: Store,
)
    requires
        !(plan.entry(owner(s)) is Absent),
    ensures
        plan.updated(one).dom().contains(s) == plan.updated(other).dom().contains(s),
        plan.updated(one).dom().contains(s) ==> plan.updated(one)[s] == plan.updated(other)[s],
{
}

/// Applying a plan a second time changes nothing.
pub proof fn lemma_apply_twice(plan: PlanView, held: Map<Store, Seq<Datum>>)
    ensures
        plan.updated(plan.updated(held)) == plan.updated(held),
{
    assert(plan.updated(plan.updated(held)) =~= plan.updated(held));
}

/// Each field of a plan is in the one state that follows from what was
/// written for it: left alone where it was not mentioned, cleared where
/// the empty string was written, and given a value otherwise.
pub proof fn lemma_one_state_per_field(
    raw: RawArgs,
    extension: Option<Seq<char>>,
    data: Seq<u8>,
    field: Field,
)
    requires
        resolved(raw, extension) is Ok,
    ensures
        ({
            let plan = resolved(raw, extension)->Ok_0.loaded(data);
            match raw.written(field) {
                None => plan.entry(field) is Absent,
                Some(s) => if s.len() == 0 {
                    plan.entry(field) is Clear
                } else {
                    plan.entry(field) is Put
                },
            }
        }),
{
}

/// A draft that was resolved mentions a field and holds no number above
/// its total.
pub proof fn lemma_resolved_is_well_formed(raw: RawArgs, extension: Option<Seq<char>>)
    requires
        resolved(raw, extension) is Ok,
    ensures
        !raw.mentions_nothing(),
        resolved(raw, extension)->Ok_0.edits.pairs_in_order(),
        resolved(raw, extension)->Ok_0.files == raw.files.deep_view(),
{
}

} // verus!
