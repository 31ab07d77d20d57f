//! Clearing fields without giving them new values.

use crate::field::{Field, FieldValue};
use crate::mutate::{clear_field, edited, owner};
use crate::tag;
use crate::tag::{contents, Datum, Store};
use mp4ameta::Tag;
use vstd::prelude::*;

verus! {

/// What is to be cleared from every file of an invocation: everything, or
/// the fields picked out of title, album, genre, category, description,
/// media type and artwork.
#[derive(Clone, Debug, PartialEq, Eq)]
pub struct Clear {
    files: Vec<String>,
    all: bool,
    title: bool,
    album: bool,
    genre: bool,
    category: bool,
    desc: bool,
    media_type: bool,
    artwork: bool,
}

/// [`Clear`] as plain values.
pub struct ClearView {
    pub files: Seq<Seq<char>>,
    pub all: bool,
    pub picked: Set<Field>,
}

impl ClearView {
    /// What a tag holds after the clearing, if it held `held` before:
    /// nothing where everything goes, and else what it held but for the
    /// stores of the fields picked.
    pub open spec fn cleared(self, held: Map<Store, Seq<Datum>>) -> Map<Store, Seq<Datum>> {
        if self.all {
            Map::empty()
        } else {
            without(held, self.picked)
        }
    }
}

/// The fields among the seven whose mark is set.
pub open spec fn picked_fields(
    title: bool,
    album: bool,
    genre: bool,
    category: bool,
    desc: bool,
    media_type: bool,
    artwork: bool,
) -> Set<Field> {
    Set::new(
        |field: Field|
            (field == Field::Title && title) || (field == Field::Album && album) || (field
                == Field::Genre && genre) || (field == Field::Category && category) || (field
                == Field::Description && desc) || (field == Field::MediaType && media_type) || (
            field == Field::Artwork && artwork),
    )
}

impl DeepView for Clear {
    type V = ClearView;

    closed spec fn deep_view(&self) -> ClearView {
        ClearView {
            files: self.files.deep_view(),
            all: self.all,
            picked: picked_fields(
                self.title,
                self.album,
                self.genre,
                self.category,
                self.desc,
                self.media_type,
                self.artwork,
            ),
        }
    }
}

impl Clear {
    /// A clearing of the fields whose mark is set, or of everything where
    /// `all` is set.
    pub fn new(
        files: Vec<String>,
        all: bool,
        title: bool,
        album: bool,
        genre: bool,
        category: bool,
        desc: bool,
        media_type: bool,
        artwork: bool,
    ) -> (r: Clear)
        ensures
            r.deep_view().files == files.deep_view(),
            r.deep_view().all == all,
            r.deep_view().picked == picked_fields(
                title,
                album,
                genre,
                category,
                desc,
                media_type,
                artwork,
            ),
    {
        Clear { files, all, title, album, genre, category, desc, media_type, artwork }
    }

    /// A clearing of the fields whose mark is set, or of everything where
    /// no mark is set.
    pub fn picking(
        files: Vec<String>,
        title: bool,
        album: bool,
        genre: bool,
        category: bool,
        desc: bool,
        media_type: bool,
        artwork: bool,
    ) -> (r: Clear)
        ensures
            r.deep_view().files == files.deep_view(),
            r.deep_view().all == !(title || album || genre || category || desc || media_type
                || artwork),
            r.deep_view().picked == picked_fields(
                title,
                album,
                genre,
                category,
                desc,
                media_type,
                artwork,
            ),
    {
        let all = !(title || album || genre || category || desc || media_type || artwork);
        Clear { files, all, title, album, genre, category, desc, media_type, artwork }
    }

    /// A clearing of everything.
    pub fn everything(files: Vec<String>) -> (r: Clear)
        ensures
            r.deep_view().files == files.deep_view(),
            r.deep_view().all,
    {
        Clear {
            files,
            all: true,
            title: false,
            album: false,
            genre: false,
            category: false,
            desc: false,
            media_type: false,
            artwork: false,
        }
    }

    /// The files to clear, in their order.
    pub fn files(&self) -> (r: &Vec<String>)
        ensures
            r.deep_view() == self.deep_view().files,
    {
        &self.files
    }

    /// Clears the tag of one file.
    pub fn apply(&self, tag: &mut Tag)
        ensures
            contents(*final(tag)) == self.deep_view().cleared(contents(*old(tag))),
    {
        if self.all {
            tag::clear(tag);
            assert(contents(*tag) =~= self.deep_view().cleared(contents(*old(tag))));
            return ;
        }
        let ghost held = contents(*tag);
        let ghost mut done: Set<Field> = Set::empty();
        assert(without(held, done) =~= held);
        if self.title {
            clear_field(tag, Field::Title);
            proof {
                lemma_one_more_cleared(held, done, Field::Title);
                done = done.insert(Field::Title);
            }
        }
        if self.album {
            clear_field(tag, Field::Album);
            proof {
                lemma_one_more_cleared(held, done, Field::Album);
                done = done.insert(Field::Album);
            }
        }
        if self.genre {
            clear_field(tag, Field::Genre);
            proof {
                lemma_one_more_cleared(held, done, Field::Genre);
                done = done.insert(Field::Genre);
            }
        }
        if self.category {
            clear_field(tag, Field::Category);
            proof {
                lemma_one_more_cleared(held, done, Field::Category);
                done = done.insert(Field::Category);
            }
        }
        if self.desc {
            clear_field(tag, Field::Description);
            proof {
                lemma_one_more_cleared(held, done, Field::Description);
                done = done.insert(Field::Description);
            }
        }
        if self.media_type {
            clear_field(tag, Field::MediaType);
            proof {
                lemma_one_more_cleared(held, done, Field::MediaType);
                done = done.insert(Field::MediaType);
            }
        }
        if self.artwork {
            clear_field(tag, Field::Artwork);
            proof {
                lemma_one_more_cleared(held, done, Field::Artwork);
                done = done.insert(Field::Artwork);
            }
        }
        assert(done =~= self.deep_view().picked);
        assert(contents(*tag) =~= self.deep_view().cleared(held));
    }
}

/// What a tag holds once the fields in `gone` were cleared from it.
pub open spec fn without(held: Map<Store, Seq<Datum>>, gone: Set<Field>) -> Map<
    Store,
    Seq<Datum>,
> {
    Map::new(|s: Store| held.dom().contains(s) && !gone.contains(owner(s)), |s: Store| held[s])
}

/// Clearing one more field takes a tag from which the fields in `gone`
/// were cleared to one from which that field was cleared too.
proof fn lemma_one_more_cleared(held: Map<Store, Seq<Datum>>, gone: Set<Field>, field: Field)
    ensures
        edited(without(held, gone), field, FieldValue::Clear) == without(held, gone.insert(field)),
{
    assert(edited(without(held, gone), field, FieldValue::Clear) =~= without(
        held,
        gone.insert(field),
    ));
}

/// A clearing takes nothing from a field that was not picked, unless
/// everything goes.
pub proof fn lemma_unpicked_stays(clearing: ClearView, held: Map<Store, Seq<Datum>>, s: Store)
    requires
        !clearing.all,
        !clearing.picked.contains(owner(s)),
    ensures
        clearing.cleared(held).dom().contains(s) == held.dom().contains(s),
        held.dom().contains(s) ==> clearing.cleared(held)[s] == held[s],
{
}

/// A clearing leaves nothing of a field that was picked, nor of any field
/// where everything goes.
pub proof fn lemma_picked_goes(clearing: ClearView, held: Map<Store, Seq<Datum>>, s: Store)
    requires
        clearing.all || clearing.picked.contains(owner(s)),
    ensures
        !clearing.cleared(held).dom().contains(s),
{
}

} // verus!
