use mp4ameta::{Data, Img, ImgFmt, MediaType, Tag};
use mtag::clear::Clear;
use mtag::field::Field;
use mtag::mutate::clear_field;
use mtag::plan::{Draft, Plan, RawArgs};

fn some(s: &str) -> Option<String> {
    Some(s.to_string())
}

fn plan_of(raw: RawArgs) -> Plan {
    Draft::resolve(raw).unwrap().into_plan(Vec::new())
}

fn plan_with_image(raw: RawArgs, data: &[u8]) -> Plan {
    Draft::resolve(raw).unwrap().into_plan(data.to_vec())
}

fn all_of<'a>(values: impl Iterator<Item = &'a str>) -> Vec<String> {
    values.map(String::from).collect()
}

fn full_tag() -> Tag {
    let mut tag = Tag::default();
    tag.set_artists(vec!["carol".to_string(), "dave".to_string()]);
    tag.set_album_artists(vec!["erin".to_string()]);
    tag.set_composers(vec!["frank".to_string()]);
    tag.set_title("Old Title");
    tag.set_album("Old Album");
    tag.set_custom_genres(vec!["Shoegaze".to_string()]);
    tag.set_standard_genres(vec![9u16, 18u16]);
    tag.set_categories(vec!["Old Category".to_string()]);
    tag.set_descriptions(vec!["first".to_string(), "second".to_string()]);
    tag.set_media_type(MediaType::Movie);
    tag.set_artworks(vec![Img::new(ImgFmt::Bmp, vec![1u8, 2]), Img::new(ImgFmt::Png, vec![3u8])]);
    tag.set_bpm(60);
    tag.set_track(4, 9);
    tag.set_disc(1, 2);
    tag.set_copyright("Old Copyright");
    tag.set_isrc("OLD-ISRC");
    tag.set_tv_show_name("Old Show");
    tag.set_work("Old Work");
    tag.set_year("1984");
    tag.set_lyrics("la la la");
    tag.set_comments(vec!["a comment".to_string()]);
    tag
}

#[test]
fn unmentioned_fields_stay() {
    let before = full_tag();
    let mut tag = before.clone();
    plan_of(RawArgs { title: some("New Title"), ..RawArgs::default() }).apply(&mut tag);
    assert_eq!(tag.title(), Some("New Title"));
    let mut expected = before.clone();
    expected.set_title("New Title");
    assert_eq!(tag, expected);
    assert_eq!(all_of(tag.artists()), vec!["carol", "dave"]);
    assert_eq!(all_of(tag.album_artists()), vec!["erin"]);
    assert_eq!(all_of(tag.composers()), vec!["frank"]);
    assert_eq!(tag.album(), Some("Old Album"));
    assert_eq!(all_of(tag.custom_genres()), vec!["Shoegaze"]);
    assert_eq!(tag.standard_genres().collect::<Vec<u16>>(), vec![9, 18]);
    assert_eq!(all_of(tag.categories()), vec!["Old Category"]);
    assert_eq!(all_of(tag.descriptions()), vec!["first", "second"]);
    assert_eq!(tag.media_type(), Some(MediaType::Movie));
    assert_eq!(tag.artworks().count(), 2);
    assert_eq!(tag.bpm(), Some(60));
    assert_eq!(tag.track(), (Some(4), Some(9)));
    assert_eq!(tag.disc(), (Some(1), Some(2)));
    assert_eq!(tag.copyright(), Some("Old Copyright"));
    assert_eq!(tag.isrc(), Some("OLD-ISRC"));
    assert_eq!(tag.tv_show_name(), Some("Old Show"));
    assert_eq!(tag.work(), Some("Old Work"));
    assert_eq!(tag.year(), Some("1984"));
    assert_eq!(tag.lyrics(), Some("la la la"));
    assert_eq!(all_of(tag.comments()), vec!["a comment"]);
}

#[test]
fn each_field_alone_leaves_the_others() {
    let raws = vec![
        RawArgs { artist: some("x"), ..RawArgs::default() },
        RawArgs { album: some("x"), ..RawArgs::default() },
        RawArgs { genre: some("x"), ..RawArgs::default() },
        RawArgs { category: some("x"), ..RawArgs::default() },
        RawArgs { description: some("x"), ..RawArgs::default() },
        RawArgs { media_type: some("booklet"), ..RawArgs::default() },
        RawArgs { artwork: some("x.png"), ..RawArgs::default() },
        RawArgs { bpm: some("1"), ..RawArgs::default() },
        RawArgs { track: some("1/2"), ..RawArgs::default() },
        RawArgs { disc: some("1/2"), ..RawArgs::default() },
        RawArgs { copyright: some("x"), ..RawArgs::default() },
        RawArgs { isrc: some("x"), ..RawArgs::default() },
        RawArgs { show: some("x"), ..RawArgs::default() },
        RawArgs { work: some("x"), ..RawArgs::default() },
        RawArgs { year: some("1"), ..RawArgs::default() },
        RawArgs { artist: some(""), genre: some(""), artwork: some(""), ..RawArgs::default() },
    ];
    for raw in raws {
        let mut tag = full_tag();
        plan_with_image(raw, &[7u8]).apply(&mut tag);
        assert_eq!(tag.title(), Some("Old Title"));
        assert_eq!(tag.lyrics(), Some("la la la"));
        assert_eq!(all_of(tag.comments()), vec!["a comment"]);
    }
}

#[test]
fn cleared_fields_are_gone() {
    let raw = RawArgs {
        artist: some(""),
        title: some(""),
        album: some(""),
        genre: some(""),
        category: some(""),
        description: some(""),
        media_type: some(""),
        artwork: some(""),
        bpm: some(""),
        track: some(""),
        disc: some(""),
        copyright: some(""),
        isrc: some(""),
        show: some(""),
        work: some(""),
        year: some(""),
        ..RawArgs::default()
    };
    let plan = plan_of(raw);
    let mut tag = full_tag();
    plan.apply(&mut tag);
    assert_eq!(tag.artists().count(), 0);
    assert_eq!(tag.album_artists().count(), 0);
    assert_eq!(tag.composers().count(), 0);
    assert_eq!(tag.title(), None);
    assert_eq!(tag.album(), None);
    assert_eq!(tag.custom_genres().count(), 0);
    assert_eq!(tag.standard_genres().count(), 0);
    assert_eq!(tag.genres().count(), 0);
    assert_eq!(tag.categories().count(), 0);
    assert_eq!(tag.descriptions().count(), 0);
    assert_eq!(tag.media_type(), None);
    assert_eq!(tag.artworks().count(), 0);
    assert_eq!(tag.bpm(), None);
    assert_eq!(tag.track(), (None, None));
    assert_eq!(tag.disc(), (None, None));
    assert_eq!(tag.copyright(), None);
    assert_eq!(tag.isrc(), None);
    assert_eq!(tag.tv_show_name(), None);
    assert_eq!(tag.work(), None);
    assert_eq!(tag.year(), None);
    assert_eq!(tag.lyrics(), Some("la la la"));
    assert_eq!(all_of(tag.comments()), vec!["a comment"]);
    assert_eq!(tag.data().count(), 2);

    let mut empty = Tag::default();
    plan.apply(&mut empty);
    assert!(empty.is_empty());
    assert_eq!(empty, Tag::default());
}

#[test]
fn given_values_take_the_place_of_old_ones() {
    let raw = RawArgs {
        artist: some("alice,bob"),
        title: some("New Title"),
        album: some("New Album"),
        genre: some("Rock,Dream Pop"),
        category: some("one,two,three"),
        description: some("New Description"),
        media_type: some("audiobook"),
        artwork: some("cover.jpeg"),
        bpm: some("128"),
        track: some("2/3"),
        disc: some("1/1"),
        copyright: some("New Copyright"),
        isrc: some("NEW-ISRC"),
        show: some("New Show"),
        work: some("New Work"),
        year: some("2021"),
        ..RawArgs::default()
    };
    let plan = plan_with_image(raw, &[0xff, 0xd8, 0xff]);
    for start in [full_tag(), Tag::default()] {
        let mut tag = start;
        plan.apply(&mut tag);
        assert_eq!(all_of(tag.artists()), vec!["alice", "bob"]);
        assert_eq!(all_of(tag.album_artists()), vec!["alice", "bob"]);
        assert_eq!(all_of(tag.composers()), vec!["alice", "bob"]);
        assert_eq!(tag.title(), Some("New Title"));
        assert_eq!(tag.strings_of(&mp4ameta::ident::TITLE).count(), 1);
        assert_eq!(tag.album(), Some("New Album"));
        assert_eq!(all_of(tag.custom_genres()), vec!["Rock", "Dream Pop"]);
        assert_eq!(tag.standard_genres().count(), 0);
        assert_eq!(all_of(tag.genres()), vec!["Rock", "Dream Pop"]);
        assert_eq!(all_of(tag.categories()), vec!["one", "two", "three"]);
        assert_eq!(all_of(tag.descriptions()), vec!["New Description"]);
        assert_eq!(tag.media_type(), Some(MediaType::AudioBook));
        let artworks: Vec<Img<&[u8]>> = tag.artworks().collect();
        assert_eq!(artworks.len(), 1);
        assert_eq!(artworks[0].fmt, ImgFmt::Jpeg);
        assert_eq!(artworks[0].data, &[0xffu8, 0xd8, 0xff][..]);
        assert_eq!(tag.bpm(), Some(128));
        assert_eq!(tag.track(), (Some(2), Some(3)));
        assert_eq!(tag.disc(), (Some(1), Some(1)));
        assert_eq!(tag.copyright(), Some("New Copyright"));
        assert_eq!(tag.isrc(), Some("NEW-ISRC"));
        assert_eq!(tag.tv_show_name(), Some("New Show"));
        assert_eq!(tag.work(), Some("New Work"));
        assert_eq!(tag.year(), Some("2021"));
    }
}

#[test]
fn artists_go_to_album_artists_and_composers() {
    let mut tag = Tag::default();
    tag.set_artist("carol");
    plan_of(RawArgs { artist: some("alice,bob"), ..RawArgs::default() }).apply(&mut tag);
    assert_eq!(all_of(tag.artists()), vec!["alice", "bob"]);
    assert_eq!(all_of(tag.album_artists()), vec!["alice", "bob"]);
    assert_eq!(all_of(tag.composers()), vec!["alice", "bob"]);
}

#[test]
fn clearing_the_genre_empties_both_stores() {
    let mut tag = Tag::default();
    tag.set_standard_genre(18);
    tag.add_custom_genre("Shoegaze");
    tag.add_custom_genre("Noise Pop");
    assert_eq!(tag.genres().count(), 3);
    plan_of(RawArgs { genre: some(""), ..RawArgs::default() }).apply(&mut tag);
    assert_eq!(tag.standard_genres().count(), 0);
    assert_eq!(tag.custom_genres().count(), 0);
    assert_eq!(tag.genres().count(), 0);
    assert!(tag.is_empty());
}

#[test]
fn clearing_the_artist_empties_the_whole_group() {
    let mut tag = full_tag();
    plan_of(RawArgs { artist: some(""), ..RawArgs::default() }).apply(&mut tag);
    assert_eq!(tag.artists().count(), 0);
    assert_eq!(tag.album_artists().count(), 0);
    assert_eq!(tag.composers().count(), 0);
    assert_eq!(tag.title(), Some("Old Title"));
}

#[test]
fn every_media_type_is_written() {
    let kinds = [
        ("movie", MediaType::Movie),
        ("normal", MediaType::Normal),
        ("audiobook", MediaType::AudioBook),
        ("music-video", MediaType::MusicVideo),
        ("short-film", MediaType::ShortFilm),
        ("tv-show", MediaType::TvShow),
        ("booklet", MediaType::Booklet),
    ];
    for (name, kind) in kinds {
        let mut tag = Tag::default();
        tag.set_media_type(MediaType::WhackedBookmark);
        plan_of(RawArgs { media_type: some(name), ..RawArgs::default() }).apply(&mut tag);
        assert_eq!(tag.media_type(), Some(kind));
    }
}

#[test]
fn every_image_format_is_written() {
    let formats = [
        ("c.png", ImgFmt::Png),
        ("c.bmp", ImgFmt::Bmp),
        ("c.jpg", ImgFmt::Jpeg),
        ("c.jpeg", ImgFmt::Jpeg),
    ];
    for (path, format) in formats {
        let mut tag = Tag::default();
        plan_with_image(RawArgs { artwork: some(path), ..RawArgs::default() }, &[1, 2, 3])
            .apply(&mut tag);
        let artwork = tag.artwork().unwrap();
        assert_eq!(artwork.fmt, format);
        assert_eq!(artwork.data, &[1u8, 2, 3][..]);
    }
}

#[test]
fn image_bytes_are_left_aside_without_new_artwork() {
    let before = full_tag();
    let mut tag = before.clone();
    plan_with_image(RawArgs { title: some("Old Title"), ..RawArgs::default() }, &[9, 9, 9])
        .apply(&mut tag);
    assert_eq!(tag.artworks().count(), 2);
    let mut expected = before.clone();
    expected.set_title("Old Title");
    assert_eq!(tag, expected);
}

#[test]
fn a_track_of_zero_reads_as_none() {
    let mut tag = full_tag();
    plan_of(RawArgs { track: some("0/0"), disc: some("0/5"), ..RawArgs::default() })
        .apply(&mut tag);
    assert_eq!(tag.track(), (None, None));
    assert_eq!(tag.disc(), (None, Some(5)));
}

#[test]
fn a_track_is_written_over_odd_data() {
    let mut tag = Tag::default();
    tag.set_data(mp4ameta::ident::TRACK_NUMBER, Data::Utf8("not bytes".to_string()));
    tag.set_data(mp4ameta::ident::DISC_NUMBER, Data::Reserved(vec![1u8]));
    plan_of(RawArgs { track: some("2/3"), disc: some("4/5"), ..RawArgs::default() })
        .apply(&mut tag);
    assert_eq!(tag.track(), (Some(2), Some(3)));
    assert_eq!(tag.disc(), (Some(4), Some(5)));
}

#[test]
fn year_is_written_in_plain_digits() {
    let mut tag = Tag::default();
    plan_of(RawArgs { year: some("+02021"), ..RawArgs::default() }).apply(&mut tag);
    assert_eq!(tag.year(), Some("2021"));
    plan_of(RawArgs { year: some("0"), ..RawArgs::default() }).apply(&mut tag);
    assert_eq!(tag.year(), Some("0"));
}

#[test]
fn applying_a_plan_twice_is_applying_it_once() {
    let plan = plan_with_image(
        RawArgs {
            artist: some("alice"),
            genre: some(""),
            track: some("1/2"),
            artwork: some("c.png"),
            ..RawArgs::default()
        },
        &[5u8; 4],
    );
    let mut once = full_tag();
    plan.apply(&mut once);
    let mut twice = once.clone();
    plan.apply(&mut twice);
    assert_eq!(once, twice);
}

#[test]
fn one_plan_serves_every_file() {
    let plan = plan_of(RawArgs { title: some("Same"), bpm: some(""), ..RawArgs::default() });
    let copy = plan.clone();
    let mut first = full_tag();
    let mut second = Tag::default();
    plan.apply(&mut first);
    plan.apply(&mut second);
    assert_eq!(plan, copy);
    assert_eq!(first.title(), Some("Same"));
    assert_eq!(second.title(), Some("Same"));
    assert_eq!(first.bpm(), None);
    assert_eq!(second.bpm(), None);
    assert_eq!(first.album(), Some("Old Album"));
    assert_eq!(second.album(), None);
}

#[test]
fn plan_keeps_edits_artwork_and_files() {
    let raw = RawArgs {
        title: some("t"),
        artwork: some("c.bmp"),
        files: vec!["x.m4a".to_string(), "x.m4a".to_string(), "y.m4a".to_string()],
        ..RawArgs::default()
    };
    let draft = Draft::resolve(raw).unwrap();
    let edits = draft.edits().clone();
    let plan = draft.into_plan(vec![4, 2]);
    assert_eq!(plan.edits(), &edits);
    assert_eq!(
        plan.artwork(),
        &mtag::field::FieldValue::Put(mtag::image::Image {
            format: mtag::image::ImageFormat::Bmp,
            data: vec![4, 2]
        })
    );
    assert_eq!(plan.files(), &vec!["x.m4a".to_string(), "x.m4a".to_string(), "y.m4a".to_string()]);
}

#[test]
fn clear_field_empties_each_group() {
    let fields = [
        Field::Artist,
        Field::Title,
        Field::Album,
        Field::Genre,
        Field::Category,
        Field::Description,
        Field::MediaType,
        Field::Artwork,
        Field::Bpm,
        Field::Track,
        Field::Disc,
        Field::Copyright,
        Field::Isrc,
        Field::Show,
        Field::Work,
        Field::Year,
    ];
    let mut tag = full_tag();
    let mut left = tag.data().count();
    for field in fields {
        clear_field(&mut tag, field);
        let now = tag.data().count();
        assert!(now < left, "{:?} took nothing", field);
        left = now;
        let again = tag.clone();
        clear_field(&mut tag, field);
        assert_eq!(tag, again);
    }
    assert_eq!(tag.lyrics(), Some("la la la"));
    assert_eq!(all_of(tag.comments()), vec!["a comment"]);
    assert_eq!(left, 2);
}

#[test]
fn clearing_everything() {
    let mut tag = full_tag();
    let clearing = Clear::everything(vec!["a.m4a".to_string()]);
    assert_eq!(clearing.files(), &vec!["a.m4a".to_string()]);
    clearing.apply(&mut tag);
    assert!(tag.is_empty());
}

#[test]
fn clearing_everything_whatever_is_picked() {
    let mut tag = full_tag();
    Clear::new(Vec::new(), true, false, true, false, false, false, false, false).apply(&mut tag);
    assert!(tag.is_empty());
}

#[test]
fn picking_nothing_clears_everything() {
    let mut tag = full_tag();
    let clearing =
        Clear::picking(vec!["a.m4a".to_string()], false, false, false, false, false, false, false);
    assert_eq!(clearing, Clear::everything(vec!["a.m4a".to_string()]));
    clearing.apply(&mut tag);
    assert!(tag.is_empty());
}

#[test]
fn picking_a_field_clears_that_field_only() {
    let marks = [
        [true, false, false, false, false, false, false],
        [false, true, false, false, false, false, false],
        [false, false, true, false, false, false, false],
        [false, false, false, true, false, false, false],
        [false, false, false, false, true, false, false],
        [false, false, false, false, false, true, false],
        [false, false, false, false, false, false, true],
        [true, true, false, false, true, false, true],
    ];
    for m in marks {
        let picking = Clear::picking(Vec::new(), m[0], m[1], m[2], m[3], m[4], m[5], m[6]);
        let stated = Clear::new(Vec::new(), false, m[0], m[1], m[2], m[3], m[4], m[5], m[6]);
        assert_eq!(picking, stated);
        let mut tag = full_tag();
        picking.apply(&mut tag);
        assert_eq!(tag.title().is_none(), m[0]);
        assert_eq!(tag.album().is_none(), m[1]);
        assert_eq!(tag.genres().count() == 0, m[2]);
        assert_eq!(tag.categories().count() == 0, m[3]);
        assert_eq!(tag.descriptions().count() == 0, m[4]);
        assert_eq!(tag.media_type().is_none(), m[5]);
        assert_eq!(tag.artworks().count() == 0, m[6]);
        assert_eq!(tag.bpm(), Some(60));
        assert_eq!(tag.lyrics(), Some("la la la"));
    }
}

#[test]
fn clearing_nothing() {
    let before = full_tag();
    let mut tag = before.clone();
    Clear::new(Vec::new(), false, false, false, false, false, false, false, false).apply(&mut tag);
    assert_eq!(tag, before);
}

#[test]
fn clearing_the_fields_picked() {
    let mut tag = full_tag();
    Clear::new(Vec::new(), false, true, false, true, false, true, false, true).apply(&mut tag);
    assert_eq!(tag.title(), None);
    assert_eq!(tag.album(), Some("Old Album"));
    assert_eq!(tag.genres().count(), 0);
    assert_eq!(tag.standard_genres().count(), 0);
    assert_eq!(all_of(tag.categories()), vec!["Old Category"]);
    assert_eq!(tag.descriptions().count(), 0);
    assert_eq!(tag.media_type(), Some(MediaType::Movie));
    assert_eq!(tag.artworks().count(), 0);
    assert_eq!(all_of(tag.artists()), vec!["carol", "dave"]);
    assert_eq!(tag.bpm(), Some(60));

    let mut tag = full_tag();
    Clear::new(Vec::new(), false, false, true, false, true, false, true, false).apply(&mut tag);
    assert_eq!(tag.title(), Some("Old Title"));
    assert_eq!(tag.album(), None);
    assert_eq!(tag.genres().count(), 3);
    assert_eq!(tag.categories().count(), 0);
    assert_eq!(all_of(tag.descriptions()), vec!["first", "second"]);
    assert_eq!(tag.media_type(), None);
    assert_eq!(tag.artworks().count(), 2);
    assert_eq!(tag.year(), Some("1984"));
}
