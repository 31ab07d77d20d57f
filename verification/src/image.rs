//! Artwork images and the formats they come in.

use crate::field::ConfigError;
use crate::text::{ascii_lowered, same_text_ignoring_ascii_case};
use vstd::prelude::*;
use vstd::string::*;

verus! {

/// The encoding of an artwork image.
#[derive(Clone, Copy, Debug, PartialEq, Eq, Structural)]
pub enum ImageFormat {
    Png,
    Bmp,
    Jpeg,
}

/// An artwork image: its encoding and the bytes of the image file.
#[derive(Clone, Debug, PartialEq, Eq)]
pub struct Image {
    pub format: ImageFormat,
    pub data: Vec<u8>,
}

impl DeepView for Image {
    type V = (ImageFormat, Seq<u8>);

    open spec fn deep_view(&self) -> (ImageFormat, Seq<u8>) {
        (self.format, self.data@)
    }
}

/// Where an artwork image is to be read from, and the encoding that its
/// path promises.
#[derive(Clone, Debug, PartialEq, Eq)]
pub struct ArtworkSource {
    pub path: String,
    pub format: ImageFormat,
}

impl DeepView for ArtworkSource {
    type V = (Seq<char>, ImageFormat);

    open spec fn deep_view(&self) -> (Seq<char>, ImageFormat) {
        (self.path@, self.format)
    }
}

/// The format that a file extension names, in whatever case it is written:
/// `png`, `bmp`, and `jpeg` or `jpg`.
pub open spec fn format_of_extension(extension: Seq<char>) -> Option<ImageFormat> {
    let e = ascii_lowered(extension);
    if e == "png"@ {
        Some(ImageFormat::Png)
    } else if e == "bmp"@ {
        Some(ImageFormat::Bmp)
    } else if e == "jpeg"@ || e == "jpg"@ {
        Some(ImageFormat::Jpeg)
    } else {
        None
    }
}

/// The format of an image file with the given extension, or the reason why
/// it cannot be told.
pub open spec fn format_for(extension: Option<Seq<char>>) -> Result<ImageFormat, ConfigError> {
    match extension {
        None => Err(ConfigError::NoExtension),
        Some(e) => match format_of_extension(e) {
            Some(format) => Ok(format),
            None => Err(ConfigError::UnsupportedExtension),
        },
    }
}

/// Whether `extension` can be the extension of `path`: it holds no dot, and
/// it stands in `path` right behind a dot.
pub open spec fn stands_behind_dot(path: Seq<char>, extension: Seq<char>) -> bool {
    &&& !extension.contains('.')
    &&& exists|i: int|
        0 <= i && i + 1 + extension.len() <= path.len() && path[i] == '.' && #[trigger] path.subrange(
            i + 1,
            i + 1 + extension.len(),
        ) == extension
}

/// Whether `path` is a plain file name: no `/`, `\` or `:` stands in it, so
/// that it has no directory part and no prefix on any platform.
pub open spec fn is_plain_name(path: Seq<char>) -> bool {
    !path.contains('/') && !path.contains('\\') && !path.contains(':')
}

/// Whether the last dot of `s` stands at index `i`.
pub open spec fn is_last_dot(s: Seq<char>, i: int) -> bool {
    &&& 0 <= i < s.len()
    &&& s[i] == '.'
    &&& forall|j: int| i < j < s.len() ==> s[j] != '.'
}

/// The extension of a plain file name: what follows its last dot. There is
/// none where the name is `..`, where it holds no dot, and where its only
/// dot is its first character.
pub open spec fn plain_extension(name: Seq<char>) -> Option<Seq<char>> {
    if name == seq!['.', '.'] || !name.contains('.') {
        None
    } else {
        let i = choose|i: int| is_last_dot(name, i);
        if i == 0 {
            None
        } else {
            Some(name.subrange(i + 1, name.len() as int))
        }
    }
}

/// `Path::extension`, on a path given as a string. Of every path the
/// contract claims that an extension is a part of the path behind one of
/// its dots and holds no dot itself. Which part of a path is its file name
/// depends on the platform; a plain file name is its own file name on every
/// platform, and of such a path the contract claims the whole result.
#[verifier::external_body]
pub(crate) fn path_extension(path: &str) -> (r: Option<String>)
    ensures
        r matches Some(extension) ==> stands_behind_dot(path@, extension@),
        is_plain_name(path@) ==> r.deep_view() == plain_extension(path@),
{
    match std::path::Path::new(path).extension() {
        Some(extension) => Some(extension.to_string_lossy().into_owned()),
        None => None,
    }
}

/// The extension of a plain file name follows from the place of its last
/// dot: none where that is the first character, and else what follows it,
/// unless the name is `..`.
pub proof fn lemma_plain_extension_at(name: Seq<char>, i: int)
    requires
        is_last_dot(name, i),
    ensures
        plain_extension(name) == if i == 0 || name == seq!['.', '.'] {
            None
        } else {
            Some(name.subrange(i + 1, name.len() as int))
        },
{
    assert(name.contains('.'));
    let k = choose|k: int| is_last_dot(name, k);
    if k < i {
        assert(name[i] != '.');
    }
    if i < k {
        assert(name[k] != '.');
    }
    if name == seq!['.', '.'] {
        assert(name[1] == '.');
    }
}

/// An extension stands behind a dot, so a path without a dot has none.
pub proof fn lemma_extension_needs_dot(path: Seq<char>, extension: Seq<char>)
    requires
        stands_behind_dot(path, extension),
    ensures
        path.contains('.'),
{
    let i = choose|i: int|
        0 <= i && i + 1 + extension.len() <= path.len() && path[i] == '.'
            && #[trigger] path.subrange(i + 1, i + 1 + extension.len()) == extension;
    assert(path[i] == '.');
}

/// Tells the format of an image file by its extension.
pub fn image_format_for(extension: Option<&str>) -> (r: Result<ImageFormat, ConfigError>)
    ensures
        r == format_for(
            match extension {
                Some(e) => Some(e@),
                None => None,
            },
        ),
{
    match extension {
        None => Err(ConfigError::NoExtension),
        Some(e) => {
            proof {
                reveal_strlit("png");
                reveal_strlit("bmp");
                reveal_strlit("jpeg");
                reveal_strlit("jpg");
                assert(ascii_lowered("png"@) =~= "png"@);
                assert(ascii_lowered("bmp"@) =~= "bmp"@);
                assert(ascii_lowered("jpeg"@) =~= "jpeg"@);
                assert(ascii_lowered("jpg"@) =~= "jpg"@);
            }
            if same_text_ignoring_ascii_case(e, "png") {
                Ok(ImageFormat::Png)
            } else if same_text_ignoring_ascii_case(e, "bmp") {
                Ok(ImageFormat::Bmp)
            } else if same_text_ignoring_ascii_case(e, "jpeg") || same_text_ignoring_ascii_case(
                e,
                "jpg",
            ) {
                Ok(ImageFormat::Jpeg)
            } else {
                Err(ConfigError::UnsupportedExtension)
            }
        },
    }
}

/// Tells the format of the image file at `path` by the extension of the
/// path. For a plain file name the result is fixed; for a path with
/// directories the platform's rules for paths pick out the file name.
pub fn image_format(path: &str) -> (r: Result<ImageFormat, ConfigError>)
    ensures
        is_plain_name(path@) ==> r == format_for(plain_extension(path@)),
        r matches Ok(format) ==> exists|e: Seq<char>|
            stands_behind_dot(path@, e) && #[trigger] format_of_extension(e) == Some(format),
        r matches Err(error) ==> error == ConfigError::NoExtension || error
            == ConfigError::UnsupportedExtension,
        !path@.contains('.') ==> r == Err::<ImageFormat, ConfigError>(ConfigError::NoExtension),
{
    match path_extension(path) {
        None => image_format_for(None),
        Some(extension) => {
            proof {
                lemma_extension_needs_dot(path@, extension@);
            }
            let r = image_format_for(Some(extension.as_str()));
            assert(format_for(Some(extension@)) == r);
            r
        },
    }
}

} // verus!
