//! A music file as the editor knows it: where it is, and what its tag says.
//! Reading and writing the file itself is the caller's part.

use std::path::PathBuf;
use vstd::prelude::*;
use vstd::string::StringExecFns;
use crate::api::MetadataResult;
use crate::cover::{
    bytes_of, picture_of, thumbnail, thumbnail_of, Raster, FILE_THUMBNAIL_SIDE,
};

verus! {

/// A path in the file system. The library carries it and never reads it.
#[verifier::external_type_specification]
#[verifier::external_body]
pub struct ExPathBuf(PathBuf);

/// `PathBuf::clone` hands back a path equal to the one it was given.
pub assume_specification[ <PathBuf as Clone>::clone ](path: &PathBuf) -> (copy: PathBuf)
    ensures
        copy == *path,
;

#[derive(Debug, Clone)]
pub struct AudioFile {
    pub path: PathBuf,
    pub title: String,
    pub artist: String,
    pub album: String,
    pub year: Option<u32>,
    pub picture_data: Option<Vec<u8>>,
    pub thumbnail_data: Option<Vec<u8>>,
}

/// What a file's tag says, as far as the editor reads it. `picture` holds
/// the bytes of the tag's first picture.
#[derive(Debug, Clone)]
pub struct TagFields {
    pub title: Option<String>,
    pub artist: Option<String>,
    pub album: Option<String>,
    pub year: Option<u32>,
    pub picture: Option<Vec<u8>>,
}

/// The name of a file without its extension.
#[derive(Debug, Clone)]
pub enum FileStem {
    /// The path names no file.
    Missing,
    /// The name, which is valid Unicode.
    Text(String),
    /// A name that is not valid Unicode, with a replacement character for
    /// each part that is not.
    Garbled(String),
}

/// The text of a tag field, or `fallback` where the tag has none.
pub open spec fn field_or(field: Option<String>, fallback: Seq<char>) -> Seq<char> {
    match field {
        Some(text) => text@,
        None => fallback,
    }
}

/// The title of a tagged file: the tag's title, else the file's name if it
/// is valid Unicode.
pub open spec fn tagged_title(title: Option<String>, stem: FileStem) -> Seq<char> {
    match title {
        Some(text) => text@,
        None => match stem {
            FileStem::Text(name) => name@,
            _ => "Unknown Title"@,
        },
    }
}

/// The title of a file without a tag: the file's name as far as it can be
/// shown.
pub open spec fn untagged_title(stem: FileStem) -> Seq<char> {
    match stem {
        FileStem::Text(name) => name@,
        FileStem::Garbled(name) => name@,
        FileStem::Missing => "Unknown"@,
    }
}

/// Whether `file` describes the file at `path` whose name is `stem` and
/// whose tag is `tag`, with `small` as the thumbnail of its picture.
pub open spec fn describes(
    file: AudioFile,
    path: PathBuf,
    stem: FileStem,
    tag: Option<TagFields>,
    small: Option<Seq<u8>>,
) -> bool {
    &&& file.path == path
    &&& match tag {
        Some(fields) => {
            &&& file.title@ == tagged_title(fields.title, stem)
            &&& file.artist@ == field_or(fields.artist, "Unknown Artist"@)
            &&& file.album@ == field_or(fields.album, "Unknown Album"@)
            &&& file.year == fields.year
            &&& file.picture_data == fields.picture
            &&& bytes_of(file.thumbnail_data) == if fields.picture is Some {
                small
            } else {
                None
            }
        },
        None => {
            &&& file.title@ == untagged_title(stem)
            &&& file.artist@ == "Unknown Artist"@
            &&& file.album@ == "Unknown Album"@
            &&& file.year is None
            &&& file.picture_data is None
            &&& file.thumbnail_data is None
        },
    }
}

fn text_or(field: Option<String>, fallback: &str) -> (text: String)
    ensures
        text@ == field_or(field, fallback@),
{
    match field {
        Some(text) => text,
        None => String::from_str(fallback),
    }
}

impl AudioFile {
    /// The file as the editor shows it, given the thumbnail of its picture.
    /// Fields the tag leaves out get a fixed text; a file without a tag is
    /// named after the file.
    pub fn with_thumbnail(
        path: PathBuf,
        stem: FileStem,
        tag: Option<TagFields>,
        small: Option<Vec<u8>>,
    ) -> (file: Self)
        ensures
            describes(file, path, stem, tag, bytes_of(small)),
    {
        match tag {
            Some(fields) => {
                let title = match fields.title {
                    Some(text) => text,
                    None => match stem {
                        FileStem::Text(name) => name,
                        _ => String::from_str("Unknown Title"),
                    },
                };
                let thumbnail_data = if fields.picture.is_some() {
                    small
                } else {
                    None
                };
                Self {
                    path,
                    title,
                    artist: text_or(fields.artist, "Unknown Artist"),
                    album: text_or(fields.album, "Unknown Album"),
                    year: fields.year,
                    picture_data: fields.picture,
                    thumbnail_data,
                }
            },
            None => {
                let title = match stem {
                    FileStem::Text(name) => name,
                    FileStem::Garbled(name) => name,
                    FileStem::Missing => String::from_str("Unknown"),
                };
                Self {
                    path,
                    title,
                    artist: String::from_str("Unknown Artist"),
                    album: String::from_str("Unknown Album"),
                    year: None,
                    picture_data: None,
                    thumbnail_data: None,
                }
            },
        }
    }

    /// The file as the editor shows it. `decoded` is the tag's picture as the
    /// caller decoded it, or `None` where the tag has no picture or its bytes
    /// are none; where the tag has a picture, the file's thumbnail is the
    /// one [`thumbnail`] makes of it for the file list.
    pub fn from_tag(
        path: PathBuf,
        stem: FileStem,
        tag: Option<TagFields>,
        decoded: Option<Raster>,
    ) -> (file: Self)
        ensures
            describes(
                file,
                path,
                stem,
                tag,
                thumbnail_of(picture_of(decoded), FILE_THUMBNAIL_SIDE),
            ),
    {
        let has_picture = match &tag {
            Some(fields) => fields.picture.is_some(),
            None => false,
        };
        let small = if has_picture {
            thumbnail(decoded, FILE_THUMBNAIL_SIDE)
        } else {
            None
        };
        Self::with_thumbnail(path, stem, tag, small)
    }

    /// Takes title, artist and album from a record and leaves the rest.
    pub fn apply(&mut self, record: &MetadataResult)
        ensures
            final(self).title@ == record.title@,
            final(self).artist@ == record.artist@,
            final(self).album@ == record.album@,
            final(self).path == old(self).path,
            final(self).year == old(self).year,
            final(self).picture_data == old(self).picture_data,
            final(self).thumbnail_data == old(self).thumbnail_data,
    {
        self.title = record.title.clone();
        self.artist = record.artist.clone();
        self.album = record.album.clone();
    }
}

/// What `str::to_lowercase` makes of a text.
pub uninterp spec fn lowercased(text: Seq<char>) -> Seq<char>;

/// Calls `str::to_lowercase`, which maps each character to its lower-case
/// form as Unicode defines it.
#[verifier::external_body]
fn to_lowercase(text: &str) -> (lower: String)
    ensures
        lower@ == lowercased(text@),
{
    text.to_lowercase()
}

/// Whether a lower-case extension is one of the music formats the editor
/// opens.
pub open spec fn is_audio_name(lower: Seq<char>) -> bool {
    ||| lower == "mp3"@
    ||| lower == "flac"@
    ||| lower == "ogg"@
    ||| lower == "m4a"@
    ||| lower == "wav"@
}

pub fn names_audio(lower: &str) -> (known: bool)
    ensures
        known == is_audio_name(lower@),
{
    let name = String::from_str(lower);
    name == String::from_str("mp3") || name == String::from_str("flac") || name
        == String::from_str("ogg") || name == String::from_str("m4a") || name == String::from_str(
        "wav",
    )
}

/// Whether a file with this extension is opened, whatever case the extension
/// is written in.
pub fn is_audio_extension(extension: &str) -> (known: bool)
    ensures
        known == is_audio_name(lowercased(extension@)),
{
    let lower = to_lowercase(extension);
    names_audio(lower.as_str())
}

} // verus!
