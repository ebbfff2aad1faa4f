//! What is known of a track before it is played.

use crate::error::PlayerError;
use crate::sniff::{detect_mime, detected_mime, is_audio, is_audio_mime};
use vstd::prelude::*;
use vstd::string::StringExecFns;

verus! {

/// The mathematical content of a [`TrackMetadata`].
pub struct MetadataView {
    pub file_path: Seq<char>,
    pub file_name: Seq<char>,
    pub mime_type: Seq<char>,
    pub size_bytes: nat,
}

/// The record that describes a track: where its file is, what it is called,
/// what kind of content it holds and how large it is. It does not change
/// once it is made.
#[derive(Debug)]
pub struct TrackMetadata {
    file_path: String,
    file_name: String,
    mime_type: String,
    size_bytes: u64,
}

impl View for TrackMetadata {
    type V = MetadataView;

    closed spec fn view(&self) -> MetadataView {
        MetadataView {
            file_path: self.file_path@,
            file_name: self.file_name@,
            mime_type: self.mime_type@,
            size_bytes: self.size_bytes as nat,
        }
    }
}

impl TrackMetadata {
    /// The record made of the four given values.
    pub fn new(file_path: String, file_name: String, mime_type: String, size_bytes: u64) -> (meta:
        TrackMetadata)
        ensures
            meta@ == (MetadataView {
                file_path: file_path@,
                file_name: file_name@,
                mime_type: mime_type@,
                size_bytes: size_bytes as nat,
            }),
    {
        TrackMetadata { file_path, file_name, mime_type, size_bytes }
    }

    /// The path of the file, as it was given.
    pub fn file_path(&self) -> (path: &str)
        ensures
            path@ == self@.file_path,
    {
        self.file_path.as_str()
    }

    /// The last component of the path.
    pub fn file_name(&self) -> (name: &str)
        ensures
            name@ == self@.file_name,
    {
        self.file_name.as_str()
    }

    /// The MIME type that the content was recognised as.
    pub fn mime_type(&self) -> (mime: &str)
        ensures
            mime@ == self@.mime_type,
    {
        self.mime_type.as_str()
    }

    /// The size of the file in bytes.
    pub fn size_bytes(&self) -> (size: u64)
        ensures
            size == self@.size_bytes,
    {
        self.size_bytes
    }
}

/// What probing a file comes to, from what the file system said of it:
/// the last component of the path (if it has one that is text), the
/// content (if the file could be read) and the size (if it could be asked).
///
/// A path without a name, or content that cannot be read, is a file access
/// error. Content that is not recognised, or recognised as something other
/// than audio, is an unknown format. A size that cannot be asked is a file
/// access error again. Otherwise the record holds the path, the name, the
/// recognised type and the size.
pub open spec fn probe_outcome(
    file_path: Seq<char>,
    file_name: Option<Seq<char>>,
    content: Option<Seq<u8>>,
    size_bytes: Option<u64>,
) -> Result<MetadataView, PlayerError> {
    if file_name is None || content is None {
        Err(PlayerError::FileAccess)
    } else if detected_mime(content->0) is None || !is_audio_mime(detected_mime(content->0)->0) {
        Err(PlayerError::UnknownFormat)
    } else if size_bytes is None {
        Err(PlayerError::FileAccess)
    } else {
        Ok(
            MetadataView {
                file_path,
                file_name: file_name->0,
                mime_type: detected_mime(content->0)->0,
                size_bytes: size_bytes->0 as nat,
            },
        )
    }
}

/// The characters of a file name, if there is one.
pub open spec fn name_view(file_name: Option<&str>) -> Option<Seq<char>> {
    match file_name {
        Some(name) => Some(name@),
        None => None,
    }
}

/// The bytes of a file's content, if there is any.
pub open spec fn content_view(content: Option<&[u8]>) -> Option<Seq<u8>> {
    match content {
        Some(bytes) => Some(bytes@),
        None => None,
    }
}

/// Builds the record of a track from what the file system said of its
/// file, or says why the file cannot be played.
pub fn get_metadata(
    file_path: &str,
    file_name: Option<&str>,
    content: Option<&[u8]>,
    size_bytes: Option<u64>,
) -> (outcome: Result<TrackMetadata, PlayerError>)
    ensures
        match outcome {
            Ok(meta) => probe_outcome(
                file_path@,
                name_view(file_name),
                content_view(content),
                size_bytes,
            ) == Ok::<MetadataView, PlayerError>(meta@),
            Err(error) => probe_outcome(
                file_path@,
                name_view(file_name),
                content_view(content),
                size_bytes,
            ) == Err::<MetadataView, PlayerError>(error),
        },
{
    let name = match file_name {
        Some(name) => name,
        None => {
            return Err(PlayerError::FileAccess);
        },
    };
    let bytes = match content {
        Some(bytes) => bytes,
        None => {
            return Err(PlayerError::FileAccess);
        },
    };
    let mime = match detect_mime(bytes) {
        Some(mime) => mime,
        None => {
            return Err(PlayerError::UnknownFormat);
        },
    };
    if !is_audio(mime.as_str()) {
        return Err(PlayerError::UnknownFormat);
    }
    let size = match size_bytes {
        Some(size) => size,
        None => {
            return Err(PlayerError::FileAccess);
        },
    };
    Ok(TrackMetadata::new(String::from_str(file_path), String::from_str(name), mime, size))
}

} // verus!
