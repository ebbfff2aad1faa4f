//! Recognising what a file holds from its leading bytes.

use vstd::prelude::*;
use vstd::slice::slice_subrange;
use vstd::string::StrSliceExecFns;

verus! {

/// How many leading bytes of a file are looked at.
pub const SNIFF_WINDOW: usize = 8192;

/// The MIME type that `infer::get` recognises in `head`, if any.
pub uninterp spec fn sniffed_mime(head: Seq<u8>) -> Option<Seq<char>>;

/// Whether `infer::is_audio` finds the signature of an audio format in
/// `head`.
pub uninterp spec fn sniffed_audio(head: Seq<u8>) -> bool;

/// The part of a file that is looked at: its first [`SNIFF_WINDOW`] bytes,
/// or all of it if it is shorter.
pub open spec fn sniff_window(content: Seq<u8>) -> Seq<u8> {
    if content.len() <= SNIFF_WINDOW {
        content
    } else {
        content.take(SNIFF_WINDOW as int)
    }
}

/// Whether the bytes open with the signature of a ZIP local file header.
pub open spec fn opens_zip(head: Seq<u8>) -> bool {
    head.len() >= 4 && head[0] == 0x50 && head[1] == 0x4B && head[2] == 0x03 && head[3] == 0x04
}

/// Whether the bytes open with the signature of a skippable frame, as
/// Zstandard and LZ4 streams may.
pub open spec fn opens_skippable_frame(head: Seq<u8>) -> bool {
    head.len() >= 4 && 0x50 <= head[0] <= 0x5F && head[1] == 0x2A && head[2] == 0x4D && head[3]
        == 0x18
}

/// Whether the bytes open with the signature of a compound document.
pub open spec fn opens_compound_document(head: Seq<u8>) -> bool {
    head.len() >= 8 && head[0] == 0xD0 && head[1] == 0xCF && head[2] == 0x11 && head[3] == 0xE0
        && head[4] == 0xA1 && head[5] == 0xB1 && head[6] == 0x1A && head[7] == 0xE1
}

/// Whether the bytes open a container (an archive or a compound document).
pub open spec fn is_container(head: Seq<u8>) -> bool {
    opens_zip(head) || opens_skippable_frame(head) || opens_compound_document(head)
}

/// Whether the bytes may be examined in full: always, unless they open a
/// container that holds no audio signature. Telling such containers apart
/// means walking their inner structure by the offsets they declare, and
/// this library does not follow offsets from a file it has no use for.
pub open spec fn examinable(head: Seq<u8>) -> bool {
    !is_container(head) || sniffed_audio(head)
}

/// The MIME type of a file with the given content: what its leading bytes
/// are recognised as, and none for a container without an audio signature.
pub open spec fn detected_mime(content: Seq<u8>) -> Option<Seq<char>> {
    if examinable(sniff_window(content)) {
        sniffed_mime(sniff_window(content))
    } else {
        None
    }
}

/// Whether a MIME type is an audio type: it begins with `audio/`.
pub open spec fn is_audio_mime(mime: Seq<char>) -> bool {
    mime.len() >= 6 && mime.take(6) == seq!['a', 'u', 'd', 'i', 'o', '/']
}

/// Calls `infer::is_audio` on `head`. Trusted: the answer depends on the
/// bytes alone. Only the audio signatures are tried, and each of them
/// compares bytes at fixed places.
#[verifier::external_body]
pub(crate) fn sniff_audio(head: &[u8]) -> (audio: bool)
    ensures
        audio == sniffed_audio(head@),
{
    infer::is_audio(head)
}

/// Calls `infer::get` on `head` and takes the MIME type of what it found.
/// Trusted: the answer depends on the bytes alone (the matchers are a fixed
/// table of signature tests, tried in order until one fits). Containers
/// without an audio signature are left out: for them `infer` goes on to
/// its document and archive tests, which add lengths that the bytes
/// declare to offsets and parse compound documents in full. With an audio
/// signature the search ends at an audio test or before it, and the tests
/// up to there only compare bytes of the window.
#[verifier::external_body]
pub(crate) fn sniff(head: &[u8]) -> (mime: Option<String>)
    requires
        examinable(head@),
    ensures
        match mime {
            Some(m) => sniffed_mime(head@) == Some(m@),
            None => sniffed_mime(head@) is None,
        },
{
    match infer::get(head) {
        Some(kind) => Some(String::from(kind.mime_type())),
        None => None,
    }
}

/// Whether the bytes open a container.
pub fn opens_container(head: &[u8]) -> (container: bool)
    ensures
        container == is_container(head@),
{
    let n: usize = head.len();
    let zip = n >= 4 && head[0] == 0x50 && head[1] == 0x4B && head[2] == 0x03 && head[3] == 0x04;
    let skippable = n >= 4 && 0x50 <= head[0] && head[0] <= 0x5F && head[1] == 0x2A && head[2]
        == 0x4D && head[3] == 0x18;
    let compound = n >= 8 && head[0] == 0xD0 && head[1] == 0xCF && head[2] == 0x11 && head[3]
        == 0xE0 && head[4] == 0xA1 && head[5] == 0xB1 && head[6] == 0x1A && head[7] == 0xE1;
    zip || skippable || compound
}

/// The MIME type of a file with the given content, if it is recognised.
pub fn detect_mime(content: &[u8]) -> (mime: Option<String>)
    ensures
        match mime {
            Some(m) => detected_mime(content@) == Some(m@),
            None => detected_mime(content@) is None,
        },
{
    let head = if content.len() <= SNIFF_WINDOW {
        content
    } else {
        slice_subrange(content, 0, SNIFF_WINDOW)
    };
    assert(head@ =~= sniff_window(content@));
    if opens_container(head) && !sniff_audio(head) {
        None
    } else {
        sniff(head)
    }
}

/// Whether a MIME type is an audio type.
pub fn is_audio(mime: &str) -> (audio: bool)
    ensures
        audio == is_audio_mime(mime@),
{
    if mime.unicode_len() < 6 {
        return false;
    }
    let audio = mime.get_char(0) == 'a' && mime.get_char(1) == 'u' && mime.get_char(2) == 'd'
        && mime.get_char(3) == 'i' && mime.get_char(4) == 'o' && mime.get_char(5) == '/';
    proof {
        let want = seq!['a', 'u', 'd', 'i', 'o', '/'];
        if audio {
            assert(mime@.take(6) =~= want);
        } else {
            assert(mime@.take(6)[0] == mime@[0]);
            assert(mime@.take(6)[1] == mime@[1]);
            assert(mime@.take(6)[2] == mime@[2]);
            assert(mime@.take(6)[3] == mime@[3]);
            assert(mime@.take(6)[4] == mime@[4]);
            assert(mime@.take(6)[5] == mime@[5]);
        }
    }
    audio
}

} // verus!
