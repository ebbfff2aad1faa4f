//! The playing time of a track, measured from its bytes by `mp3_duration`.
//!
//! The decoder multiplies the frame count that a Xing or Info header
//! declares by the samples per frame and by a billion, in 64 bits, and adds
//! sixteen to the size that an APE tag declares, in `usize`. A file that
//! declares more than either sum can hold is turned away before the decoder
//! sees it.

use crate::error::PlayerError;
use vstd::prelude::*;

verus! {

#[verifier::external_type_specification]
#[verifier::external_body]
pub struct ExMP3DurationError(mp3_duration::MP3DurationError);

/// The most frames a Xing or Info header may declare: with 1152 samples to
/// the frame, the largest count whose samples, in nanoseconds, fit 64 bits.
pub const MAX_DECLARED_FRAMES: u32 = 16_012_798;

/// The largest size an APE tag may declare: sixteen more must fit 32 bits.
pub const MAX_DECLARED_TAG: u32 = 0xFFFF_FFEF;

/// The playing time in nanoseconds that `mp3_duration::from_read` measures
/// in `content`, or `None` where it gives up.
pub uninterp spec fn mp3_length(content: Seq<u8>) -> Option<nat>;

/// The four bytes from `at` on, read as a number, most significant first.
pub open spec fn be32(content: Seq<u8>, at: int) -> nat {
    (content[at] as nat) * 0x100_0000 + (content[at + 1] as nat) * 0x1_0000 + (content[at
        + 2] as nat) * 0x100 + (content[at + 3] as nat)
}

/// The four bytes from `at` on, read as a number, least significant first.
pub open spec fn le32(content: Seq<u8>, at: int) -> nat {
    (content[at + 3] as nat) * 0x100_0000 + (content[at + 2] as nat) * 0x1_0000 + (content[at
        + 1] as nat) * 0x100 + (content[at] as nat)
}

/// Whether an MPEG frame header may start at `at`: eleven set bits.
pub open spec fn frame_sync_at(content: Seq<u8>, at: int) -> bool {
    0 <= at && at + 1 < content.len() && content[at] == 0xFF && content[at + 1] >= 0xE0
}

/// Whether the four bytes from `at` on spell `Xing` or `Info`.
pub open spec fn count_marker_at(content: Seq<u8>, at: int) -> bool {
    ||| content[at] == 0x58 && content[at + 1] == 0x69 && content[at + 2] == 0x6E && content[at
        + 3] == 0x67
    ||| content[at] == 0x49 && content[at + 1] == 0x6E && content[at + 2] == 0x66 && content[at
        + 3] == 0x6F
}

/// Whether a frame-count header at `at` declares more frames than
/// [`MAX_DECLARED_FRAMES`]: the marker, the flag that a count follows, the
/// count, and a frame header at one of the three distances at which the
/// marker is looked for (4 bytes of header and 9, 17 or 32 of side
/// information).
pub open spec fn overlong_at(content: Seq<u8>, at: int) -> bool {
    &&& 0 <= at
    &&& at + 12 <= content.len()
    &&& count_marker_at(content, at)
    &&& content[at + 7] % 2 == 1
    &&& be32(content, at + 8) > MAX_DECLARED_FRAMES
    &&& (frame_sync_at(content, at - 13) || frame_sync_at(content, at - 21) || frame_sync_at(
        content,
        at - 36,
    ))
}

/// Whether an APE tag header at `at` declares a size above
/// [`MAX_DECLARED_TAG`].
pub open spec fn oversized_tag_at(content: Seq<u8>, at: int) -> bool {
    &&& 0 <= at
    &&& at + 16 <= content.len()
    &&& content[at] == 0x41
    &&& content[at + 1] == 0x50
    &&& content[at + 2] == 0x45
    &&& content[at + 3] == 0x54
    &&& content[at + 4] == 0x41
    &&& content[at + 5] == 0x47
    &&& content[at + 6] == 0x45
    &&& content[at + 7] == 0x58
    &&& le32(content, at + 12) > MAX_DECLARED_TAG
}

/// Whether the decoder's arithmetic can hold everything that the content
/// declares, wherever it declares it.
pub open spec fn measurable(content: Seq<u8>) -> bool {
    &&& forall|at: int| 0 <= at < content.len() ==> !#[trigger] overlong_at(content, at)
    &&& forall|at: int| 0 <= at < content.len() ==> !#[trigger] oversized_tag_at(content, at)
}

/// The playing time of a track with the given content, in nanoseconds:
/// what the decoder measures, if the content is measurable and the decoder
/// does not give up.
pub open spec fn spec_track_length(content: Seq<u8>) -> Result<u128, PlayerError> {
    if !measurable(content) {
        Err(PlayerError::DurationUnavailable)
    } else {
        match mp3_length(content) {
            Some(nanos) => Ok(nanos as u128),
            None => Err(PlayerError::DurationUnavailable),
        }
    }
}

/// Calls `mp3_duration::from_read` on the bytes, and `Duration::as_nanos`
/// on what it measured. Trusted: the outcome depends on the bytes alone.
/// Only measurable content is admitted: on other content the decoder's
/// sums overflow.
#[verifier::external_body]
pub(crate) fn decode_length(content: &[u8]) -> (length: Result<
    u128,
    mp3_duration::MP3DurationError,
>)
    requires
        measurable(content@),
    ensures
        match length {
            Ok(nanos) => mp3_length(content@) == Some(nanos as nat),
            Err(_) => mp3_length(content@) is None,
        },
{
    let mut reader = content;
    match mp3_duration::from_read(&mut reader) {
        Ok(duration) => Ok(duration.as_nanos()),
        Err(error) => Err(error),
    }
}

fn read_be32(content: &[u8], at: usize) -> (value: u32)
    requires
        at + 4 <= content@.len(),
    ensures
        value == be32(content@, at as int),
{
    let a: u32 = content[at] as u32;
    let b: u32 = content[at + 1] as u32;
    let c: u32 = content[at + 2] as u32;
    let d: u32 = content[at + 3] as u32;
    a * 0x100_0000 + b * 0x1_0000 + c * 0x100 + d
}

fn read_le32(content: &[u8], at: usize) -> (value: u32)
    requires
        at + 4 <= content@.len(),
    ensures
        value == le32(content@, at as int),
{
    let a: u32 = content[at] as u32;
    let b: u32 = content[at + 1] as u32;
    let c: u32 = content[at + 2] as u32;
    let d: u32 = content[at + 3] as u32;
    d * 0x100_0000 + c * 0x1_0000 + b * 0x100 + a
}

fn has_frame_sync(content: &[u8], at: usize, back: usize) -> (sync: bool)
    requires
        at < content@.len(),
    ensures
        sync == frame_sync_at(content@, at - back),
{
    let length: usize = content.len();
    if at < back {
        return false;
    }
    let start: usize = at - back;
    start + 1 < length && content[start] == 0xFF && content[start + 1] >= 0xE0
}

fn is_overlong_at(content: &[u8], at: usize) -> (overlong: bool)
    requires
        at < content@.len(),
    ensures
        overlong == overlong_at(content@, at as int),
{
    if content.len() - at < 12 {
        return false;
    }
    let xing = content[at] == 0x58 && content[at + 1] == 0x69 && content[at + 2] == 0x6E
        && content[at + 3] == 0x67;
    let info = content[at] == 0x49 && content[at + 1] == 0x6E && content[at + 2] == 0x66
        && content[at + 3] == 0x6F;
    if !(xing || info) || content[at + 7] % 2 != 1 {
        return false;
    }
    if read_be32(content, at + 8) <= MAX_DECLARED_FRAMES {
        return false;
    }
    has_frame_sync(content, at, 13) || has_frame_sync(content, at, 21) || has_frame_sync(
        content,
        at,
        36,
    )
}

fn is_oversized_tag_at(content: &[u8], at: usize) -> (oversized: bool)
    requires
        at < content@.len(),
    ensures
        oversized == oversized_tag_at(content@, at as int),
{
    if content.len() - at < 16 {
        return false;
    }
    let marked = content[at] == 0x41 && content[at + 1] == 0x50 && content[at + 2] == 0x45
        && content[at + 3] == 0x54 && content[at + 4] == 0x41 && content[at + 5] == 0x47
        && content[at + 6] == 0x45 && content[at + 7] == 0x58;
    marked && read_le32(content, at + 12) > MAX_DECLARED_TAG
}

/// Whether the decoder's arithmetic can hold everything that the content
/// declares.
pub fn is_measurable(content: &[u8]) -> (ok: bool)
    ensures
        ok == measurable(content@),
{
    let mut at: usize = 0;
    while at < content.len()
        invariant
            at <= content@.len(),
            forall|p: int| 0 <= p < at ==> !#[trigger] overlong_at(content@, p),
            forall|p: int| 0 <= p < at ==> !#[trigger] oversized_tag_at(content@, p),
        decreases content@.len() - at,
    {
        let overlong = is_overlong_at(content, at);
        let oversized = is_oversized_tag_at(content, at);
        if overlong || oversized {
            return false;
        }
        at += 1;
    }
    true
}

/// The playing time of a track with the given content, in nanoseconds.
pub fn track_length(content: &[u8]) -> (length: Result<u128, PlayerError>)
    ensures
        length == spec_track_length(content@),
{
    if !is_measurable(content) {
        return Err(PlayerError::DurationUnavailable);
    }
    match decode_length(content) {
        Ok(nanos) => Ok(nanos),
        Err(_) => Err(PlayerError::DurationUnavailable),
    }
}

} // verus!
