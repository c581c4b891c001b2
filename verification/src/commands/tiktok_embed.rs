//! TikTok embeds: choosing a video encoder, deciding how to get a video file
//! under Discord's size limit, and the embed settings of a server.

use crate::database::model::TikTokEmbedFlags;
use crate::util::{
    chars_of,
    push_str,
    str_eq,
    string_from_chars,
};
use vstd::prelude::*;

verus! {

/// The largest file, in bytes, that is sent as is.
pub const FILE_SIZE_LIMIT: u64 = 8_000_000;

/// The size, in kilobits, that a re-encoded video aims at: 7 MB, to leave some
/// room under the limit.
pub const TARGET_SIZE_KILOBITS: u64 = 56_000;

/// The h264 encoders, best first.
pub open spec fn encoder_preference_list() -> Seq<Seq<char>> {
    seq![
        "h264_nvenc"@,
        "h264_amf"@,
        "h264_qsv"@,
        "h264_mf"@,
        "h264_v4l2m2m"@,
        "h264_vaapi"@,
        "h264_omx"@,
        "libx264"@,
        "libx264rgb"@,
    ]
}

fn encoder_preference(i: usize) -> (res: &'static str)
    requires
        i < 9,
    ensures
        res@ == encoder_preference_list()[i as int],
{
    if i == 0 {
        "h264_nvenc"
    } else if i == 1 {
        "h264_amf"
    } else if i == 2 {
        "h264_qsv"
    } else if i == 3 {
        "h264_mf"
    } else if i == 4 {
        "h264_v4l2m2m"
    } else if i == 5 {
        "h264_vaapi"
    } else if i == 6 {
        "h264_omx"
    } else if i == 7 {
        "libx264"
    } else {
        "libx264rgb"
    }
}

/// Calculate the target bitrate, in kilobits per second, for a video of
/// `duration` seconds to take `target_size` kilobits.
pub fn calc_target_bitrate(target_size: u64, duration: u64) -> (res: u64)
    requires
        duration > 0,
    ensures
        res == target_size / duration,
{
    target_size / duration
}

/// An encoder that ffmpeg offers.
#[derive(Debug, Clone)]
pub struct Encoder {
    /// The encoder's name
    pub name: String,
    /// The encoder's description
    pub description: String,
}

/// `s` ends with `suffix`.
pub open spec fn ends_with(s: Seq<char>, suffix: Seq<char>) -> bool {
    s.len() >= suffix.len() && s.skip(s.len() - suffix.len()) == suffix
}

/// The position of `name` in the preference list, if it is there.
pub open spec fn preference_from(name: Seq<char>, k: int) -> Option<int>
    decreases 9 - k,
{
    if k >= 9 || k < 0 {
        None
    } else if encoder_preference_list()[k] == name {
        Some(k)
    } else {
        preference_from(name, k + 1)
    }
}

/// The preference of an encoder: h264 encoders named in the preference list
/// have their position there; others have none.
pub open spec fn encoder_rank(e: Encoder) -> Option<int> {
    if ends_with(e.description@, "(codec h264)"@) {
        preference_from(e.name@, 0)
    } else {
        None
    }
}

/// The best preference among `encoders`.
pub open spec fn best_rank(encoders: Seq<Encoder>) -> Option<int>
    decreases encoders.len(),
{
    if encoders.len() == 0 {
        None
    } else {
        let prev = best_rank(encoders.drop_last());
        match encoder_rank(encoders.last()) {
            Some(k) => match prev {
                Some(b) => if b > k {
                    Some(k)
                } else {
                    Some(b)
                },
                None => Some(k),
            },
            None => prev,
        }
    }
}

fn str_ends_with(s: &str, suffix: &str) -> (res: bool)
    ensures
        res == ends_with(s@, suffix@),
{
    let a = chars_of(s);
    let b = chars_of(suffix);
    if a.len() < b.len() {
        return false;
    }
    let off = a.len() - b.len();
    let mut i: usize = 0;
    while i < b.len()
        invariant
            a@ == s@,
            b@ == suffix@,
            off == a.len() - b.len(),
            0 <= i <= b.len(),
            forall|j: int| 0 <= j < i ==> a@[off + j] == b@[j],
        decreases b.len() - i,
    {
        if a[off + i] != b[i] {
            assert(s@.skip(off as int)[i as int] != suffix@[i as int]);
            return false;
        }
        i = i + 1;
    }
    assert(s@.skip(off as int) =~= suffix@);
    true
}

fn preference_index(name: &str) -> (res: Option<usize>)
    ensures
        match res {
            Some(k) => k < 9 && preference_from(name@, 0) == Some(k as int),
            None => preference_from(name@, 0) is None,
        },
{
    let mut k: usize = 0;
    while k < 9
        invariant
            0 <= k <= 9,
            preference_from(name@, 0) == preference_from(name@, k as int),
        decreases 9 - k,
    {
        if str_eq(encoder_preference(k), name) {
            return Some(k);
        }
        k = k + 1;
    }
    None
}

/// Select the video encoder to use: of the h264 encoders that ffmpeg offers,
/// the one that comes first in the preference list. `None` if there is none.
pub fn select_encoder(encoders: &Vec<Encoder>) -> (res: Option<&'static str>)
    ensures
        match best_rank(encoders@) {
            Some(k) => res matches Some(name) && name@ == encoder_preference_list()[k],
            None => res is None,
        },
{
    let mut best: Option<usize> = None;
    let mut i: usize = 0;
    while i < encoders.len()
        invariant
            0 <= i <= encoders.len(),
            match best {
                Some(b) => b < 9 && best_rank(encoders@.take(i as int)) == Some(b as int),
                None => best_rank(encoders@.take(i as int)) is None,
            },
        decreases encoders.len() - i,
    {
        assert(encoders@.take(i + 1).drop_last() =~= encoders@.take(i as int));
        let e = &encoders[i];
        proof {
            reveal_strlit("(codec h264)");
        }
        if str_ends_with(e.description.as_str(), "(codec h264)") {
            match preference_index(e.name.as_str()) {
                Some(k) => {
                    best = match best {
                        Some(b) => if b > k {
                            Some(k)
                        } else {
                            Some(b)
                        },
                        None => Some(k),
                    };
                },
                None => {},
            }
        }
        i = i + 1;
    }
    assert(encoders@.take(encoders.len() as int) =~= encoders@);
    match best {
        Some(b) => Some(encoder_preference(b)),
        None => None,
    }
}

/// The file name of a downloaded video.
pub fn video_file_name(id: &str, format: &str) -> (res: String)
    ensures
        res@ == id@ + "."@ + format@,
{
    let mut out: Vec<char> = Vec::new();
    push_str(&mut out, id);
    push_str(&mut out, ".");
    push_str(&mut out, format);
    string_from_chars(&out)
}

/// The file name of a re-encoded video.
pub fn reencoded_file_name(id: &str) -> (res: String)
    ensures
        res@ == id@ + "-reencoded.mp4"@,
{
    let mut out: Vec<char> = Vec::new();
    push_str(&mut out, id);
    push_str(&mut out, "-reencoded.mp4");
    string_from_chars(&out)
}

/// What to do to get a video file that can be sent.
#[derive(Debug, Clone, Copy, PartialEq, Eq, Structural)]
pub enum VideoFileAction {
    /// Send the re-encoded file that is already there
    UseReencoded,
    /// Download the original file first
    Download,
    /// Re-encode the original file at this video bitrate, in kilobits per second
    Reencode(u64),
    /// Send the original file
    UseOriginal,
}

/// Decide the next step towards a video file that can be sent: a re-encoded
/// file that is there is used; an original file that is missing is
/// downloaded; an original file above the size limit is re-encoded to fit in
/// 7 MB over the video's duration; else the original is sent.
pub fn next_video_file_action(reencoded_exists: bool, original_len: Option<u64>, duration: u64) -> (res:
    VideoFileAction)
    requires
        (original_len matches Some(len) && len > FILE_SIZE_LIMIT && !reencoded_exists) ==> duration
            > 0,
    ensures
        reencoded_exists ==> res == VideoFileAction::UseReencoded,
        !reencoded_exists && original_len is None ==> res == VideoFileAction::Download,
        (original_len matches Some(len) && len > FILE_SIZE_LIMIT && !reencoded_exists) ==> res
            == VideoFileAction::Reencode(TARGET_SIZE_KILOBITS / duration),
        (original_len matches Some(len) && len <= FILE_SIZE_LIMIT && !reencoded_exists) ==> res
            == VideoFileAction::UseOriginal,
{
    if reencoded_exists {
        return VideoFileAction::UseReencoded;
    }
    match original_len {
        None => VideoFileAction::Download,
        Some(len) => {
            if len > FILE_SIZE_LIMIT {
                VideoFileAction::Reencode(calc_target_bitrate(7_000 * 8, duration))
            } else {
                VideoFileAction::UseOriginal
            }
        },
    }
}

/// A re-encoded file is kept only if it is below the size limit.
pub fn reencoded_size_ok(len: u64) -> (res: bool)
    ensures
        res == (len < FILE_SIZE_LIMIT),
{
    len < FILE_SIZE_LIMIT
}

/// The flags to set and the flags to clear for the options of the
/// `tiktok-embed` command: each option that is given sets or clears its flag.
pub fn embed_flag_changes(enable: Option<bool>, delete_link: Option<bool>) -> (res: (
    TikTokEmbedFlags,
    TikTokEmbedFlags,
))
    ensures
        res.0.spec_bits() == (if enable == Some(true) {
            1u32
        } else {
            0u32
        }) | (if delete_link == Some(true) {
            2u32
        } else {
            0u32
        }),
        res.1.spec_bits() == (if enable == Some(false) {
            1u32
        } else {
            0u32
        }) | (if delete_link == Some(false) {
            2u32
        } else {
            0u32
        }),
{
    let mut set_flags = TikTokEmbedFlags::empty();
    let mut unset_flags = TikTokEmbedFlags::empty();
    if let Some(enable) = enable {
        if enable {
            set_flags.insert(TikTokEmbedFlags::enabled());
        } else {
            unset_flags.insert(TikTokEmbedFlags::enabled());
        }
    }
    if let Some(enable) = delete_link {
        if enable {
            set_flags.insert(TikTokEmbedFlags::delete_link());
        } else {
            unset_flags.insert(TikTokEmbedFlags::delete_link());
        }
    }
    assert(0u32 | 1u32 == 1u32 && 0u32 | 2u32 == 2u32 && 1u32 | 2u32 == 3u32 && 1u32 | 0u32 == 1u32
        && 0u32 | 0u32 == 0u32) by (bit_vector);
    (set_flags, unset_flags)
}

} // verus!
