//! The FFmpeg command that changes a video's speed, and what its exit means.

use vstd::prelude::*;

use crate::decimal::{signed_decimal_digits, signed_decimal_text};
use crate::text::views;

verus! {

/// The video filter that rescales presentation timestamps by `factor`:
/// `setpts=<factor>*PTS`, where the factor is the inverse of the speed.
pub open spec fn video_filter_text(factor: Seq<char>) -> Seq<char> {
    "setpts="@ + factor + "*PTS"@
}

/// The arguments handed to `ffmpeg`: read `input`, apply `filter` to the
/// video, drop every audio stream, encode H.264 with the medium preset at
/// quality 23, write an MP4 file whatever the output's name, and overwrite
/// `output` without asking.
pub open spec fn ffmpeg_args_text(input: Seq<char>, output: Seq<char>, filter: Seq<char>) -> Seq<Seq<char>> {
    seq![
        "-i"@, input,
        "-filter:v"@, filter,
        "-an"@,
        "-c:v"@, "libx264"@,
        "-preset"@, "medium"@,
        "-crf"@, "23"@,
        "-f"@, "mp4"@,
        "-y"@,
        output,
    ]
}

/// The filter for a speed whose inverse Rust prints as `factor`.
pub fn video_filter(factor: &str) -> (res: String)
    ensures
        res@ == video_filter_text(factor@),
{
    let mut filter = "setpts=".to_owned();
    filter.append(factor);
    filter.append("*PTS");
    filter
}

/// The command-line arguments of the FFmpeg run.
pub fn ffmpeg_args(input: &str, output: &str, filter: &str) -> (res: Vec<String>)
    ensures
        views(res@) == ffmpeg_args_text(input@, output@, filter@),
{
    let mut args: Vec<String> = Vec::new();
    args.push("-i".to_owned());
    args.push(input.to_owned());
    args.push("-filter:v".to_owned());
    args.push(filter.to_owned());
    args.push("-an".to_owned());
    args.push("-c:v".to_owned());
    args.push("libx264".to_owned());
    args.push("-preset".to_owned());
    args.push("medium".to_owned());
    args.push("-crf".to_owned());
    args.push("23".to_owned());
    args.push("-f".to_owned());
    args.push("mp4".to_owned());
    args.push("-y".to_owned());
    args.push(output.to_owned());
    proof {
        assert(views(args@) =~= ffmpeg_args_text(input@, output@, filter@));
    }
    args
}

/// Every FFmpeg run the tool makes drops the audio, encodes H.264, writes
/// the MP4 container and writes to the output path given, which comes last.
pub proof fn lemma_audio_always_stripped(input: Seq<char>, output: Seq<char>, filter: Seq<char>)
    ensures
        ffmpeg_args_text(input, output, filter).contains("-an"@),
        ffmpeg_args_text(input, output, filter).contains("libx264"@),
        ffmpeg_args_text(input, output, filter)[11] == "-f"@,
        ffmpeg_args_text(input, output, filter)[12] == "mp4"@,
        ffmpeg_args_text(input, output, filter).last() == output,
{
    let a = ffmpeg_args_text(input, output, filter);
    assert(a[4] == "-an"@);
    assert(a[6] == "libx264"@);
}

/// The filter multiplies every presentation timestamp by the factor: it is
/// `setpts=`, then the factor's text unchanged, then `*PTS`, whatever the
/// factor is. A factor above 1 (a speed below 1) thus lengthens the video.
pub proof fn lemma_filter_multiplies_timestamps(factor: Seq<char>)
    ensures
        video_filter_text(factor).len() == factor.len() + 11,
        video_filter_text(factor).subrange(0, 7) =~= seq!['s', 'e', 't', 'p', 't', 's', '='],
        video_filter_text(factor).subrange(7, 7 + factor.len() as int) =~= factor,
        video_filter_text(factor).subrange(7 + factor.len() as int, 11 + factor.len() as int) =~= seq!['*', 'P', 'T', 'S'],
{
    reveal_strlit("setpts=");
    reveal_strlit("*PTS");
    let f = video_filter_text(factor);
    assert("setpts="@ =~= seq!['s', 'e', 't', 'p', 't', 's', '=']);
    assert("*PTS"@ =~= seq!['*', 'P', 'T', 'S']);
    assert(f.subrange(0, 7) =~= "setpts="@);
    assert(f.subrange(7, 7 + factor.len() as int) =~= factor);
    assert(f.subrange(7 + factor.len() as int, 11 + factor.len() as int) =~= "*PTS"@);
}

/// The whole FFmpeg argument list, position by position: the input after
/// `-i`, the filter after `-filter:v`, no audio, H.264 at the medium preset
/// and quality 23, the MP4 container, overwrite, and the output last.
pub proof fn lemma_ffmpeg_argument_positions(input: Seq<char>, output: Seq<char>, filter: Seq<char>)
    ensures ({
        let a = ffmpeg_args_text(input, output, filter);
        &&& a.len() == 15
        &&& a[0] == "-i"@ && a[1] == input
        &&& a[2] == "-filter:v"@ && a[3] == filter
        &&& a[4] == "-an"@
        &&& a[5] == "-c:v"@ && a[6] == "libx264"@
        &&& a[7] == "-preset"@ && a[8] == "medium"@
        &&& a[9] == "-crf"@ && a[10] == "23"@
        &&& a[11] == "-f"@ && a[12] == "mp4"@
        &&& a[13] == "-y"@ && a[14] == output
    }),
{
}

/// An FFmpeg run that did not succeed, with the exit code it reported
/// (`-1` where it was ended by a signal and had none).
#[derive(Debug, Clone, Copy, PartialEq, Eq, Structural)]
pub struct FfmpegFailure {
    pub code: i32,
}

/// What the tool makes of FFmpeg's exit: success, or a failure carrying the
/// exit code, `-1` standing for a missing one.
pub fn ffmpeg_outcome(success: bool, code: Option<i32>) -> (res: Result<(), FfmpegFailure>)
    ensures
        res is Ok <==> success,
        res matches Err(f) ==> f.code == match code { Some(c) => c, None => -1i32 },
{
    if success {
        Ok(())
    } else {
        let code = match code {
            Some(c) => c,
            None => -1,
        };
        Err(FfmpegFailure { code })
    }
}

/// The message reported for a failed FFmpeg run.
pub open spec fn failure_message_text(code: i32) -> Seq<char> {
    "Video processing failed (ffmpeg exit code "@ + signed_decimal_digits(code as int)
        + "). Re-run with RUST_LOG=debug or set stderr to Stdio::inherit() to see ffmpeg output."@
}

impl FfmpegFailure {
    /// The error message for this failure.
    pub fn message(&self) -> (res: String)
        ensures
            res@ == failure_message_text(self.code),
    {
        let mut text = "Video processing failed (ffmpeg exit code ".to_owned();
        let code = signed_decimal_text(self.code as i64);
        text.append(code.as_str());
        text.append("). Re-run with RUST_LOG=debug or set stderr to Stdio::inherit() to see ffmpeg output.");
        text
    }
}

} // verus!
