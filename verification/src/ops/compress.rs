//! Shrink a video: either to hit a target file size (two-pass) or to a quality
//! level (single-pass CRF).

use super::{
    args_view, base_args, base_args_spec, extend_args, one_stage, progress_args,
    progress_args_spec, push_arg, push_lit, stage_spec, stages_view, two_stages, CompressMode,
    JobParams, Op, OpId, Stage, StageSpec, Tool,
};
use crate::paths::{path_join, path_join_of};
use crate::probe::{ProbeResult, ProbeView};
use crate::text::{joined, dec, decimal, owned};
use vstd::prelude::*;

verus! {

pub struct Compress;

/// Audio bitrate (kbps) budgeted for in target-size mode.
pub const AUDIO_KBPS: u32 = 128;

/// Floor so a tiny target can't drive the video bitrate to something unusable.
pub const MIN_VIDEO_KBPS: u32 = 100;

/// `target_kb · 8 / seconds · 0.97`, rounded to the nearest whole kbps (halves
/// up): the total bitrate that fills the target, less 3% muxing headroom.
pub open spec fn budget_kbps(target_kb: nat, duration_us: nat) -> nat {
    (2 * target_kb * 7760000 + duration_us) / (2 * duration_us)
}

/// The video bitrate (kbps) that hits `target_kb` over `duration_us`, leaving
/// room for audio: never below the floor, capped at `u32::MAX`; the floor when
/// the duration is unknown.
pub open spec fn target_kbps_spec(target_kb: u64, duration_us: i64, has_audio: bool) -> nat {
    if duration_us <= 0 {
        MIN_VIDEO_KBPS as nat
    } else {
        let v = budget_kbps(target_kb as nat, duration_us as nat);
        let a: nat = if has_audio {
            AUDIO_KBPS as nat
        } else {
            0
        };
        if v < a + MIN_VIDEO_KBPS {
            MIN_VIDEO_KBPS as nat
        } else if v - a > u32::MAX {
            u32::MAX as nat
        } else {
            (v - a) as nat
        }
    }
}

/// Work out the video bitrate (kbps) to hit `target_kb` kilobytes over
/// `duration_us`, leaving room for audio and a little container overhead.
pub fn target_video_kbps(target_kb: u64, duration_us: i64, has_audio: bool) -> (r: u32)
    ensures
        r as nat == target_kbps_spec(target_kb, duration_us, has_audio),
        r >= MIN_VIDEO_KBPS,
{
    if duration_us <= 0 {
        return MIN_VIDEO_KBPS;
    }
    let t = target_kb as u128;
    let d = duration_us as u128;
    let num: u128 = 2 * t * 7760000 + d;
    let den: u128 = 2 * d;
    let v: u128 = num / den;
    let a: u128 = if has_audio {
        AUDIO_KBPS as u128
    } else {
        0
    };
    if v < a + (MIN_VIDEO_KBPS as u128) {
        MIN_VIDEO_KBPS
    } else if v - a > (u32::MAX as u128) {
        u32::MAX
    } else {
        (v - a) as u32
    }
}

/// AAC at `rate` when the source has audio, else no audio.
pub open spec fn compress_audio_args(has_audio: bool) -> Seq<Seq<char>> {
    if has_audio {
        seq!["-c:a"@, "aac"@, "-b:a"@, "128k"@]
    } else {
        seq!["-an"@]
    }
}

/// Single-pass quality-based shrink.
pub open spec fn crf_args(input: Seq<char>, output: Seq<char>, probe: ProbeView, params: JobParams) -> Seq<
    Seq<char>,
> {
    base_args_spec(input) + progress_args_spec() + seq![
        "-c:v"@,
        "libx264"@,
        "-crf"@,
        dec(params.crf as nat),
        "-preset"@,
        "medium"@,
        "-pix_fmt"@,
        "yuv420p"@,
    ] + compress_audio_args(probe.has_audio) + seq!["-movflags"@, "+faststart"@, output]
}

/// The shared two-pass log under the workdir.
pub open spec fn passlog_path(workdir: Seq<char>) -> Seq<char> {
    path_join_of(workdir, "passlog"@)
}

/// `NNNk` for the target video bitrate.
pub open spec fn video_rate(probe: ProbeView, params: JobParams) -> Seq<char> {
    dec(target_kbps_spec(params.target_kb, probe.duration_us as i64, probe.has_audio)) + "k"@
}

/// Pass 1: analyse, no audio, discard output.
pub open spec fn pass1_args(input: Seq<char>, workdir: Seq<char>, probe: ProbeView, params: JobParams) -> Seq<
    Seq<char>,
> {
    base_args_spec(input) + progress_args_spec() + seq![
        "-c:v"@,
        "libx264"@,
        "-b:v"@,
        video_rate(probe, params),
        "-pass"@,
        "1"@,
        "-passlogfile"@,
        passlog_path(workdir),
        "-an"@,
        "-f"@,
        "null"@,
        "/dev/null"@,
    ]
}

/// Pass 2: the real encode, with audio.
pub open spec fn pass2_args(
    input: Seq<char>,
    output: Seq<char>,
    workdir: Seq<char>,
    probe: ProbeView,
    params: JobParams,
) -> Seq<Seq<char>> {
    base_args_spec(input) + progress_args_spec() + seq![
        "-c:v"@,
        "libx264"@,
        "-b:v"@,
        video_rate(probe, params),
        "-pass"@,
        "2"@,
        "-passlogfile"@,
        passlog_path(workdir),
        "-preset"@,
        "medium"@,
        "-pix_fmt"@,
        "yuv420p"@,
    ] + compress_audio_args(probe.has_audio) + seq!["-movflags"@, "+faststart"@, output]
}

pub open spec fn compress_stages(
    input: Seq<char>,
    output: Seq<char>,
    workdir: Seq<char>,
    probe: ProbeView,
    params: JobParams,
) -> Seq<StageSpec> {
    match params.compress_mode {
        CompressMode::Crf => seq![
            stage_spec(Tool::Ffmpeg, crf_args(input, output, probe, params), 100),
        ],
        CompressMode::TargetSize => seq![
            stage_spec(Tool::Ffmpeg, pass1_args(input, workdir, probe, params), 50),
            stage_spec(Tool::Ffmpeg, pass2_args(input, output, workdir, probe, params), 50),
        ],
    }
}

fn push_audio(args: &mut Vec<String>, has_audio: bool)
    ensures
        args_view(final(args)@) == args_view(old(args)@) + compress_audio_args(has_audio),
{
    let ghost start = args_view(args@);
    if has_audio {
        push_lit(args, "-c:a");
        push_lit(args, "aac");
        push_lit(args, "-b:a");
        push_lit(args, "128k");
    } else {
        push_lit(args, "-an");
    }
    assert(args_view(args@) =~= start + compress_audio_args(has_audio));
}

impl Op for Compress {
    open spec fn kind(&self) -> OpId {
        OpId::Compress
    }

    fn id(&self) -> (r: OpId) {
        OpId::Compress
    }

    fn label(&self) -> (r: &'static str) {
        "Compress"
    }

    fn output_suffix(&self, _params: &JobParams) -> (r: String) {
        owned("compressed")
    }

    fn output_ext(&self, _input: &str, _params: &JobParams) -> (r: String) {
        owned("mp4")
    }

    fn build_stages(
        &self,
        input: &str,
        output: &str,
        workdir: &str,
        probe: &ProbeResult,
        params: &JobParams,
    ) -> (r: Vec<Stage>) {
        match params.compress_mode {
            CompressMode::Crf => {
                let mut args = base_args(input);
                extend_args(&mut args, progress_args());
                push_lit(&mut args, "-c:v");
                push_lit(&mut args, "libx264");
                push_lit(&mut args, "-crf");
                push_arg(&mut args, decimal(params.crf as u64));
                push_lit(&mut args, "-preset");
                push_lit(&mut args, "medium");
                push_lit(&mut args, "-pix_fmt");
                push_lit(&mut args, "yuv420p");
                push_audio(&mut args, probe.has_audio);
                push_lit(&mut args, "-movflags");
                push_lit(&mut args, "+faststart");
                push_lit(&mut args, output);
                assert(args_view(args@) =~= crf_args(input@, output@, probe@, *params));
                let r = one_stage(Stage::ffmpeg(args, 100));
                assert(stages_view(r@) =~= compress_stages(input@, output@, workdir@, probe@, *params));
                r
            },
            CompressMode::TargetSize => {
                let vk = target_video_kbps(params.target_kb, probe.duration_us, probe.has_audio);
                let rate = joined(decimal(vk as u64).as_str(), "k");
                assert(rate@ == video_rate(probe@, *params));
                let passlog = path_join(workdir, "passlog");

                let mut p1 = base_args(input);
                extend_args(&mut p1, progress_args());
                push_lit(&mut p1, "-c:v");
                push_lit(&mut p1, "libx264");
                push_lit(&mut p1, "-b:v");
                push_lit(&mut p1, rate.as_str());
                push_lit(&mut p1, "-pass");
                push_lit(&mut p1, "1");
                push_lit(&mut p1, "-passlogfile");
                push_lit(&mut p1, passlog.as_str());
                push_lit(&mut p1, "-an");
                push_lit(&mut p1, "-f");
                push_lit(&mut p1, "null");
                push_lit(&mut p1, "/dev/null");
                assert(args_view(p1@) =~= pass1_args(input@, workdir@, probe@, *params));

                let mut p2 = base_args(input);
                extend_args(&mut p2, progress_args());
                push_lit(&mut p2, "-c:v");
                push_lit(&mut p2, "libx264");
                push_lit(&mut p2, "-b:v");
                push_lit(&mut p2, rate.as_str());
                push_lit(&mut p2, "-pass");
                push_lit(&mut p2, "2");
                push_lit(&mut p2, "-passlogfile");
                push_lit(&mut p2, passlog.as_str());
                push_lit(&mut p2, "-preset");
                push_lit(&mut p2, "medium");
                push_lit(&mut p2, "-pix_fmt");
                push_lit(&mut p2, "yuv420p");
                push_audio(&mut p2, probe.has_audio);
                push_lit(&mut p2, "-movflags");
                push_lit(&mut p2, "+faststart");
                push_lit(&mut p2, output);
                assert(args_view(p2@) =~= pass2_args(input@, output@, workdir@, probe@, *params));

                let r = two_stages(Stage::ffmpeg(p1, 50), Stage::ffmpeg(p2, 50));
                assert(stages_view(r@) =~= compress_stages(input@, output@, workdir@, probe@, *params));
                r
            },
        }
    }
}

} // verus!
