//! Convert to a widely-shareable MP4.

use super::{
    args_view, base_args, base_args_spec, extend_args, one_stage, progress_args,
    progress_args_spec, push_arg, push_lit, stage_spec, stages_view, JobParams, Op, OpId, Stage,
    StageSpec, Tool, VideoCodec,
};
use crate::probe::{ProbeResult, ProbeView};
use crate::text::{joined, dec, decimal, owned};
use vstd::prelude::*;

verus! {

pub struct Convert;

/// The video-codec arguments for the chosen codec / hardware setting.
pub open spec fn video_codec_args_spec(params: JobParams) -> Seq<Seq<char>> {
    let crf = dec(params.crf as nat);
    match (params.video_codec, params.hw_accel) {
        (VideoCodec::H264, false) => seq![
            "-c:v"@,
            "libx264"@,
            "-crf"@,
            crf,
            "-preset"@,
            "medium"@,
            "-pix_fmt"@,
            "yuv420p"@,
        ],
        (VideoCodec::Hevc, false) => seq![
            "-c:v"@,
            "libx265"@,
            "-crf"@,
            crf,
            "-preset"@,
            "medium"@,
            "-tag:v"@,
            "hvc1"@,
        ],
        (VideoCodec::H264, true) => seq!["-c:v"@, "h264_videotoolbox"@, "-q:v"@, "60"@],
        (VideoCodec::Hevc, true) => seq![
            "-c:v"@,
            "hevc_videotoolbox"@,
            "-q:v"@,
            "60"@,
            "-tag:v"@,
            "hvc1"@,
        ],
    }
}

/// Optional downscale that never upscales (`min(ih, max_height)`); the
/// backslash keeps the comma inside `min()` for the filtergraph parser.
pub open spec fn scale_args_spec(params: JobParams) -> Seq<Seq<char>> {
    match params.max_height {
        Some(h) => seq!["-vf"@, "scale=-2:min(ih\\,"@ + dec(h as nat) + ")"@],
        None => Seq::<Seq<char>>::empty(),
    }
}

/// AAC at 192k when the source has audio, else no audio.
pub open spec fn convert_audio_args(has_audio: bool) -> Seq<Seq<char>> {
    if has_audio {
        seq!["-c:a"@, "aac"@, "-b:a"@, "192k"@]
    } else {
        seq!["-an"@]
    }
}

pub open spec fn convert_args(
    input: Seq<char>,
    output: Seq<char>,
    probe: ProbeView,
    params: JobParams,
) -> Seq<Seq<char>> {
    base_args_spec(input) + progress_args_spec() + scale_args_spec(params)
        + video_codec_args_spec(params) + convert_audio_args(probe.has_audio) + seq![
        "-movflags"@,
        "+faststart"@,
        output,
    ]
}

pub open spec fn convert_stages(
    input: Seq<char>,
    output: Seq<char>,
    probe: ProbeView,
    params: JobParams,
) -> Seq<StageSpec> {
    seq![stage_spec(Tool::Ffmpeg, convert_args(input, output, probe, params), 100)]
}

/// Push the video-codec arguments for the chosen codec / hardware setting.
fn video_codec_args(params: &JobParams, args: &mut Vec<String>)
    ensures
        args_view(final(args)@) == args_view(old(args)@) + video_codec_args_spec(*params),
{
    let ghost start = args_view(args@);
    match (params.video_codec, params.hw_accel) {
        (VideoCodec::H264, false) => {
            push_lit(args, "-c:v");
            push_lit(args, "libx264");
            push_lit(args, "-crf");
            push_arg(args, decimal(params.crf as u64));
            push_lit(args, "-preset");
            push_lit(args, "medium");
            push_lit(args, "-pix_fmt");
            push_lit(args, "yuv420p");
        },
        (VideoCodec::Hevc, false) => {
            push_lit(args, "-c:v");
            push_lit(args, "libx265");
            push_lit(args, "-crf");
            push_arg(args, decimal(params.crf as u64));
            push_lit(args, "-preset");
            push_lit(args, "medium");
            push_lit(args, "-tag:v");
            push_lit(args, "hvc1");
        },
        (VideoCodec::H264, true) => {
            push_lit(args, "-c:v");
            push_lit(args, "h264_videotoolbox");
            push_lit(args, "-q:v");
            push_lit(args, "60");
        },
        (VideoCodec::Hevc, true) => {
            push_lit(args, "-c:v");
            push_lit(args, "hevc_videotoolbox");
            push_lit(args, "-q:v");
            push_lit(args, "60");
            push_lit(args, "-tag:v");
            push_lit(args, "hvc1");
        },
    }
    assert(args_view(args@) =~= start + video_codec_args_spec(*params));
}

/// Push the optional downscale arguments.
fn scale_args(params: &JobParams, args: &mut Vec<String>)
    ensures
        args_view(final(args)@) == args_view(old(args)@) + scale_args_spec(*params),
{
    let ghost start = args_view(args@);
    if let Some(h) = params.max_height {
        push_lit(args, "-vf");
        let mut f = owned("scale=-2:min(ih\\,");
        f.append(decimal(h as u64).as_str());
        f.append(")");
        push_arg(args, f);
    }
    assert(args_view(args@) =~= start + scale_args_spec(*params));
}

impl Op for Convert {
    open spec fn kind(&self) -> OpId {
        OpId::Convert
    }

    fn id(&self) -> (r: OpId) {
        OpId::Convert
    }

    fn label(&self) -> (r: &'static str) {
        "Convert to MP4"
    }

    fn output_suffix(&self, _params: &JobParams) -> (r: String) {
        String::new()
    }

    fn output_ext(&self, _input: &str, _params: &JobParams) -> (r: String) {
        owned("mp4")
    }

    fn build_stages(
        &self,
        input: &str,
        output: &str,
        _workdir: &str,
        probe: &ProbeResult,
        params: &JobParams,
    ) -> (r: Vec<Stage>) {
        let mut args = base_args(input);
        extend_args(&mut args, progress_args());
        scale_args(params, &mut args);
        video_codec_args(params, &mut args);
        let ghost before_audio = args_view(args@);
        if probe.has_audio {
            push_lit(&mut args, "-c:a");
            push_lit(&mut args, "aac");
            push_lit(&mut args, "-b:a");
            push_lit(&mut args, "192k");
        } else {
            push_lit(&mut args, "-an");
        }
        assert(args_view(args@) =~= before_audio + convert_audio_args(probe.has_audio));
        push_lit(&mut args, "-movflags");
        push_lit(&mut args, "+faststart");
        push_lit(&mut args, output);
        assert(args_view(args@) =~= convert_args(input@, output@, probe@, *params));
        let r = one_stage(Stage::ffmpeg(args, 100));
        assert(stages_view(r@) =~= convert_stages(input@, output@, probe@, *params));
        r
    }
}

} // verus!
