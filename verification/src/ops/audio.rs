//! Extract the audio track to a standalone file.

use super::{
    args_view, base_args, base_args_spec, extend_args, one_stage, progress_args,
    progress_args_spec, push_arg, push_lit, stage_spec, stages_view, AudioFormat, JobParams, Op,
    OpId, Stage, StageSpec, Tool,
};
use crate::probe::ProbeResult;
use crate::text::{joined, dec, decimal, owned};
use vstd::prelude::*;

verus! {

pub struct ExtractAudio;

/// The output extension for an audio format.
pub open spec fn audio_ext(f: AudioFormat) -> Seq<char> {
    match f {
        AudioFormat::Mp3 => "mp3"@,
        AudioFormat::M4a => "m4a"@,
    }
}

/// The audio encoder for an audio format.
pub open spec fn audio_encoder(f: AudioFormat) -> Seq<char> {
    match f {
        AudioFormat::Mp3 => "libmp3lame"@,
        AudioFormat::M4a => "aac"@,
    }
}

/// `-vn`, then the encoder and bitrate, then the output.
pub open spec fn audio_args(input: Seq<char>, output: Seq<char>, params: JobParams) -> Seq<
    Seq<char>,
> {
    base_args_spec(input) + progress_args_spec() + seq![
        "-vn"@,
        "-c:a"@,
        audio_encoder(params.audio_format),
        "-b:a"@,
        dec(params.audio_bitrate_k as nat) + "k"@,
        output,
    ]
}

/// One ffmpeg stage that drops the video and encodes the audio.
pub open spec fn audio_stages(input: Seq<char>, output: Seq<char>, params: JobParams) -> Seq<
    StageSpec,
> {
    seq![stage_spec(Tool::Ffmpeg, audio_args(input, output, params), 100)]
}

impl Op for ExtractAudio {
    open spec fn kind(&self) -> OpId {
        OpId::ExtractAudio
    }

    fn id(&self) -> (r: OpId) {
        OpId::ExtractAudio
    }

    fn label(&self) -> (r: &'static str) {
        "Extract audio"
    }

    fn output_suffix(&self, _params: &JobParams) -> (r: String) {
        String::new()
    }

    fn output_ext(&self, _input: &str, params: &JobParams) -> (r: String) {
        match params.audio_format {
            AudioFormat::Mp3 => owned("mp3"),
            AudioFormat::M4a => owned("m4a"),
        }
    }

    fn build_stages(
        &self,
        input: &str,
        output: &str,
        _workdir: &str,
        _probe: &ProbeResult,
        params: &JobParams,
    ) -> (r: Vec<Stage>) {
        let mut args = base_args(input);
        extend_args(&mut args, progress_args());
        push_lit(&mut args, "-vn");
        push_lit(&mut args, "-c:a");
        match params.audio_format {
            AudioFormat::Mp3 => push_lit(&mut args, "libmp3lame"),
            AudioFormat::M4a => push_lit(&mut args, "aac"),
        }
        push_lit(&mut args, "-b:a");
        let n = decimal(params.audio_bitrate_k as u64);
        push_arg(&mut args, joined(n.as_str(), "k"));
        push_lit(&mut args, output);
        assert(args_view(args@) =~= audio_args(input@, output@, *params));
        let r = one_stage(Stage::ffmpeg(args, 100));
        assert(stages_view(r@) =~= audio_stages(input@, output@, *params));
        r
    }
}

} // verus!
