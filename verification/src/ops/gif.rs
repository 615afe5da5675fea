//! Turn a clip into an optimized GIF.
//!
//! Two stages: generate an optimal 256-colour palette, then render the GIF
//! using it. A shared palette gives far better quality than on-the-fly
//! quantisation.

use super::{
    args_view, base_args, base_args_spec, extend_args, progress_args, progress_args_spec,
    push_arg, push_lit, stage_spec, stages_view, two_stages, JobParams, Op, OpId, Stage,
    StageSpec, Tool,
};
use crate::paths::{path_join, path_join_of};
use crate::probe::ProbeResult;
use crate::text::{dec, decimal, owned};
use vstd::prelude::*;

verus! {

pub struct Gif;

/// `fps=F,scale=W:-1:flags=lanczos` followed by `tail`.
pub open spec fn gif_filter(fps: u32, width: u32, tail: Seq<char>) -> Seq<char> {
    "fps="@ + dec(fps as nat) + ",scale="@ + dec(width as nat) + ":-1:flags=lanczos"@ + tail
}

/// Where the palette is written.
pub open spec fn palette_path(workdir: Seq<char>) -> Seq<char> {
    path_join_of(workdir, "palette.png"@)
}

/// Stage 1: palettegen → palette.png.
pub open spec fn palette_args(input: Seq<char>, workdir: Seq<char>, params: JobParams) -> Seq<
    Seq<char>,
> {
    base_args_spec(input) + progress_args_spec() + seq![
        "-vf"@,
        gif_filter(params.gif_fps, params.gif_width, ",palettegen"@),
        palette_path(workdir),
    ]
}

/// Stage 2: paletteuse (input + palette) → output.
pub open spec fn render_args(
    input: Seq<char>,
    output: Seq<char>,
    workdir: Seq<char>,
    params: JobParams,
) -> Seq<Seq<char>> {
    base_args_spec(input) + seq!["-i"@, palette_path(workdir)] + progress_args_spec() + seq![
        "-lavfi"@,
        gif_filter(params.gif_fps, params.gif_width, "[x];[x][1:v]paletteuse"@),
        "-loop"@,
        "0"@,
        output,
    ]
}

pub open spec fn gif_stages(
    input: Seq<char>,
    output: Seq<char>,
    workdir: Seq<char>,
    params: JobParams,
) -> Seq<StageSpec> {
    seq![
        stage_spec(Tool::Ffmpeg, palette_args(input, workdir, params), 50),
        stage_spec(Tool::Ffmpeg, render_args(input, output, workdir, params), 50),
    ]
}

fn filter(fps: u32, width: u32, tail: &str) -> (r: String)
    ensures
        r@ == gif_filter(fps, width, tail@),
{
    let mut r = owned("fps=");
    r.append(decimal(fps as u64).as_str());
    r.append(",scale=");
    r.append(decimal(width as u64).as_str());
    r.append(":-1:flags=lanczos");
    r.append(tail);
    r
}

impl Op for Gif {
    open spec fn kind(&self) -> OpId {
        OpId::Gif
    }

    fn id(&self) -> (r: OpId) {
        OpId::Gif
    }

    fn label(&self) -> (r: &'static str) {
        "Make GIF"
    }

    fn output_suffix(&self, _params: &JobParams) -> (r: String) {
        String::new()
    }

    fn output_ext(&self, _input: &str, _params: &JobParams) -> (r: String) {
        owned("gif")
    }

    fn build_stages(
        &self,
        input: &str,
        output: &str,
        workdir: &str,
        _probe: &ProbeResult,
        params: &JobParams,
    ) -> (r: Vec<Stage>) {
        let palette = path_join(workdir, "palette.png");

        let mut p1 = base_args(input);
        extend_args(&mut p1, progress_args());
        push_lit(&mut p1, "-vf");
        push_arg(&mut p1, filter(params.gif_fps, params.gif_width, ",palettegen"));
        push_lit(&mut p1, palette.as_str());
        assert(args_view(p1@) =~= palette_args(input@, workdir@, *params));

        let mut p2 = base_args(input);
        push_lit(&mut p2, "-i");
        push_lit(&mut p2, palette.as_str());
        extend_args(&mut p2, progress_args());
        push_lit(&mut p2, "-lavfi");
        push_arg(&mut p2, filter(params.gif_fps, params.gif_width, "[x];[x][1:v]paletteuse"));
        push_lit(&mut p2, "-loop");
        push_lit(&mut p2, "0");
        push_lit(&mut p2, output);
        assert(args_view(p2@) =~= render_args(input@, output@, workdir@, *params));

        let r = two_stages(Stage::ffmpeg(p1, 50), Stage::ffmpeg(p2, 50));
        assert(stages_view(r@) =~= gif_stages(input@, output@, workdir@, *params));
        r
    }
}

} // verus!
