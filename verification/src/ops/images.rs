//! Image operations: convert, resize, compress.
//!
//! macOS `sips` does most of the work: it reads everything (incl. tiled HEIC)
//! and preserves EXIF orientation. ffmpeg is used only to write WebP (which
//! sips can't), and only from a JPEG or other non-HEIC source, because ffmpeg
//! bakes JPEG EXIF orientation into its output.

use super::{
    args_view, base_args, base_args_spec, extend_args, image_format_ext, one_stage,
    progress_args, progress_args_spec, push_arg, push_lit, stage_spec, stages_view, ImageFormat,
    JobParams, Op, OpId, Stage, StageSpec, Tool,
};
use crate::paths::{ext_lower, ext_of, path_join, path_join_of};
use crate::probe::ProbeResult;
use crate::text::{chars_eq_str, dec, decimal, owned, str_eq, string_of};
use vstd::prelude::*;

verus! {

/// Formats ffmpeg can't decode correctly; they must go through sips.
pub open spec fn native_decode_spec(input: Seq<char>) -> bool {
    let e = ext_lower(input);
    e == "heic"@ || e == "heif"@ || e == "avif"@
}

/// sips's format name for an output extension.
pub open spec fn sips_format_spec(ext: Seq<char>) -> Seq<char> {
    if ext == "jpg"@ || ext == "jpeg"@ {
        "jpeg"@
    } else if ext == "png"@ {
        "png"@
    } else if ext == "gif"@ {
        "gif"@
    } else if ext == "tif"@ || ext == "tiff"@ {
        "tiff"@
    } else {
        "jpeg"@
    }
}

/// Output extension for ops that keep the source format: HEIC/HEIF/AVIF (and
/// extension-less sources) become JPG.
pub open spec fn keep_ext_spec(input: Seq<char>) -> Seq<char> {
    let e = ext_lower(input);
    if e.len() == 0 || native_decode_spec(input) {
        "jpg"@
    } else {
        e
    }
}

/// Quality clamped to 1..=100.
pub open spec fn clamp_quality(q: u32) -> nat {
    if q < 1 {
        1
    } else if q > 100 {
        100
    } else {
        q as nat
    }
}

/// A sips convert/compress stage: `-s format F [-s formatOptions Q] in --out out`.
pub open spec fn sips_encode_spec(input: Seq<char>, output: Seq<char>, ext: Seq<char>, quality: u32) -> StageSpec {
    let quality_args = if ext == "jpg"@ || ext == "jpeg"@ {
        seq!["-s"@, "formatOptions"@, dec(clamp_quality(quality))]
    } else {
        Seq::<Seq<char>>::empty()
    };
    stage_spec(
        Tool::Sips,
        seq!["-s"@, "format"@, sips_format_spec(ext)] + quality_args + seq![input, "--out"@, output],
        100,
    )
}

/// Where a HEIC source is decoded to before WebP encoding.
pub open spec fn decoded_path(workdir: Seq<char>) -> Seq<char> {
    path_join_of(workdir, "decoded.jpg"@)
}

/// The decode stage the WebP path needs first (none for non-HEIC sources).
pub open spec fn webp_source_stages(input: Seq<char>, workdir: Seq<char>) -> Seq<StageSpec> {
    if native_decode_spec(input) {
        seq![
            stage_spec(
                Tool::Sips,
                seq![
                    "-s"@,
                    "format"@,
                    "jpeg"@,
                    "-s"@,
                    "formatOptions"@,
                    "100"@,
                    input,
                    "--out"@,
                    decoded_path(workdir),
                ],
                40,
            ),
        ]
    } else {
        Seq::<StageSpec>::empty()
    }
}

/// The file ffmpeg reads on the WebP path.
pub open spec fn webp_source_input(input: Seq<char>, workdir: Seq<char>) -> Seq<char> {
    if native_decode_spec(input) {
        decoded_path(workdir)
    } else {
        input
    }
}

/// An ffmpeg WebP encode of one frame, with an optional extra filter.
pub open spec fn webp_args_spec(ff_input: Seq<char>, output: Seq<char>, quality: u32, vf: Option<Seq<char>>) -> Seq<
    Seq<char>,
> {
    let vf_args = match vf {
        Some(v) => seq!["-vf"@, v],
        None => Seq::<Seq<char>>::empty(),
    };
    base_args_spec(ff_input) + progress_args_spec() + vf_args + seq![
        "-c:v"@,
        "libwebp"@,
        "-quality"@,
        dec(clamp_quality(quality)),
        "-frames:v"@,
        "1"@,
        output,
    ]
}

/// Downscale to fit within `max`×`max`, preserving aspect and never upscaling.
pub open spec fn scale_filter_spec(max: u32) -> Seq<char> {
    "scale=min("@ + dec(max as nat) + "\\,iw):min("@ + dec(max as nat)
        + "\\,ih):force_original_aspect_ratio=decrease"@
}

pub open spec fn image_convert_stages(
    input: Seq<char>,
    output: Seq<char>,
    workdir: Seq<char>,
    params: JobParams,
) -> Seq<StageSpec> {
    match params.image_format {
        ImageFormat::Webp => {
            let src = webp_source_stages(input, workdir);
            let w: nat = if src.len() > 0 {
                60
            } else {
                100
            };
            src + seq![
                stage_spec(
                    Tool::Ffmpeg,
                    webp_args_spec(
                        webp_source_input(input, workdir),
                        output,
                        params.image_quality,
                        None,
                    ),
                    w,
                ),
            ]
        },
        ImageFormat::Jpg => seq![sips_encode_spec(input, output, "jpg"@, params.image_quality)],
        ImageFormat::Png => seq![sips_encode_spec(input, output, "png"@, params.image_quality)],
    }
}

pub open spec fn image_resize_stages(input: Seq<char>, output: Seq<char>, params: JobParams) -> Seq<
    StageSpec,
> {
    let e = keep_ext_spec(input);
    if e == "webp"@ {
        seq![
            stage_spec(
                Tool::Ffmpeg,
                webp_args_spec(input, output, 90, Some(scale_filter_spec(params.image_max_dim))),
                100,
            ),
        ]
    } else {
        seq![
            stage_spec(
                Tool::Sips,
                seq![
                    "-Z"@,
                    dec(params.image_max_dim as nat),
                    "-s"@,
                    "format"@,
                    sips_format_spec(e),
                    input,
                    "--out"@,
                    output,
                ],
                100,
            ),
        ]
    }
}

pub open spec fn image_compress_stages(input: Seq<char>, output: Seq<char>, params: JobParams) -> Seq<
    StageSpec,
> {
    let e = keep_ext_spec(input);
    if e == "webp"@ {
        seq![
            stage_spec(
                Tool::Ffmpeg,
                webp_args_spec(input, output, params.image_quality, None),
                100,
            ),
        ]
    } else {
        seq![sips_encode_spec(input, output, e, params.image_quality)]
    }
}

/// Formats ffmpeg can't decode correctly: must go through sips.
pub fn needs_native_decode(input: &str) -> (r: bool)
    ensures
        r == native_decode_spec(input@),
{
    let e = ext_of(input);
    chars_eq_str(&e, "heic") || chars_eq_str(&e, "heif") || chars_eq_str(&e, "avif")
}

/// sips's format name for an output extension.
pub fn sips_format(ext: &str) -> (r: &'static str)
    ensures
        r@ == sips_format_spec(ext@),
{
    if str_eq(ext, "jpg") || str_eq(ext, "jpeg") {
        "jpeg"
    } else if str_eq(ext, "png") {
        "png"
    } else if str_eq(ext, "gif") {
        "gif"
    } else if str_eq(ext, "tif") || str_eq(ext, "tiff") {
        "tiff"
    } else {
        "jpeg"
    }
}

/// Output extension for ops that keep the source format.
pub fn keep_ext(input: &str) -> (r: String)
    ensures
        r@ == keep_ext_spec(input@),
{
    let e = ext_of(input);
    if e.len() == 0 || needs_native_decode(input) {
        owned("jpg")
    } else {
        string_of(&e)
    }
}

fn clamp_q(q: u32) -> (r: u32)
    ensures
        r as nat == clamp_quality(q),
{
    if q < 1 {
        1
    } else if q > 100 {
        100
    } else {
        q
    }
}

/// A sips convert/compress stage.
pub fn sips_encode(input: &str, output: &str, ext: &str, quality: u32) -> (r: Stage)
    ensures
        r@ == sips_encode_spec(input@, output@, ext@, quality),
{
    let mut args: Vec<String> = Vec::new();
    push_lit(&mut args, "-s");
    push_lit(&mut args, "format");
    push_lit(&mut args, sips_format(ext));
    let ghost head = args_view(args@);
    if str_eq(ext, "jpg") || str_eq(ext, "jpeg") {
        push_lit(&mut args, "-s");
        push_lit(&mut args, "formatOptions");
        push_arg(&mut args, decimal(clamp_q(quality) as u64));
    }
    let ghost mid = args_view(args@);
    push_lit(&mut args, input);
    push_lit(&mut args, "--out");
    push_lit(&mut args, output);
    assert(args_view(args@) =~= sips_encode_spec(input@, output@, ext@, quality).args);
    Stage::sips(args, 100)
}

/// For the WebP path: a HEIC source is first decoded to a JPEG in `workdir`;
/// any other source is read by ffmpeg directly.
pub fn webp_source(input: &str, workdir: &str) -> (r: (Vec<Stage>, String))
    ensures
        stages_view(r.0@) == webp_source_stages(input@, workdir@),
        r.1@ == webp_source_input(input@, workdir@),
{
    if needs_native_decode(input) {
        let decoded = path_join(workdir, "decoded.jpg");
        let mut args: Vec<String> = Vec::new();
        push_lit(&mut args, "-s");
        push_lit(&mut args, "format");
        push_lit(&mut args, "jpeg");
        push_lit(&mut args, "-s");
        push_lit(&mut args, "formatOptions");
        push_lit(&mut args, "100");
        push_lit(&mut args, input);
        push_lit(&mut args, "--out");
        push_lit(&mut args, decoded.as_str());
        assert(args_view(args@) =~= seq![
            "-s"@,
            "format"@,
            "jpeg"@,
            "-s"@,
            "formatOptions"@,
            "100"@,
            input@,
            "--out"@,
            decoded_path(workdir@),
        ]);
        let stages = one_stage(Stage::sips(args, 40));
        assert(stages_view(stages@) =~= webp_source_stages(input@, workdir@));
        (stages, decoded)
    } else {
        let stages: Vec<Stage> = Vec::new();
        assert(stages_view(stages@) =~= webp_source_stages(input@, workdir@));
        (stages, owned(input))
    }
}

/// The arguments of an ffmpeg WebP encode.
pub fn webp_args(ff_input: &str, output: &str, quality: u32, extra_vf: Option<String>) -> (r: Vec<
    String,
>)
    ensures
        args_view(r@) == webp_args_spec(ff_input@, output@, quality, extra_vf.deep_view()),
{
    let mut args = base_args(ff_input);
    extend_args(&mut args, progress_args());
    let ghost head = args_view(args@);
    if let Some(vf) = extra_vf {
        push_lit(&mut args, "-vf");
        push_arg(&mut args, vf);
    }
    let ghost mid = args_view(args@);
    push_lit(&mut args, "-c:v");
    push_lit(&mut args, "libwebp");
    push_lit(&mut args, "-quality");
    push_arg(&mut args, decimal(clamp_q(quality) as u64));
    push_lit(&mut args, "-frames:v");
    push_lit(&mut args, "1");
    push_lit(&mut args, output);
    assert(args_view(args@) =~= webp_args_spec(ff_input@, output@, quality, extra_vf.deep_view()));
    args
}

/// Downscale to fit within `max`×`max`, preserving aspect and never upscaling.
pub fn scale_filter(max: u32) -> (r: String)
    ensures
        r@ == scale_filter_spec(max),
{
    let n = decimal(max as u64);
    let mut r = owned("scale=min(");
    r.append(n.as_str());
    r.append("\\,iw):min(");
    r.append(n.as_str());
    r.append("\\,ih):force_original_aspect_ratio=decrease");
    r
}

// MARK: Convert

pub struct ImageConvert;

impl Op for ImageConvert {
    open spec fn kind(&self) -> OpId {
        OpId::ImageConvert
    }

    fn id(&self) -> (r: OpId) {
        OpId::ImageConvert
    }

    fn label(&self) -> (r: &'static str) {
        "Convert"
    }

    fn output_suffix(&self, _params: &JobParams) -> (r: String) {
        String::new()
    }

    fn output_ext(&self, _input: &str, params: &JobParams) -> (r: String) {
        owned(params.image_format.ext())
    }

    fn build_stages(
        &self,
        input: &str,
        output: &str,
        workdir: &str,
        _probe: &ProbeResult,
        params: &JobParams,
    ) -> (r: Vec<Stage>) {
        match params.image_format {
            ImageFormat::Webp => {
                let (mut stages, ff_input) = webp_source(input, workdir);
                let ghost src = stages_view(stages@);
                let last: u32 = if stages.len() > 0 {
                    60
                } else {
                    100
                };
                let s = Stage::ffmpeg(webp_args(ff_input.as_str(), output, params.image_quality, None), last);
                stages.push(s);
                assert(stages_view(stages@) =~= image_convert_stages(input@, output@, workdir@, *params));
                stages
            },
            ImageFormat::Jpg => {
                let r = one_stage(sips_encode(input, output, "jpg", params.image_quality));
                assert(stages_view(r@) =~= image_convert_stages(input@, output@, workdir@, *params));
                r
            },
            ImageFormat::Png => {
                let r = one_stage(sips_encode(input, output, "png", params.image_quality));
                assert(stages_view(r@) =~= image_convert_stages(input@, output@, workdir@, *params));
                r
            },
        }
    }
}

// MARK: Resize

pub struct ImageResize;

impl Op for ImageResize {
    open spec fn kind(&self) -> OpId {
        OpId::ImageResize
    }

    fn id(&self) -> (r: OpId) {
        OpId::ImageResize
    }

    fn label(&self) -> (r: &'static str) {
        "Resize"
    }

    fn output_suffix(&self, _params: &JobParams) -> (r: String) {
        owned("resized")
    }

    fn output_ext(&self, input: &str, _params: &JobParams) -> (r: String) {
        keep_ext(input)
    }

    fn build_stages(
        &self,
        input: &str,
        output: &str,
        _workdir: &str,
        _probe: &ProbeResult,
        params: &JobParams,
    ) -> (r: Vec<Stage>) {
        let out_ext = keep_ext(input);
        if str_eq(out_ext.as_str(), "webp") {
            // Source is a (non-HEIC) webp; ffmpeg reads it fine.
            let args = webp_args(input, output, 90, Some(scale_filter(params.image_max_dim)));
            let r = one_stage(Stage::ffmpeg(args, 100));
            assert(stages_view(r@) =~= image_resize_stages(input@, output@, *params));
            return r;
        }
        // sips resizes and keeps orientation. `-Z` fits within max, aspect kept.
        let mut args: Vec<String> = Vec::new();
        push_lit(&mut args, "-Z");
        push_arg(&mut args, decimal(params.image_max_dim as u64));
        push_lit(&mut args, "-s");
        push_lit(&mut args, "format");
        push_lit(&mut args, sips_format(out_ext.as_str()));
        push_lit(&mut args, input);
        push_lit(&mut args, "--out");
        push_lit(&mut args, output);
        assert(args_view(args@) =~= seq![
            "-Z"@,
            dec(params.image_max_dim as nat),
            "-s"@,
            "format"@,
            sips_format_spec(out_ext@),
            input@,
            "--out"@,
            output@,
        ]);
        let r = one_stage(Stage::sips(args, 100));
        assert(stages_view(r@) =~= image_resize_stages(input@, output@, *params));
        r
    }
}

// MARK: Compress

pub struct ImageCompress;

impl Op for ImageCompress {
    open spec fn kind(&self) -> OpId {
        OpId::ImageCompress
    }

    fn id(&self) -> (r: OpId) {
        OpId::ImageCompress
    }

    fn label(&self) -> (r: &'static str) {
        "Compress"
    }

    fn output_suffix(&self, _params: &JobParams) -> (r: String) {
        owned("compressed")
    }

    fn output_ext(&self, input: &str, _params: &JobParams) -> (r: String) {
        keep_ext(input)
    }

    fn build_stages(
        &self,
        input: &str,
        output: &str,
        _workdir: &str,
        _probe: &ProbeResult,
        params: &JobParams,
    ) -> (r: Vec<Stage>) {
        let out_ext = keep_ext(input);
        if str_eq(out_ext.as_str(), "webp") {
            let args = webp_args(input, output, params.image_quality, None);
            let r = one_stage(Stage::ffmpeg(args, 100));
            assert(stages_view(r@) =~= image_compress_stages(input@, output@, *params));
            return r;
        }
        let r = one_stage(sips_encode(input, output, out_ext.as_str(), params.image_quality));
        assert(stages_view(r@) =~= image_compress_stages(input@, output@, *params));
        r
    }
}

} // verus!
