//! The operation registry.
//!
//! Each operation knows its label, the suffix + extension of its output, and
//! how to build the sequence of tool invocations ("stages") that carry it out.
//! The set of ops is data the UI reads to build its preset menu.

use crate::paths::ext_lower;
use crate::probe::{ProbeResult, ProbeView};
use vstd::prelude::*;
use vstd::std_specs::cmp::PartialEqSpecImpl;

pub mod audio;
pub mod compress;
pub mod convert;
pub mod gif;
pub mod images;
pub mod laws;
pub mod sheets;

verus! {

/// Stable operation ids; their numbers cross the FFI boundary as `u32`.
#[derive(Debug, Clone, Copy, PartialEq, Eq, Structural)]
pub enum OpId {
    Convert,
    Compress,
    ExtractAudio,
    Gif,
    ImageConvert,
    ImageResize,
    ImageCompress,
    SheetToXlsx,
    SheetToCsv,
}

/// The number of `OpId` `v`, if any.
pub open spec fn op_of_code(v: u32) -> Option<OpId> {
    if v == 0 {
        Some(OpId::Convert)
    } else if v == 1 {
        Some(OpId::Compress)
    } else if v == 2 {
        Some(OpId::ExtractAudio)
    } else if v == 3 {
        Some(OpId::Gif)
    } else if v == 4 {
        Some(OpId::ImageConvert)
    } else if v == 5 {
        Some(OpId::ImageResize)
    } else if v == 6 {
        Some(OpId::ImageCompress)
    } else if v == 7 {
        Some(OpId::SheetToXlsx)
    } else if v == 8 {
        Some(OpId::SheetToCsv)
    } else {
        None
    }
}

impl OpId {
    /// The stable number of this operation.
    pub open spec fn code(self) -> u32 {
        match self {
            OpId::Convert => 0,
            OpId::Compress => 1,
            OpId::ExtractAudio => 2,
            OpId::Gif => 3,
            OpId::ImageConvert => 4,
            OpId::ImageResize => 5,
            OpId::ImageCompress => 6,
            OpId::SheetToXlsx => 7,
            OpId::SheetToCsv => 8,
        }
    }

    /// The stable number of this operation.
    pub fn as_u32(self) -> (r: u32)
        ensures
            r == self.code(),
    {
        match self {
            OpId::Convert => 0,
            OpId::Compress => 1,
            OpId::ExtractAudio => 2,
            OpId::Gif => 3,
            OpId::ImageConvert => 4,
            OpId::ImageResize => 5,
            OpId::ImageCompress => 6,
            OpId::SheetToXlsx => 7,
            OpId::SheetToCsv => 8,
        }
    }

    /// The operation with number `v`, if there is one.
    pub fn from_u32(v: u32) -> (r: Option<OpId>)
        ensures
            r == op_of_code(v),
    {
        match v {
            0 => Some(OpId::Convert),
            1 => Some(OpId::Compress),
            2 => Some(OpId::ExtractAudio),
            3 => Some(OpId::Gif),
            4 => Some(OpId::ImageConvert),
            5 => Some(OpId::ImageResize),
            6 => Some(OpId::ImageCompress),
            7 => Some(OpId::SheetToXlsx),
            8 => Some(OpId::SheetToCsv),
            _ => None,
        }
    }
}

/// Ids are stable: an operation's number leads back to it, and every number
/// that names an operation is that operation's number; exactly the numbers
/// below 9 name operations.
pub proof fn lemma_op_id_roundtrip(id: OpId, v: u32)
    ensures
        op_of_code(id.code()) == Some(id),
        op_of_code(v) matches Some(x) ==> x.code() == v,
        op_of_code(v) is Some <==> v < 9,
{
}

/// Which program runs a stage.
#[derive(Debug, Clone, Copy, PartialEq, Eq, Structural)]
pub enum Tool {
    Ffmpeg,
    Sips,
    Python,
}

/// One tool invocation within an operation. `weight_pct` is this stage's share
/// of overall progress, in percent; an op's stages add up to 100.
#[derive(Debug, Clone)]
pub struct Stage {
    pub tool: Tool,
    pub args: Vec<String>,
    pub weight_pct: u32,
}

/// The views of a list of arguments.
pub open spec fn args_view(v: Seq<String>) -> Seq<Seq<char>> {
    v.map_values(|s: String| s@)
}

/// The mathematical view of a [`Stage`].
pub struct StageSpec {
    pub tool: Tool,
    pub args: Seq<Seq<char>>,
    pub weight_pct: nat,
}

impl View for Stage {
    type V = StageSpec;

    open spec fn view(&self) -> StageSpec {
        StageSpec { tool: self.tool, args: args_view(self.args@), weight_pct: self.weight_pct as nat }
    }
}

/// The views of a list of stages.
pub open spec fn stages_view(v: Seq<Stage>) -> Seq<StageSpec> {
    v.map_values(|s: Stage| s@)
}

pub open spec fn stage_spec(tool: Tool, args: Seq<Seq<char>>, weight_pct: nat) -> StageSpec {
    StageSpec { tool, args, weight_pct }
}

impl Stage {
    /// An ffmpeg invocation.
    pub fn ffmpeg(args: Vec<String>, weight_pct: u32) -> (r: Stage)
        ensures
            r@ == stage_spec(Tool::Ffmpeg, args_view(args@), weight_pct as nat),
    {
        Stage { tool: Tool::Ffmpeg, args, weight_pct }
    }

    /// A macOS `sips` invocation.
    pub fn sips(args: Vec<String>, weight_pct: u32) -> (r: Stage)
        ensures
            r@ == stage_spec(Tool::Sips, args_view(args@), weight_pct as nat),
    {
        Stage { tool: Tool::Sips, args, weight_pct }
    }

    /// A `python3` invocation.
    pub fn python(args: Vec<String>, weight_pct: u32) -> (r: Stage)
        ensures
            r@ == stage_spec(Tool::Python, args_view(args@), weight_pct as nat),
    {
        Stage { tool: Tool::Python, args, weight_pct }
    }
}

/// The views of two argument lists agree.
fn args_eq(a: &Vec<String>, b: &Vec<String>) -> (r: bool)
    ensures
        r == (args_view(a@) == args_view(b@)),
{
    if a.len() != b.len() {
        assert(args_view(a@).len() != args_view(b@).len());
        return false;
    }
    let mut i: usize = 0;
    while i < a.len()
        invariant
            i <= a.len() == b.len(),
            forall|k: int| 0 <= k < i ==> a@[k]@ == b@[k]@,
        decreases a.len() - i,
    {
        if a[i] != b[i] {
            assert(args_view(a@)[i as int] != args_view(b@)[i as int]);
            return false;
        }
        i = i + 1;
    }
    assert(args_view(a@) =~= args_view(b@));
    true
}

impl PartialEq for Stage {
    fn eq(&self, other: &Self) -> (r: bool) {
        self.tool == other.tool && self.weight_pct == other.weight_pct && args_eq(
            &self.args,
            &other.args,
        )
    }
}

impl PartialEqSpecImpl for Stage {
    open spec fn obeys_eq_spec() -> bool {
        true
    }

    open spec fn eq_spec(&self, other: &Self) -> bool {
        self@ == other@
    }
}

// ---- tunable parameters (the "Advanced" knobs) ---------------------------------

#[derive(Debug, Clone, Copy, PartialEq, Eq, Structural)]
pub enum VideoCodec {
    H264,
    Hevc,
}

#[derive(Debug, Clone, Copy, PartialEq, Eq, Structural)]
pub enum CompressMode {
    TargetSize,
    Crf,
}

#[derive(Debug, Clone, Copy, PartialEq, Eq, Structural)]
pub enum AudioFormat {
    Mp3,
    M4a,
}

#[derive(Debug, Clone, Copy, PartialEq, Eq, Structural)]
pub enum ImageFormat {
    Jpg,
    Png,
    Webp,
}

/// The file extension an image format is written with.
pub open spec fn image_format_ext(f: ImageFormat) -> Seq<char> {
    match f {
        ImageFormat::Jpg => "jpg"@,
        ImageFormat::Png => "png"@,
        ImageFormat::Webp => "webp"@,
    }
}

impl ImageFormat {
    /// The file extension this format is written with.
    pub fn ext(self) -> (r: &'static str)
        ensures
            r@ == image_format_ext(self),
    {
        match self {
            ImageFormat::Jpg => "jpg",
            ImageFormat::Png => "png",
            ImageFormat::Webp => "webp",
        }
    }
}

/// All advanced knobs across all ops in one struct. Each op reads only the
/// fields it cares about; the defaults are the one-tap preset behaviour.
#[derive(Debug, Clone, Copy, PartialEq, Eq, Structural)]
pub struct JobParams {
    // Convert
    pub video_codec: VideoCodec,
    pub crf: u8,
    pub max_height: Option<u32>,
    pub hw_accel: bool,
    // Compress
    pub compress_mode: CompressMode,
    /// Target size in kilobytes (1000 bytes each).
    pub target_kb: u64,
    // Extract audio
    pub audio_format: AudioFormat,
    pub audio_bitrate_k: u32,
    // GIF
    pub gif_fps: u32,
    pub gif_width: u32,
    // Images
    pub image_format: ImageFormat,
    pub image_quality: u32,
    pub image_max_dim: u32,
}

/// The one-tap preset values.
pub open spec fn default_params() -> JobParams {
    JobParams {
        video_codec: VideoCodec::H264,
        crf: 20,
        max_height: None,
        hw_accel: false,
        compress_mode: CompressMode::TargetSize,
        target_kb: 25000,
        audio_format: AudioFormat::Mp3,
        audio_bitrate_k: 192,
        gif_fps: 12,
        gif_width: 480,
        image_format: ImageFormat::Jpg,
        image_quality: 80,
        image_max_dim: 2048,
    }
}

impl Default for JobParams {
    fn default() -> (r: JobParams)
        ensures
            r == default_params(),
    {
        JobParams {
            video_codec: VideoCodec::H264,
            crf: 20,
            max_height: None,
            hw_accel: false,
            compress_mode: CompressMode::TargetSize,
            target_kb: 25000,
            audio_format: AudioFormat::Mp3,
            audio_bitrate_k: 192,
            gif_fps: 12,
            gif_width: 480,
            image_format: ImageFormat::Jpg,
            image_quality: 80,
            image_max_dim: 2048,
        }
    }
}

// ---- argument lists ------------------------------------------------------------

/// Common leading args for every ffmpeg invocation: quiet banner, no stdin,
/// overwrite output (a collision-free name was already chosen), and the input.
pub open spec fn base_args_spec(input: Seq<char>) -> Seq<Seq<char>> {
    seq!["-hide_banner"@, "-nostdin"@, "-y"@, "-i"@, input]
}

/// Machine-readable progress on stdout.
pub open spec fn progress_args_spec() -> Seq<Seq<char>> {
    seq!["-progress"@, "pipe:1"@, "-nostats"@]
}

/// Appends the text `a` to `args`.
pub fn push_lit(args: &mut Vec<String>, a: &str)
    ensures
        args_view(final(args)@) == args_view(old(args)@).push(a@),
{
    let s = crate::text::owned(a);
    args.push(s);
    assert(args_view(final(args)@) =~= args_view(old(args)@).push(a@));
}

/// Appends `a` to `args`.
pub fn push_arg(args: &mut Vec<String>, a: String)
    ensures
        args_view(final(args)@) == args_view(old(args)@).push(a@),
{
    args.push(a);
    assert(args_view(final(args)@) =~= args_view(old(args)@).push(a@));
}

/// Appends every argument of `more` to `args`.
pub fn extend_args(args: &mut Vec<String>, more: Vec<String>)
    ensures
        args_view(final(args)@) == args_view(old(args)@) + args_view(more@),
{
    let ghost added = more@;
    let mut more = more;
    args.append(&mut more);
    assert(args_view(final(args)@) =~= args_view(old(args)@) + args_view(added));
}

/// The leading args of an ffmpeg invocation reading `input`.
pub fn base_args(input: &str) -> (r: Vec<String>)
    ensures
        args_view(r@) == base_args_spec(input@),
{
    let mut r: Vec<String> = Vec::new();
    push_lit(&mut r, "-hide_banner");
    push_lit(&mut r, "-nostdin");
    push_lit(&mut r, "-y");
    push_lit(&mut r, "-i");
    push_lit(&mut r, input);
    assert(args_view(r@) =~= base_args_spec(input@));
    r
}

/// Progress reporting flags appended to a stage that writes real output.
pub fn progress_args() -> (r: Vec<String>)
    ensures
        args_view(r@) == progress_args_spec(),
{
    let mut r: Vec<String> = Vec::new();
    push_lit(&mut r, "-progress");
    push_lit(&mut r, "pipe:1");
    push_lit(&mut r, "-nostats");
    assert(args_view(r@) =~= progress_args_spec());
    r
}


// ---- the operations ------------------------------------------------------------

/// The label the menu shows for an operation.
pub open spec fn label_spec(id: OpId) -> Seq<char> {
    match id {
        OpId::Convert => "Convert to MP4"@,
        OpId::Compress => "Compress"@,
        OpId::ExtractAudio => "Extract audio"@,
        OpId::Gif => "Make GIF"@,
        OpId::ImageConvert => "Convert"@,
        OpId::ImageResize => "Resize"@,
        OpId::ImageCompress => "Compress"@,
        OpId::SheetToXlsx => "Convert to XLSX"@,
        OpId::SheetToCsv => "Convert to CSV"@,
    }
}

/// The suffix an operation adds to the output's file stem (may be empty).
pub open spec fn suffix_spec(id: OpId) -> Seq<char> {
    match id {
        OpId::Compress => "compressed"@,
        OpId::ImageResize => "resized"@,
        OpId::ImageCompress => "compressed"@,
        _ => Seq::<char>::empty(),
    }
}

/// The extension (without the dot) of an operation's output.
pub open spec fn output_ext_spec(id: OpId, input: Seq<char>, params: JobParams) -> Seq<char> {
    match id {
        OpId::Convert => "mp4"@,
        OpId::Compress => "mp4"@,
        OpId::ExtractAudio => audio::audio_ext(params.audio_format),
        OpId::Gif => "gif"@,
        OpId::ImageConvert => image_format_ext(params.image_format),
        OpId::ImageResize => images::keep_ext_spec(input),
        OpId::ImageCompress => images::keep_ext_spec(input),
        OpId::SheetToXlsx => "xlsx"@,
        OpId::SheetToCsv => "csv"@,
    }
}

/// The stages an operation runs to turn `input` into `output`.
pub open spec fn stages_spec(
    id: OpId,
    input: Seq<char>,
    output: Seq<char>,
    workdir: Seq<char>,
    probe: ProbeView,
    params: JobParams,
) -> Seq<StageSpec> {
    match id {
        OpId::Convert => convert::convert_stages(input, output, probe, params),
        OpId::Compress => compress::compress_stages(input, output, workdir, probe, params),
        OpId::ExtractAudio => audio::audio_stages(input, output, params),
        OpId::Gif => gif::gif_stages(input, output, workdir, params),
        OpId::ImageConvert => images::image_convert_stages(input, output, workdir, params),
        OpId::ImageResize => images::image_resize_stages(input, output, params),
        OpId::ImageCompress => images::image_compress_stages(input, output, params),
        OpId::SheetToXlsx => sheets::sheet_stages(input, output),
        OpId::SheetToCsv => sheets::sheet_stages(input, output),
    }
}

/// An operation the app can perform on a dropped file.
pub trait Op {
    /// Which operation this is.
    spec fn kind(&self) -> OpId;

    fn id(&self) -> (r: OpId)
        ensures
            r == self.kind(),
    ;

    fn label(&self) -> (r: &'static str)
        ensures
            r@ == label_spec(self.kind()),
    ;

    /// Suffix added to the output filename stem (may be empty).
    fn output_suffix(&self, params: &JobParams) -> (r: String)
        ensures
            r@ == suffix_spec(self.kind()),
    ;

    /// Output extension without the dot (may depend on the input and params).
    fn output_ext(&self, input: &str, params: &JobParams) -> (r: String)
        ensures
            r@ == output_ext_spec(self.kind(), input@, *params),
    ;

    /// The ordered tool invocations. `workdir` is a scratch dir the op may use
    /// for intermediate files (palette, two-pass log, decoded image).
    fn build_stages(
        &self,
        input: &str,
        output: &str,
        workdir: &str,
        probe: &ProbeResult,
        params: &JobParams,
    ) -> (r: Vec<Stage>)
        ensures
            stages_view(r@) == stages_spec(self.kind(), input@, output@, workdir@, probe@, *params),
    ;
}

/// The label of operation `id`.
pub fn op_label(id: OpId) -> (r: &'static str)
    ensures
        r@ == label_spec(id),
{
    match id {
        OpId::Convert => convert::Convert.label(),
        OpId::Compress => compress::Compress.label(),
        OpId::ExtractAudio => audio::ExtractAudio.label(),
        OpId::Gif => gif::Gif.label(),
        OpId::ImageConvert => images::ImageConvert.label(),
        OpId::ImageResize => images::ImageResize.label(),
        OpId::ImageCompress => images::ImageCompress.label(),
        OpId::SheetToXlsx => sheets::SheetToXlsx.label(),
        OpId::SheetToCsv => sheets::SheetToCsv.label(),
    }
}

/// The output suffix of operation `id`.
pub fn op_output_suffix(id: OpId, params: &JobParams) -> (r: String)
    ensures
        r@ == suffix_spec(id),
{
    match id {
        OpId::Convert => convert::Convert.output_suffix(params),
        OpId::Compress => compress::Compress.output_suffix(params),
        OpId::ExtractAudio => audio::ExtractAudio.output_suffix(params),
        OpId::Gif => gif::Gif.output_suffix(params),
        OpId::ImageConvert => images::ImageConvert.output_suffix(params),
        OpId::ImageResize => images::ImageResize.output_suffix(params),
        OpId::ImageCompress => images::ImageCompress.output_suffix(params),
        OpId::SheetToXlsx => sheets::SheetToXlsx.output_suffix(params),
        OpId::SheetToCsv => sheets::SheetToCsv.output_suffix(params),
    }
}

/// The output extension of operation `id` for `input`.
pub fn op_output_ext(id: OpId, input: &str, params: &JobParams) -> (r: String)
    ensures
        r@ == output_ext_spec(id, input@, *params),
{
    match id {
        OpId::Convert => convert::Convert.output_ext(input, params),
        OpId::Compress => compress::Compress.output_ext(input, params),
        OpId::ExtractAudio => audio::ExtractAudio.output_ext(input, params),
        OpId::Gif => gif::Gif.output_ext(input, params),
        OpId::ImageConvert => images::ImageConvert.output_ext(input, params),
        OpId::ImageResize => images::ImageResize.output_ext(input, params),
        OpId::ImageCompress => images::ImageCompress.output_ext(input, params),
        OpId::SheetToXlsx => sheets::SheetToXlsx.output_ext(input, params),
        OpId::SheetToCsv => sheets::SheetToCsv.output_ext(input, params),
    }
}

/// The stages of operation `id`.
pub fn op_build_stages(
    id: OpId,
    input: &str,
    output: &str,
    workdir: &str,
    probe: &ProbeResult,
    params: &JobParams,
) -> (r: Vec<Stage>)
    ensures
        stages_view(r@) == stages_spec(id, input@, output@, workdir@, probe@, *params),
{
    match id {
        OpId::Convert => convert::Convert.build_stages(input, output, workdir, probe, params),
        OpId::Compress => compress::Compress.build_stages(input, output, workdir, probe, params),
        OpId::ExtractAudio => audio::ExtractAudio.build_stages(input, output, workdir, probe, params),
        OpId::Gif => gif::Gif.build_stages(input, output, workdir, probe, params),
        OpId::ImageConvert => images::ImageConvert.build_stages(input, output, workdir, probe, params),
        OpId::ImageResize => images::ImageResize.build_stages(input, output, workdir, probe, params),
        OpId::ImageCompress => images::ImageCompress.build_stages(input, output, workdir, probe, params),
        OpId::SheetToXlsx => sheets::SheetToXlsx.build_stages(input, output, workdir, probe, params),
        OpId::SheetToCsv => sheets::SheetToCsv.build_stages(input, output, workdir, probe, params),
    }
}

/// One stage list from a single stage.
pub fn one_stage(s: Stage) -> (r: Vec<Stage>)
    ensures
        stages_view(r@) == seq![s@],
{
    let mut r: Vec<Stage> = Vec::new();
    r.push(s);
    assert(stages_view(r@) =~= seq![s@]);
    r
}

/// A stage list from two stages, in order.
pub fn two_stages(a: Stage, b: Stage) -> (r: Vec<Stage>)
    ensures
        stages_view(r@) == seq![a@, b@],
{
    let mut r: Vec<Stage> = Vec::new();
    r.push(a);
    r.push(b);
    assert(stages_view(r@) =~= seq![a@, b@]);
    r
}


// ---- laws over every operation -------------------------------------------------

/// The sum of the stages' progress weights.
pub open spec fn weight_total(s: Seq<StageSpec>) -> nat
    decreases s.len(),
{
    if s.len() == 0 {
        0
    } else {
        weight_total(s.drop_last()) + s.last().weight_pct
    }
}

/// Every operation, on every input, runs at least one stage; its stages'
/// progress weights add up to exactly 100%; and its last stage names the
/// output as its final argument (the op writes where it was told to).
pub proof fn lemma_stages_complete(
    id: OpId,
    input: Seq<char>,
    output: Seq<char>,
    workdir: Seq<char>,
    probe: ProbeView,
    params: JobParams,
)
    ensures
        stages_spec(id, input, output, workdir, probe, params).len() >= 1,
        weight_total(stages_spec(id, input, output, workdir, probe, params)) == 100,
        stages_spec(id, input, output, workdir, probe, params).last().args.len() >= 1,
        stages_spec(id, input, output, workdir, probe, params).last().args.last() == output,
{
    reveal_with_fuel(weight_total, 3);
    let s = stages_spec(id, input, output, workdir, probe, params);
    match id {
        OpId::ImageConvert => {
            if params.image_format == ImageFormat::Webp {
                let src = images::webp_source_stages(input, workdir);
                if src.len() > 0 {
                    assert(s.drop_last() =~= src);
                    assert(weight_total(src) == 40) by {
                        assert(src.drop_last() =~= Seq::<StageSpec>::empty());
                    }
                } else {
                    assert(s.drop_last() =~= Seq::<StageSpec>::empty());
                }
            }
        },
        OpId::Compress => {
            if params.compress_mode == CompressMode::TargetSize {
                assert(s.drop_last().drop_last() =~= Seq::<StageSpec>::empty());
            }
        },
        OpId::Gif => {
            assert(s.drop_last().drop_last() =~= Seq::<StageSpec>::empty());
        },
        _ => {},
    }
}

/// Every ffmpeg invocation any operation builds opens with the same flags:
/// no banner, no stdin, overwrite the (already collision-free) output.
pub proof fn lemma_ffmpeg_stages_quiet(
    id: OpId,
    input: Seq<char>,
    output: Seq<char>,
    workdir: Seq<char>,
    probe: ProbeView,
    params: JobParams,
    i: int,
)
    requires
        0 <= i < stages_spec(id, input, output, workdir, probe, params).len(),
        stages_spec(id, input, output, workdir, probe, params)[i].tool == Tool::Ffmpeg,
    ensures
        stages_spec(id, input, output, workdir, probe, params)[i].args.take(3) == seq![
            "-hide_banner"@,
            "-nostdin"@,
            "-y"@,
        ],
{
    let s = stages_spec(id, input, output, workdir, probe, params);
    let a = s[i].args;
    assert(a.take(3) =~= seq!["-hide_banner"@, "-nostdin"@, "-y"@]);
}

} // verus!
