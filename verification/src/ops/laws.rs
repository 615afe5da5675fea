//! What the operations' command lines are for, stated over their argument
//! lists for every input: the audio a compressed video keeps, the encoder a
//! conversion asks for, the frame rate and width of both GIF stages, the
//! format an image conversion writes, and the bound a resize applies.

use super::compress::passlog_path;
use super::{stages_spec, ImageFormat, JobParams, OpId, Tool, VideoCodec};
use crate::probe::ProbeView;
use crate::text::dec;
use vstd::prelude::*;

verus! {

/// `a` is immediately followed by `b` somewhere in `args`.
pub open spec fn has_pair(args: Seq<Seq<char>>, a: Seq<char>, b: Seq<char>) -> bool {
    exists|i: int| #![trigger args[i]] 0 <= i && i + 1 < args.len() && args[i] == a && args[i + 1] == b
}

/// No argument of `args` is `v`.
pub open spec fn lacks(args: Seq<Seq<char>>, v: Seq<char>) -> bool {
    forall|i: int| 0 <= i < args.len() ==> args[i] != v
}

proof fn lemma_pair_at(args: Seq<Seq<char>>, i: int, a: Seq<char>, b: Seq<char>)
    requires
        0 <= i,
        i + 1 < args.len(),
        args[i] == a,
        args[i + 1] == b,
    ensures
        has_pair(args, a, b),
{
}

/// A decimal spelling starts with a digit.
proof fn lemma_dec_head(n: nat)
    ensures
        dec(n).len() >= 1,
        '0' <= dec(n)[0] <= '9',
    decreases n,
{
    if n >= 10 {
        lemma_dec_head(n / 10);
    }
}

/// The lengths and telling characters of the arguments the compress stages
/// spell out, so that none is mistaken for `-an` or `-c:a`.
proof fn lemma_compress_spellings()
    ensures
        "-an"@.len() == 3 && "-an"@[0] == '-' && "-an"@[1] == 'a',
        "-c:a"@.len() == 4 && "-c:a"@[0] == '-' && "-c:a"@[1] == 'c' && "-c:a"@[2] == ':'
            && "-c:a"@[3] == 'a',
        "aac"@.len() == 3 && "aac"@[0] == 'a',
        "-b:a"@.len() == 4 && "-b:a"@[1] == 'b',
        "128k"@.len() == 4 && "128k"@[0] == '1',
        "-hide_banner"@.len() == 12,
        "-nostdin"@.len() == 8,
        "-y"@.len() == 2,
        "-i"@.len() == 2,
        "-progress"@.len() == 9,
        "pipe:1"@.len() == 6,
        "-nostats"@.len() == 8,
        "-c:v"@.len() == 4 && "-c:v"@[3] == 'v',
        "libx264"@.len() == 7,
        "-crf"@.len() == 4 && "-crf"@[2] == 'r',
        "-b:v"@.len() == 4 && "-b:v"@[1] == 'b',
        "-pass"@.len() == 5,
        "2"@.len() == 1,
        "-passlogfile"@.len() == 12,
        "-preset"@.len() == 7,
        "medium"@.len() == 6,
        "-pix_fmt"@.len() == 8,
        "yuv420p"@.len() == 7,
        "-movflags"@.len() == 9,
        "+faststart"@.len() == 10,
        "k"@.len() == 1,
{
    reveal_strlit("-an");
    reveal_strlit("-c:a");
    reveal_strlit("aac");
    reveal_strlit("-b:a");
    reveal_strlit("128k");
    reveal_strlit("-hide_banner");
    reveal_strlit("-nostdin");
    reveal_strlit("-y");
    reveal_strlit("-i");
    reveal_strlit("-progress");
    reveal_strlit("pipe:1");
    reveal_strlit("-nostats");
    reveal_strlit("-c:v");
    reveal_strlit("libx264");
    reveal_strlit("-crf");
    reveal_strlit("-b:v");
    reveal_strlit("-pass");
    reveal_strlit("2");
    reveal_strlit("-passlogfile");
    reveal_strlit("-preset");
    reveal_strlit("medium");
    reveal_strlit("-pix_fmt");
    reveal_strlit("yuv420p");
    reveal_strlit("-movflags");
    reveal_strlit("+faststart");
    reveal_strlit("k");
}

/// Compressing keeps the source's sound: with audio, the stage that writes
/// the output encodes it as 128 kbps AAC and never drops it with `-an`;
/// without audio, that stage drops the audio and asks for no AAC. (Paths that
/// are themselves spelled `-an` or `-c:a` are left out.)
pub proof fn lemma_compress_keeps_audio(
    input: Seq<char>,
    output: Seq<char>,
    workdir: Seq<char>,
    probe: ProbeView,
    params: JobParams,
)
    requires
        input != "-an"@ && input != "-c:a"@,
        output != "-an"@ && output != "-c:a"@,
        passlog_path(workdir) != "-an"@ && passlog_path(workdir) != "-c:a"@,
    ensures
        ({
            let s = stages_spec(OpId::Compress, input, output, workdir, probe, params);
            let a = s.last().args;
            &&& s.len() >= 1
            &&& a.last() == output
            &&& probe.has_audio ==> has_pair(a, "-c:a"@, "aac"@) && has_pair(a, "-b:a"@, "128k"@)
                && lacks(a, "-an"@)
            &&& !probe.has_audio ==> a.contains("-an"@) && lacks(a, "-c:a"@)
        }),
{
    lemma_compress_spellings();
    lemma_dec_head(params.crf as nat);
    let k = crate::ops::compress::target_kbps_spec(
        params.target_kb,
        probe.duration_us as i64,
        probe.has_audio,
    );
    lemma_dec_head(k);
    let s = stages_spec(OpId::Compress, input, output, workdir, probe, params);
    let a = s.last().args;
    let rate = crate::ops::compress::video_rate(probe, params);
    assert(rate[0] == dec(k)[0]);
    match params.compress_mode {
        crate::ops::CompressMode::Crf => {
            let c = dec(params.crf as nat);
            if probe.has_audio {
                assert(a =~= seq![
                    "-hide_banner"@, "-nostdin"@, "-y"@, "-i"@, input, "-progress"@, "pipe:1"@,
                    "-nostats"@, "-c:v"@, "libx264"@, "-crf"@, c, "-preset"@, "medium"@,
                    "-pix_fmt"@, "yuv420p"@, "-c:a"@, "aac"@, "-b:a"@, "128k"@, "-movflags"@,
                    "+faststart"@, output,
                ]);
                lemma_pair_at(a, 16, "-c:a"@, "aac"@);
                lemma_pair_at(a, 18, "-b:a"@, "128k"@);

            } else {
                assert(a =~= seq![
                    "-hide_banner"@, "-nostdin"@, "-y"@, "-i"@, input, "-progress"@, "pipe:1"@,
                    "-nostats"@, "-c:v"@, "libx264"@, "-crf"@, c, "-preset"@, "medium"@,
                    "-pix_fmt"@, "yuv420p"@, "-an"@, "-movflags"@, "+faststart"@, output,
                ]);
                assert(a[16] == "-an"@);
            }
        },
        crate::ops::CompressMode::TargetSize => {
            let pl = passlog_path(workdir);
            if probe.has_audio {
                assert(a =~= seq![
                    "-hide_banner"@, "-nostdin"@, "-y"@, "-i"@, input, "-progress"@, "pipe:1"@,
                    "-nostats"@, "-c:v"@, "libx264"@, "-b:v"@, rate, "-pass"@, "2"@,
                    "-passlogfile"@, pl, "-preset"@, "medium"@, "-pix_fmt"@, "yuv420p"@, "-c:a"@,
                    "aac"@, "-b:a"@, "128k"@, "-movflags"@, "+faststart"@, output,
                ]);
                lemma_pair_at(a, 20, "-c:a"@, "aac"@);
                lemma_pair_at(a, 22, "-b:a"@, "128k"@);
            } else {
                assert(a =~= seq![
                    "-hide_banner"@, "-nostdin"@, "-y"@, "-i"@, input, "-progress"@, "pipe:1"@,
                    "-nostats"@, "-c:v"@, "libx264"@, "-b:v"@, rate, "-pass"@, "2"@,
                    "-passlogfile"@, pl, "-preset"@, "medium"@, "-pix_fmt"@, "yuv420p"@, "-an"@,
                    "-movflags"@, "+faststart"@, output,
                ]);
                assert(a[20] == "-an"@);
            }
        },
    }
}

/// `v` follows every occurrence of `a` in `args`.
pub open spec fn always_followed_by(args: Seq<Seq<char>>, a: Seq<char>, v: Seq<char>) -> bool {
    forall|i: int| 0 <= i && i + 1 < args.len() && #[trigger] args[i] == a ==> args[i + 1] == v
}

/// The encoder a conversion asks for.
pub open spec fn chosen_encoder(params: JobParams) -> Seq<char> {
    if params.video_codec == VideoCodec::Hevc {
        if params.hw_accel {
            "hevc_videotoolbox"@
        } else {
            "libx265"@
        }
    } else {
        if params.hw_accel {
            "h264_videotoolbox"@
        } else {
            "libx264"@
        }
    }
}

proof fn lemma_convert_spellings()
    ensures
        "-c:v"@.len() == 4 && "-c:v"@[0] == '-' && "-c:v"@[1] == 'c' && "-c:v"@[2] == ':'
            && "-c:v"@[3] == 'v',
        "-tag:v"@.len() == 6 && "-tag:v"@[0] == '-' && "-tag:v"@[1] == 't',
        "-hide_banner"@.len() == 12,
        "-nostdin"@.len() == 8,
        "-y"@.len() == 2,
        "-i"@.len() == 2,
        "-progress"@.len() == 9,
        "pipe:1"@.len() == 6 && "pipe:1"@[0] == 'p',
        "-nostats"@.len() == 8,
        "-vf"@.len() == 3,
        "scale=-2:min(ih\\,"@.len() >= 1 && "scale=-2:min(ih\\,"@[0] == 's',
        "libx264"@.len() == 7,
        "libx265"@.len() == 7,
        "h264_videotoolbox"@.len() == 17,
        "hevc_videotoolbox"@.len() == 17,
        "-crf"@.len() == 4 && "-crf"@[2] == 'r',
        "-q:v"@.len() == 4 && "-q:v"@[1] == 'q',
        "60"@.len() == 2,
        "-preset"@.len() == 7,
        "medium"@.len() == 6 && "medium"@[0] == 'm',
        "-pix_fmt"@.len() == 8,
        "yuv420p"@.len() == 7,
        "hvc1"@.len() == 4 && "hvc1"@[0] == 'h',
        "-c:a"@.len() == 4 && "-c:a"@[3] == 'a',
        "aac"@.len() == 3,
        "-b:a"@.len() == 4 && "-b:a"@[1] == 'b',
        "192k"@.len() == 4 && "192k"@[0] == '1',
        "-an"@.len() == 3,
        "-movflags"@.len() == 9,
        "+faststart"@.len() == 10,
{
    reveal_strlit("-c:v");
    reveal_strlit("-tag:v");
    reveal_strlit("-hide_banner");
    reveal_strlit("-nostdin");
    reveal_strlit("-y");
    reveal_strlit("-i");
    reveal_strlit("-progress");
    reveal_strlit("pipe:1");
    reveal_strlit("-nostats");
    reveal_strlit("-vf");
    reveal_strlit("scale=-2:min(ih\\,");
    reveal_strlit("libx264");
    reveal_strlit("libx265");
    reveal_strlit("h264_videotoolbox");
    reveal_strlit("hevc_videotoolbox");
    reveal_strlit("-crf");
    reveal_strlit("-q:v");
    reveal_strlit("60");
    reveal_strlit("-preset");
    reveal_strlit("medium");
    reveal_strlit("-pix_fmt");
    reveal_strlit("yuv420p");
    reveal_strlit("hvc1");
    reveal_strlit("-c:a");
    reveal_strlit("aac");
    reveal_strlit("-b:a");
    reveal_strlit("192k");
    reveal_strlit("-an");
    reveal_strlit("-movflags");
    reveal_strlit("+faststart");
}

proof fn lemma_lacks_concat(p: Seq<Seq<char>>, q: Seq<Seq<char>>, x: Seq<char>)
    requires
        lacks(p, x),
        lacks(q, x),
    ensures
        lacks(p + q, x),
{
    assert forall|i: int| 0 <= i < (p + q).len() implies (p + q)[i] != x by {
        if i < p.len() {
            assert((p + q)[i] == p[i]);
        } else {
            assert((p + q)[i] == q[i - p.len()]);
        }
    }
}

/// A pair inside the middle piece is a pair of the whole list.
proof fn lemma_pair_in_middle(
    p: Seq<Seq<char>>,
    v: Seq<Seq<char>>,
    r: Seq<Seq<char>>,
    x: Seq<char>,
    y: Seq<char>,
)
    requires
        has_pair(v, x, y),
    ensures
        has_pair(p + v + r, x, y),
{
    let i = choose|i: int| #![trigger v[i]] 0 <= i && i + 1 < v.len() && v[i] == x && v[i + 1] == y;
    let w = p + v + r;
    assert(w[p.len() + i] == v[i]);
    assert(w[p.len() + i + 1] == v[i + 1]);
    lemma_pair_at(w, p.len() + i, x, y);
}

/// `x` stands only at the start of the middle piece, followed by `e`.
proof fn lemma_followed_in_middle(
    p: Seq<Seq<char>>,
    v: Seq<Seq<char>>,
    r: Seq<Seq<char>>,
    x: Seq<char>,
    e: Seq<char>,
)
    requires
        lacks(p, x),
        lacks(r, x),
        v.len() >= 2,
        v[0] == x,
        v[1] == e,
        forall|i: int| 1 <= i < v.len() ==> v[i] != x,
    ensures
        always_followed_by(p + v + r, x, e),
        has_pair(p + v + r, x, e),
{
    let w = p + v + r;
    assert forall|i: int| 0 <= i && i + 1 < w.len() && #[trigger] w[i] == x implies w[i + 1] == e by {
        if i < p.len() {
            assert(w[i] == p[i]);
        } else if i < p.len() + v.len() {
            assert(w[i] == v[i - p.len()]);
            assert(i == p.len());
            assert(w[i + 1] == v[1]);
        } else {
            assert(w[i] == r[i - p.len() - v.len()]);
        }
    }
    assert(w[p.len() as int] == v[0]);
    assert(w[p.len() as int + 1] == v[1]);
    lemma_pair_at(w, p.len() as int, x, e);
}

proof fn lemma_convert_head(input: Seq<char>, params: JobParams)
    requires
        input != "-c:v"@ && input != "-tag:v"@,
    ensures
        ({
            let pre = crate::ops::base_args_spec(input) + crate::ops::progress_args_spec()
                + crate::ops::convert::scale_args_spec(params);
            lacks(pre, "-c:v"@) && lacks(pre, "-tag:v"@)
        }),
{
    lemma_convert_spellings();
    let pre = crate::ops::base_args_spec(input) + crate::ops::progress_args_spec()
        + crate::ops::convert::scale_args_spec(params);
    match params.max_height {
        Some(h) => {
            let sc = "scale=-2:min(ih\\,"@ + dec(h as nat) + ")"@;
            assert(sc[0] == 's');
            assert(pre =~= seq![
                "-hide_banner"@, "-nostdin"@, "-y"@, "-i"@, input, "-progress"@, "pipe:1"@,
                "-nostats"@, "-vf"@, sc,
            ]);
        },
        None => {
            assert(pre =~= seq![
                "-hide_banner"@, "-nostdin"@, "-y"@, "-i"@, input, "-progress"@, "pipe:1"@,
                "-nostats"@,
            ]);
        },
    }
}

proof fn lemma_convert_tail(output: Seq<char>, has_audio: bool)
    requires
        output != "-c:v"@ && output != "-tag:v"@,
    ensures
        ({
            let rest = crate::ops::convert::convert_audio_args(has_audio) + seq![
                "-movflags"@,
                "+faststart"@,
                output,
            ];
            lacks(rest, "-c:v"@) && lacks(rest, "-tag:v"@)
        }),
{
    lemma_convert_spellings();
    let rest = crate::ops::convert::convert_audio_args(has_audio) + seq![
        "-movflags"@,
        "+faststart"@,
        output,
    ];
    if has_audio {
        assert(rest =~= seq!["-c:a"@, "aac"@, "-b:a"@, "192k"@, "-movflags"@, "+faststart"@, output]);
    } else {
        assert(rest =~= seq!["-an"@, "-movflags"@, "+faststart"@, output]);
    }
}

proof fn lemma_convert_codec(params: JobParams)
    ensures
        ({
            let v = crate::ops::convert::video_codec_args_spec(params);
            &&& v.len() >= 2
            &&& v[0] == "-c:v"@
            &&& v[1] == chosen_encoder(params)
            &&& forall|i: int| 1 <= i < v.len() ==> v[i] != "-c:v"@
            &&& params.video_codec == VideoCodec::Hevc ==> has_pair(v, "-tag:v"@, "hvc1"@)
            &&& params.video_codec == VideoCodec::H264 ==> lacks(v, "-tag:v"@)
        }),
{
    lemma_convert_spellings();
    lemma_dec_head(params.crf as nat);
    let v = crate::ops::convert::video_codec_args_spec(params);
    let c = dec(params.crf as nat);
    match (params.video_codec, params.hw_accel) {
        (VideoCodec::H264, false) => {
            assert(v =~= seq!["-c:v"@, "libx264"@, "-crf"@, c, "-preset"@, "medium"@, "-pix_fmt"@, "yuv420p"@]);
        },
        (VideoCodec::Hevc, false) => {
            assert(v =~= seq!["-c:v"@, "libx265"@, "-crf"@, c, "-preset"@, "medium"@, "-tag:v"@, "hvc1"@]);
            lemma_pair_at(v, 6, "-tag:v"@, "hvc1"@);
        },
        (VideoCodec::H264, true) => {
            assert(v =~= seq!["-c:v"@, "h264_videotoolbox"@, "-q:v"@, "60"@]);
        },
        (VideoCodec::Hevc, true) => {
            assert(v =~= seq!["-c:v"@, "hevc_videotoolbox"@, "-q:v"@, "60"@, "-tag:v"@, "hvc1"@]);
            lemma_pair_at(v, 4, "-tag:v"@, "hvc1"@);
        },
    }
}

/// A conversion encodes with the codec that was chosen: whatever follows
/// `-c:v` is libx264 or h264_videotoolbox for H.264 and libx265 or
/// hevc_videotoolbox for HEVC (the hardware one exactly when hardware
/// encoding was asked for), and an HEVC stream is tagged `hvc1` while an
/// H.264 one is not tagged. (Paths spelled `-c:v` or `-tag:v` are left out.)
pub proof fn lemma_convert_encodes_the_chosen_codec(
    input: Seq<char>,
    output: Seq<char>,
    workdir: Seq<char>,
    probe: ProbeView,
    params: JobParams,
)
    requires
        input != "-c:v"@ && input != "-tag:v"@,
        output != "-c:v"@ && output != "-tag:v"@,
    ensures
        ({
            let s = stages_spec(OpId::Convert, input, output, workdir, probe, params);
            let a = s[0].args;
            &&& s.len() == 1
            &&& s[0].tool == Tool::Ffmpeg
            &&& has_pair(a, "-c:v"@, chosen_encoder(params))
            &&& always_followed_by(a, "-c:v"@, chosen_encoder(params))
            &&& params.video_codec == VideoCodec::Hevc ==> has_pair(a, "-tag:v"@, "hvc1"@)
            &&& params.video_codec == VideoCodec::H264 ==> lacks(a, "-tag:v"@)
        }),
{
    let s = stages_spec(OpId::Convert, input, output, workdir, probe, params);
    let a = s[0].args;
    let pre = crate::ops::base_args_spec(input) + crate::ops::progress_args_spec()
        + crate::ops::convert::scale_args_spec(params);
    let v = crate::ops::convert::video_codec_args_spec(params);
    let rest = crate::ops::convert::convert_audio_args(probe.has_audio) + seq![
        "-movflags"@,
        "+faststart"@,
        output,
    ];
    assert(a =~= pre + v + rest);
    lemma_convert_head(input, params);
    lemma_convert_tail(output, probe.has_audio);
    lemma_convert_codec(params);
    lemma_followed_in_middle(pre, v, rest, "-c:v"@, chosen_encoder(params));
    if params.video_codec == VideoCodec::Hevc {
        lemma_pair_in_middle(pre, v, rest, "-tag:v"@, "hvc1"@);
    } else {
        lemma_lacks_concat(pre, v, "-tag:v"@);
        lemma_lacks_concat(pre + v, rest, "-tag:v"@);
    }
}

// ---- GIF --------------------------------------------------------------------------

/// `flag` is followed somewhere in `args` by a value that starts with `prefix`.
pub open spec fn flag_value_starts(args: Seq<Seq<char>>, flag: Seq<char>, prefix: Seq<char>) -> bool {
    exists|i: int|
        #![trigger args[i]]
        0 <= i && i + 1 < args.len() && args[i] == flag && prefix.len() <= args[i + 1].len()
            && args[i + 1].take(prefix.len() as int) == prefix
}

/// The frame rate and width a GIF filter starts with.
pub open spec fn gif_rate_and_width(params: JobParams) -> Seq<char> {
    "fps="@ + dec(params.gif_fps as nat) + ",scale="@ + dec(params.gif_width as nat) + ":"@
}

proof fn lemma_gif_filter_prefix(fps: u32, width: u32, tail: Seq<char>)
    ensures
        ({
            let f = crate::ops::gif::gif_filter(fps, width, tail);
            let p = "fps="@ + dec(fps as nat) + ",scale="@ + dec(width as nat) + ":"@;
            p.len() <= f.len() && f.take(p.len() as int) == p
        }),
{
    reveal_strlit(":");
    reveal_strlit(":-1:flags=lanczos");
    let q = "fps="@ + dec(fps as nat) + ",scale="@ + dec(width as nat);
    let f = crate::ops::gif::gif_filter(fps, width, tail);
    let p = q + ":"@;
    assert(f =~= q + ":-1:flags=lanczos"@ + tail);
    assert(f.take(p.len() as int) =~= p);
}

/// Both GIF stages use the frame rate and width that were asked for: the
/// palette stage's `-vf` filter and the render stage's `-lavfi` filter each
/// start with `fps=<gif_fps>,scale=<gif_width>:`; the palette stage writes
/// the palette the render stage reads, and the render stage writes the output.
pub proof fn lemma_gif_uses_requested_rate_and_width(
    input: Seq<char>,
    output: Seq<char>,
    workdir: Seq<char>,
    probe: ProbeView,
    params: JobParams,
)
    ensures
        ({
            let s = stages_spec(OpId::Gif, input, output, workdir, probe, params);
            let pal = crate::ops::gif::palette_path(workdir);
            &&& s.len() == 2
            &&& flag_value_starts(s[0].args, "-vf"@, gif_rate_and_width(params))
            &&& flag_value_starts(s[1].args, "-lavfi"@, gif_rate_and_width(params))
            &&& s[0].args.last() == pal
            &&& has_pair(s[1].args, "-i"@, pal)
            &&& s[1].args.last() == output
        }),
{
    let s = stages_spec(OpId::Gif, input, output, workdir, probe, params);
    let pal = crate::ops::gif::palette_path(workdir);
    let a0 = s[0].args;
    let a1 = s[1].args;
    let f0 = crate::ops::gif::gif_filter(params.gif_fps, params.gif_width, ",palettegen"@);
    let f1 = crate::ops::gif::gif_filter(
        params.gif_fps,
        params.gif_width,
        "[x];[x][1:v]paletteuse"@,
    );
    assert(a0 =~= seq![
        "-hide_banner"@, "-nostdin"@, "-y"@, "-i"@, input, "-progress"@, "pipe:1"@, "-nostats"@,
        "-vf"@, f0, pal,
    ]);
    assert(a1 =~= seq![
        "-hide_banner"@, "-nostdin"@, "-y"@, "-i"@, input, "-i"@, pal, "-progress"@, "pipe:1"@,
        "-nostats"@, "-lavfi"@, f1, "-loop"@, "0"@, output,
    ]);
    lemma_gif_filter_prefix(params.gif_fps, params.gif_width, ",palettegen"@);
    lemma_gif_filter_prefix(params.gif_fps, params.gif_width, "[x];[x][1:v]paletteuse"@);
    assert(a0[8] == "-vf"@ && a0[9] == f0);
    assert(a1[10] == "-lavfi"@ && a1[11] == f1);
    lemma_pair_at(a1, 5, "-i"@, pal);
}

// ---- images -------------------------------------------------------------------------

proof fn lemma_image_spellings()
    ensures
        "format"@.len() == 6 && "format"@[0] == 'f',
        "-s"@.len() == 2,
        "--out"@.len() == 5,
        "formatOptions"@.len() == 13,
        "png"@.len() == 3 && "png"@[0] == 'p',
        "jpg"@.len() == 3 && "jpg"@[0] == 'j',
        "jpeg"@.len() == 4 && "jpeg"@[0] == 'j',
        "gif"@.len() == 3 && "gif"@[0] == 'g',
        "tif"@.len() == 3 && "tif"@[0] == 't',
        "tiff"@.len() == 4 && "tiff"@[0] == 't',
        "-Z"@.len() == 2,
        "webp"@.len() == 4,
{
    reveal_strlit("format");
    reveal_strlit("-s");
    reveal_strlit("--out");
    reveal_strlit("formatOptions");
    reveal_strlit("png");
    reveal_strlit("jpg");
    reveal_strlit("jpeg");
    reveal_strlit("gif");
    reveal_strlit("tif");
    reveal_strlit("tiff");
    reveal_strlit("-Z");
    reveal_strlit("webp");
}

/// The sips format an image conversion writes.
pub open spec fn written_format(f: ImageFormat) -> Seq<char> {
    match f {
        ImageFormat::Png => "png"@,
        _ => "jpeg"@,
    }
}

/// An image conversion writes the format it names: to PNG or JPG it is one
/// sips stage whose `format` is `png` or `jpeg` (and nothing else follows
/// `format`), writing the output; to WebP its last stage is an ffmpeg libwebp
/// encode writing the output. (Paths spelled `format` are left out.)
pub proof fn lemma_image_convert_writes_the_named_format(
    input: Seq<char>,
    output: Seq<char>,
    workdir: Seq<char>,
    probe: ProbeView,
    params: JobParams,
)
    requires
        input != "format"@,
        output != "format"@,
    ensures
        ({
            let s = stages_spec(OpId::ImageConvert, input, output, workdir, probe, params);
            &&& s.len() >= 1
            &&& s.last().args.last() == output
            &&& params.image_format != ImageFormat::Webp ==> {
                &&& s.len() == 1
                &&& s[0].tool == Tool::Sips
                &&& has_pair(s[0].args, "format"@, written_format(params.image_format))
                &&& always_followed_by(s[0].args, "format"@, written_format(params.image_format))
            }
            &&& params.image_format == ImageFormat::Webp ==> {
                &&& s.last().tool == Tool::Ffmpeg
                &&& has_pair(s.last().args, "-c:v"@, "libwebp"@)
            }
        }),
{
    lemma_image_spellings();
    let s = stages_spec(OpId::ImageConvert, input, output, workdir, probe, params);
    match params.image_format {
        ImageFormat::Png => {
            let a = s[0].args;
            assert(a =~= seq!["-s"@, "format"@, "png"@, input, "--out"@, output]);
            lemma_pair_at(a, 1, "format"@, "png"@);
        },
        ImageFormat::Jpg => {
            let a = s[0].args;
            let q = dec(crate::ops::images::clamp_quality(params.image_quality));
            lemma_dec_head(crate::ops::images::clamp_quality(params.image_quality));
            assert(a =~= seq![
                "-s"@, "format"@, "jpeg"@, "-s"@, "formatOptions"@, q, input, "--out"@, output,
            ]);
            lemma_pair_at(a, 1, "format"@, "jpeg"@);
        },
        ImageFormat::Webp => {
            let a = s.last().args;
            let src = crate::ops::images::webp_source_input(input, workdir);
            let q = dec(crate::ops::images::clamp_quality(params.image_quality));
            assert(a =~= seq![
                "-hide_banner"@, "-nostdin"@, "-y"@, "-i"@, src, "-progress"@, "pipe:1"@,
                "-nostats"@, "-c:v"@, "libwebp"@, "-quality"@, q, "-frames:v"@, "1"@, output,
            ]);
            lemma_pair_at(a, 8, "-c:v"@, "libwebp"@);
        },
    }
}

/// A resize bounds the output by the maximum dimension, whichever tool does
/// it: a sips stage carries `-Z <image_max_dim>`, and an ffmpeg stage (WebP
/// sources) carries `-vf` with the fit-within-`image_max_dim` scale filter;
/// either way it is one stage writing the output.
pub proof fn lemma_image_resize_bounds_the_size(
    input: Seq<char>,
    output: Seq<char>,
    workdir: Seq<char>,
    probe: ProbeView,
    params: JobParams,
)
    ensures
        ({
            let s = stages_spec(OpId::ImageResize, input, output, workdir, probe, params);
            let a = s[0].args;
            &&& s.len() == 1
            &&& a.last() == output
            &&& s[0].tool == Tool::Sips || s[0].tool == Tool::Ffmpeg
            &&& s[0].tool == Tool::Sips ==> has_pair(a, "-Z"@, dec(params.image_max_dim as nat))
            &&& s[0].tool == Tool::Ffmpeg ==> has_pair(
                a,
                "-vf"@,
                crate::ops::images::scale_filter_spec(params.image_max_dim),
            )
        }),
{
    let s = stages_spec(OpId::ImageResize, input, output, workdir, probe, params);
    let a = s[0].args;
    let e = crate::ops::images::keep_ext_spec(input);
    if e == "webp"@ {
        let f = crate::ops::images::scale_filter_spec(params.image_max_dim);
        assert(a =~= seq![
            "-hide_banner"@, "-nostdin"@, "-y"@, "-i"@, input, "-progress"@, "pipe:1"@,
            "-nostats"@, "-vf"@, f, "-c:v"@, "libwebp"@, "-quality"@, dec(
                crate::ops::images::clamp_quality(90),
            ), "-frames:v"@, "1"@, output,
        ]);
        lemma_pair_at(a, 8, "-vf"@, f);
    } else {
        lemma_pair_at(a, 0, "-Z"@, dec(params.image_max_dim as nat));
    }
}

} // verus!
