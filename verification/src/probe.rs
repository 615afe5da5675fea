//! What a dropped file is: extension pre-checks and the interpretation of
//! `ffprobe`'s stream listing. Running `ffprobe` and decoding its JSON happen
//! outside the library; the decoded listing arrives here as [`FfprobeOutput`].

use crate::paths::{ext_lower, ext_of, path_extension, path_extension_of};
use crate::text::{chars_eq_str, lower_seq, read_number, reading, saturate, saturated, str_eq, chars_of};
use vstd::prelude::*;
use vstd::std_specs::cmp::PartialEqSpecImpl;

verus! {

/// What we learn about a dropped file. Everything the UI and the ops need.
#[derive(Debug, Clone)]
pub struct ProbeResult {
    /// A moving picture: a real (non-cover-art) video stream with a duration.
    pub is_video: bool,
    /// A still image: a video stream with no duration (png/jpg/webp/heic…).
    pub is_image: bool,
    /// A spreadsheet (csv/xlsx), recognised by extension.
    pub is_sheet: bool,
    /// Duration in microseconds (0 when unknown).
    pub duration_us: i64,
    pub width: u32,
    pub height: u32,
    pub video_codec: String,
    pub has_audio: bool,
    pub audio_codec: String,
}

/// The mathematical view of a [`ProbeResult`].
pub struct ProbeView {
    pub is_video: bool,
    pub is_image: bool,
    pub is_sheet: bool,
    pub duration_us: int,
    pub width: nat,
    pub height: nat,
    pub video_codec: Seq<char>,
    pub has_audio: bool,
    pub audio_codec: Seq<char>,
}

impl View for ProbeResult {
    type V = ProbeView;

    open spec fn view(&self) -> ProbeView {
        ProbeView {
            is_video: self.is_video,
            is_image: self.is_image,
            is_sheet: self.is_sheet,
            duration_us: self.duration_us as int,
            width: self.width as nat,
            height: self.height as nat,
            video_codec: self.video_codec@,
            has_audio: self.has_audio,
            audio_codec: self.audio_codec@,
        }
    }
}

impl PartialEq for ProbeResult {
    fn eq(&self, other: &Self) -> (r: bool) {
        self.is_video == other.is_video && self.is_image == other.is_image && self.is_sheet
            == other.is_sheet && self.duration_us == other.duration_us && self.width
            == other.width && self.height == other.height && self.video_codec
            == other.video_codec && self.has_audio == other.has_audio && self.audio_codec
            == other.audio_codec
    }
}

impl PartialEqSpecImpl for ProbeResult {
    open spec fn obeys_eq_spec() -> bool {
        true
    }

    open spec fn eq_spec(&self, other: &Self) -> bool {
        self@ == other@
    }
}

/// Nothing we can work with.
pub open spec fn none_view() -> ProbeView {
    ProbeView {
        is_video: false,
        is_image: false,
        is_sheet: false,
        duration_us: 0,
        width: 0,
        height: 0,
        video_codec: Seq::<char>::empty(),
        has_audio: false,
        audio_codec: Seq::<char>::empty(),
    }
}

impl ProbeResult {
    /// Nothing we can work with (audio-only, document, unreadable, …).
    pub fn none() -> (r: ProbeResult)
        ensures
            r@ == none_view(),
    {
        ProbeResult {
            is_video: false,
            is_image: false,
            is_sheet: false,
            duration_us: 0,
            width: 0,
            height: 0,
            video_codec: String::new(),
            has_audio: false,
            audio_codec: String::new(),
        }
    }

    /// A spreadsheet: nothing but the sheet flag set.
    pub fn sheet() -> (r: ProbeResult)
        ensures
            r@ == (ProbeView { is_sheet: true, ..none_view() }),
    {
        ProbeResult {
            is_video: false,
            is_image: false,
            is_sheet: true,
            duration_us: 0,
            width: 0,
            height: 0,
            video_codec: String::new(),
            has_audio: false,
            audio_codec: String::new(),
        }
    }
}

// ---- extension pre-checks ------------------------------------------------------

/// Extensions that may hold video.
pub open spec fn video_exts() -> Seq<Seq<char>> {
    seq![
        "mp4"@, "mov"@, "m4v"@, "webm"@, "mkv"@, "avi"@, "flv"@, "wmv"@, "mpg"@, "mpeg"@,
        "ts"@, "m2ts"@, "3gp"@, "ogv"@,
    ]
}

/// Extensions that may hold a still image.
pub open spec fn image_exts() -> Seq<Seq<char>> {
    seq![
        "jpg"@, "jpeg"@, "png"@, "webp"@, "heic"@, "heif"@, "gif"@, "bmp"@, "tiff"@, "tif"@,
        "tga"@,
    ]
}

/// Spreadsheet extensions.
pub open spec fn sheet_exts() -> Seq<Seq<char>> {
    seq!["csv"@, "xlsx"@]
}

/// The views of a slice of string slices.
pub open spec fn strs_view(s: Seq<&str>) -> Seq<Seq<char>> {
    s.map_values(|x: &str| x@)
}

/// `path`'s extension, lower-cased, is one of `exts`; a path without an
/// extension passes (ffprobe decides).
pub open spec fn ext_in(path: Seq<char>, exts: Seq<Seq<char>>) -> bool {
    match path_extension_of(path) {
        Some(e) => exts.contains(lower_seq(e)),
        None => true,
    }
}

/// Whether `path`'s lower-cased extension is one of `exts`; `true` when it
/// has no extension.
pub fn ext_matches(path: &str, exts: &[&str]) -> (r: bool)
    ensures
        r == ext_in(path@, strs_view(exts@)),
{
    match path_extension(path) {
        None => true,
        Some(_) => {
            let e = ext_of(path);
            let mut i: usize = 0;
            while i < exts.len()
                invariant
                    i <= exts@.len(),
                    e@ == ext_lower(path@),
                    path_extension_of(path@) is Some,
                    forall|k: int| 0 <= k < i ==> strs_view(exts@)[k] != e@,
                decreases exts.len() - i,
            {
                if chars_eq_str(&e, exts[i]) {
                    assert(strs_view(exts@)[i as int] == e@);
                    return true;
                }
                i = i + 1;
            }
            assert(!strs_view(exts@).contains(e@));
            false
        },
    }
}

/// Fast pre-check used before spawning ffprobe: obvious non-video extensions
/// short-circuit to "not a video" without a subprocess. A match here is not
/// authoritative; it only rejects the clearly-wrong.
pub fn extension_looks_like_video(path: &str) -> (r: bool)
    ensures
        r == ext_in(path@, video_exts()),
{
    let exts: [&str; 14] = [
        "mp4", "mov", "m4v", "webm", "mkv", "avi", "flv", "wmv", "mpg", "mpeg", "ts", "m2ts",
        "3gp", "ogv",
    ];
    let r = ext_matches(path, &exts);
    assert(strs_view(exts@) =~= video_exts());
    r
}

/// Image counterpart of [`extension_looks_like_video`].
pub fn extension_looks_like_image(path: &str) -> (r: bool)
    ensures
        r == ext_in(path@, image_exts()),
{
    let exts: [&str; 11] = [
        "jpg", "jpeg", "png", "webp", "heic", "heif", "gif", "bmp", "tiff", "tif", "tga",
    ];
    let r = ext_matches(path, &exts);
    assert(strs_view(exts@) =~= image_exts());
    r
}

/// A spreadsheet by extension (csv or xlsx, any case). A path without an
/// extension is not one.
pub fn extension_looks_like_sheet(path: &str) -> (r: bool)
    ensures
        r == (path_extension_of(path@) is Some && sheet_exts().contains(ext_lower(path@))),
{
    match path_extension(path) {
        None => false,
        Some(_) => {
            let exts: [&str; 2] = ["csv", "xlsx"];
            let r = ext_matches(path, &exts);
            assert(strs_view(exts@) =~= sheet_exts());
            r
        },
    }
}

/// Worth spawning ffprobe? Video or image extension, or no extension at all.
/// A clearly-unrelated extension (.csv, .zip, …) is rejected without a probe.
pub fn extension_maybe_media(path: &str) -> (r: bool)
    ensures
        r == match path_extension_of(path@) {
            None => true,
            Some(_) => ext_in(path@, video_exts()) || ext_in(path@, image_exts()),
        },
{
    match path_extension(path) {
        None => true,
        Some(_) => extension_looks_like_video(path) || extension_looks_like_image(path),
    }
}

/// Extension-only classification for a batch drop:
/// 0 = none, 1 = video, 2 = image, 3 = csv, 4 = xlsx.
pub open spec fn classify_spec(path: Seq<char>) -> u32 {
    match path_extension_of(path) {
        None => 0,
        Some(e) => if lower_seq(e) == "csv"@ {
            3
        } else if lower_seq(e) == "xlsx"@ {
            4
        } else if image_exts().contains(lower_seq(e)) {
            2
        } else if video_exts().contains(lower_seq(e)) {
            1
        } else {
            0
        },
    }
}

/// Extension-only classification (no subprocess), used to categorise a batch
/// drop: 0 = not media, 1 = video, 2 = image, 3 = csv, 4 = xlsx.
pub fn classify_path(path: &str) -> (r: u32)
    ensures
        r == classify_spec(path@),
{
    match path_extension(path) {
        None => 0,
        Some(_) => {
            let e = ext_of(path);
            if chars_eq_str(&e, "csv") {
                3
            } else if chars_eq_str(&e, "xlsx") {
                4
            } else if extension_looks_like_image(path) {
                2
            } else if extension_looks_like_video(path) {
                1
            } else {
                0
            }
        },
    }
}

// ---- interpreting ffprobe's stream listing --------------------------------------

/// The disposition flags of a stream.
#[derive(Debug, Clone, Copy)]
pub struct Disposition {
    pub attached_pic: i32,
}

/// The container section of ffprobe's output.
#[derive(Debug, Clone)]
pub struct Format {
    pub duration: Option<String>,
}

/// One stream of ffprobe's output.
#[derive(Debug, Clone)]
pub struct Stream {
    pub codec_type: String,
    pub codec_name: String,
    pub width: Option<u32>,
    pub height: Option<u32>,
    pub duration: Option<String>,
    pub disposition: Option<Disposition>,
}

/// ffprobe's `-show_format -show_streams` output, decoded.
#[derive(Debug, Clone)]
pub struct FfprobeOutput {
    pub streams: Vec<Stream>,
    pub format: Option<Format>,
}

/// A genuine picture stream: a video stream that is not attached cover art.
pub open spec fn is_picture(s: Stream) -> bool {
    &&& s.codec_type@ == "video"@
    &&& match s.disposition {
        Some(d) => d.attached_pic == 0,
        None => true,
    }
}

pub open spec fn is_audio(s: Stream) -> bool {
    s.codec_type@ == "audio"@
}

/// Index of the first stream satisfying `p`, or -1.
pub open spec fn find_first(s: Seq<Stream>, p: spec_fn(Stream) -> bool) -> int
    decreases s.len(),
{
    if s.len() == 0 {
        -1
    } else if p(s[0]) {
        0
    } else {
        let r = find_first(s.drop_first(), p);
        if r < 0 {
            -1
        } else {
            r + 1
        }
    }
}

proof fn lemma_find_first(s: Seq<Stream>, p: spec_fn(Stream) -> bool, i: int)
    requires
        0 <= i <= s.len(),
        forall|j: int| 0 <= j < i ==> !p(#[trigger] s[j]),
    ensures
        i < s.len() && p(s[i]) ==> find_first(s, p) == i,
        i == s.len() ==> find_first(s, p) == -1,
    decreases i,
{
    if i > 0 {
        assert forall|j: int| 0 <= j < i - 1 implies !p(#[trigger] s.drop_first()[j]) by {
            assert(s.drop_first()[j] == s[j + 1]);
        }
        lemma_find_first(s.drop_first(), p, i - 1);
        assert(!p(s[0]));
        if i < s.len() {
            assert(s.drop_first()[i - 1] == s[i]);
        }
    }
}

/// A duration text as microseconds, read as Rust's float parser reads it:
/// finite values (exponent forms included) truncated and clamped to the `i64`
/// range, infinities at the end of their sign, not-a-number as 0; nothing for
/// a text that is no number.
pub open spec fn duration_text(t: Option<String>) -> Option<int> {
    match t {
        Some(x) => saturated(reading(x@, 6)),
        None => None,
    }
}

/// The container duration when it parses, else the picture stream's, else 0.
pub open spec fn chosen_duration(format: Option<Format>, stream: Stream) -> int {
    let from_format = match format {
        Some(f) => duration_text(f.duration),
        None => None,
    };
    match from_format {
        Some(d) => d,
        None => match duration_text(stream.duration) {
            Some(d) => d,
            None => 0,
        },
    }
}

/// What a decoded ffprobe listing says about the file.
pub open spec fn probe_view_of(out: FfprobeOutput) -> ProbeView {
    let i = find_first(out.streams@, |s: Stream| is_picture(s));
    if i < 0 {
        none_view()
    } else {
        let vs = out.streams@[i];
        let a = find_first(out.streams@, |s: Stream| is_audio(s));
        let d = chosen_duration(out.format, vs);
        ProbeView {
            is_video: d > 0,
            is_image: !(d > 0),
            is_sheet: false,
            duration_us: d,
            width: match vs.width {
                Some(w) => w as nat,
                None => 0,
            },
            height: match vs.height {
                Some(h) => h as nat,
                None => 0,
            },
            video_codec: vs.codec_name@,
            has_audio: a >= 0,
            audio_codec: if a >= 0 {
                out.streams@[a].codec_name@
            } else {
                Seq::<char>::empty()
            },
        }
    }
}

fn is_picture_stream(s: &Stream) -> (b: bool)
    ensures
        b == is_picture(*s),
{
    str_eq(s.codec_type.as_str(), "video") && match s.disposition {
        Some(d) => d.attached_pic == 0,
        None => true,
    }
}

fn is_audio_stream(s: &Stream) -> (b: bool)
    ensures
        b == is_audio(*s),
{
    str_eq(s.codec_type.as_str(), "audio")
}

fn find_picture(streams: &Vec<Stream>) -> (r: Option<usize>)
    ensures
        match r {
            Some(i) => i < streams@.len() && find_first(streams@, |s: Stream| is_picture(s)) == i,
            None => find_first(streams@, |s: Stream| is_picture(s)) == -1,
        },
{
    let ghost p = |s: Stream| is_picture(s);
    let mut i: usize = 0;
    while i < streams.len()
        invariant
            i <= streams@.len(),
            p == (|s: Stream| is_picture(s)),
            forall|j: int| 0 <= j < i ==> !p(#[trigger] streams@[j]),
        decreases streams.len() - i,
    {
        if is_picture_stream(&streams[i]) {
            proof {
                lemma_find_first(streams@, p, i as int);
            }
            return Some(i);
        }
        i = i + 1;
    }
    proof {
        lemma_find_first(streams@, p, i as int);
    }
    None
}

fn find_audio(streams: &Vec<Stream>) -> (r: Option<usize>)
    ensures
        match r {
            Some(i) => i < streams@.len() && find_first(streams@, |s: Stream| is_audio(s)) == i,
            None => find_first(streams@, |s: Stream| is_audio(s)) == -1,
        },
{
    let ghost p = |s: Stream| is_audio(s);
    let mut i: usize = 0;
    while i < streams.len()
        invariant
            i <= streams@.len(),
            p == (|s: Stream| is_audio(s)),
            forall|j: int| 0 <= j < i ==> !p(#[trigger] streams@[j]),
        decreases streams.len() - i,
    {
        if is_audio_stream(&streams[i]) {
            proof {
                lemma_find_first(streams@, p, i as int);
            }
            return Some(i);
        }
        i = i + 1;
    }
    proof {
        lemma_find_first(streams@, p, i as int);
    }
    None
}

fn parse_duration(t: &Option<String>) -> (r: Option<i64>)
    ensures
        match r {
            Some(x) => duration_text(*t) == Some(x as int),
            None => duration_text(*t) is None,
        },
{
    match t {
        Some(x) => {
            let v = chars_of(x.as_str());
            saturate(read_number(&v, 6))
        },
        None => None,
    }
}

/// Interpret a decoded ffprobe listing: the first genuine picture stream
/// decides; a duration makes it a video, none makes it a still image; cover
/// art alone, or no picture stream, is nothing we can work with.
pub fn probe_result_of(out: &FfprobeOutput) -> (r: ProbeResult)
    ensures
        r@ == probe_view_of(*out),
{
    let vi = match find_picture(&out.streams) {
        Some(i) => i,
        None => {
            return ProbeResult::none();
        },
    };
    let vs = &out.streams[vi];
    let ai = find_audio(&out.streams);
    let from_format: Option<i64> = match &out.format {
        Some(f) => parse_duration(&f.duration),
        None => None,
    };
    let duration_us: i64 = match from_format {
        Some(d) => d,
        None => match parse_duration(&vs.duration) {
            Some(d) => d,
            None => 0,
        },
    };
    let is_video = duration_us > 0;
    let (has_audio, audio_codec) = match ai {
        Some(a) => (true, out.streams[a].codec_name.clone()),
        None => (false, String::new()),
    };
    ProbeResult {
        is_video,
        is_image: !is_video,
        is_sheet: false,
        duration_us,
        width: match vs.width {
            Some(w) => w,
            None => 0,
        },
        height: match vs.height {
            Some(h) => h,
            None => 0,
        },
        video_codec: vs.codec_name.clone(),
        has_audio,
        audio_codec,
    }
}

/// A probed file is never both a video and a still image, nor a sheet; it is
/// a video only with a positive duration; and a listing without a genuine
/// picture stream (cover art alone, audio alone, nothing) is nothing we can
/// work with.
pub proof fn lemma_probe_kinds(out: FfprobeOutput)
    ensures
        !(probe_view_of(out).is_video && probe_view_of(out).is_image),
        !probe_view_of(out).is_sheet,
        probe_view_of(out).is_video ==> probe_view_of(out).duration_us > 0,
        (forall|j: int| 0 <= j < out.streams@.len() ==> !is_picture(#[trigger] out.streams@[j]))
            ==> probe_view_of(out) == none_view(),
{
    let p = |s: Stream| is_picture(s);
    if forall|j: int| 0 <= j < out.streams@.len() ==> !is_picture(#[trigger] out.streams@[j]) {
        assert forall|j: int| 0 <= j < out.streams@.len() implies !p(#[trigger] out.streams@[j]) by {
            assert(!is_picture(out.streams@[j]));
        }
        lemma_find_first(out.streams@, p, out.streams@.len() as int);
    }
}

// ---- what to do with a dropped path ----------------------------------------------

/// What probing a dropped path takes.
#[derive(Debug, Clone, Copy, PartialEq, Eq, Structural)]
pub enum ProbeStep {
    /// A clearly unrelated file: nothing we can work with, no probe.
    Skip,
    /// A spreadsheet, recognised by its extension alone.
    Sheet,
    /// Worth asking ffprobe.
    RunFfprobe,
}

/// The step for a path: sheets by extension first, then anything that may be
/// media, and the rest is skipped.
pub open spec fn probe_step_spec(path: Seq<char>) -> ProbeStep {
    if path_extension_of(path) is Some && sheet_exts().contains(ext_lower(path)) {
        ProbeStep::Sheet
    } else if match path_extension_of(path) {
        None => true,
        Some(_) => ext_in(path, video_exts()) || ext_in(path, image_exts()),
    } {
        ProbeStep::RunFfprobe
    } else {
        ProbeStep::Skip
    }
}

/// Decide how to probe a dropped path, before any subprocess.
pub fn probe_step(path: &str) -> (r: ProbeStep)
    ensures
        r == probe_step_spec(path@),
{
    if extension_looks_like_sheet(path) {
        ProbeStep::Sheet
    } else if extension_maybe_media(path) {
        ProbeStep::RunFfprobe
    } else {
        ProbeStep::Skip
    }
}

/// What ffprobe's answer means: no decodable listing (the tool failed or its
/// output was not a listing) is nothing we can work with.
pub fn interpret_probe(out: Option<FfprobeOutput>) -> (r: ProbeResult)
    ensures
        r@ == match out {
            Some(o) => probe_view_of(o),
            None => none_view(),
        },
{
    match out {
        Some(o) => probe_result_of(&o),
        None => ProbeResult::none(),
    }
}

} // verus!
