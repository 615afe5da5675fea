use swiss_army_knife_core::probe::{
    classify_path, extension_looks_like_image, extension_looks_like_sheet,
    extension_looks_like_video, extension_maybe_media, interpret_probe, probe_result_of,
    probe_step, Disposition, FfprobeOutput, Format, ProbeResult, ProbeStep, Stream,
};

fn stream(kind: &str, codec: &str) -> Stream {
    Stream {
        codec_type: kind.to_string(),
        codec_name: codec.to_string(),
        width: None,
        height: None,
        duration: None,
        disposition: None,
    }
}

fn cover_art() -> Stream {
    Stream {
        width: Some(300),
        height: Some(300),
        disposition: Some(Disposition { attached_pic: 1 }),
        ..stream("video", "mjpeg")
    }
}

#[test]
fn parses_a_normal_video() {
    let out = FfprobeOutput {
        streams: vec![
            Stream {
                width: Some(1920),
                height: Some(1080),
                duration: Some("12.5".to_string()),
                ..stream("video", "h264")
            },
            stream("audio", "aac"),
        ],
        format: Some(Format { duration: Some("12.520000".to_string()) }),
    };
    let r = probe_result_of(&out);
    assert!(r.is_video);
    assert_eq!(r.width, 1920);
    assert_eq!(r.height, 1080);
    assert_eq!(r.video_codec, "h264");
    assert!(r.has_audio);
    assert_eq!(r.audio_codec, "aac");
    assert_eq!(r.duration_us, 12_520_000);
}

#[test]
fn png_is_an_image_not_a_video() {
    // A still image: a real video stream, but no duration.
    let out = FfprobeOutput {
        streams: vec![Stream { width: Some(4000), height: Some(3000), ..stream("video", "png") }],
        format: Some(Format { duration: None }),
    };
    let r = probe_result_of(&out);
    assert!(r.is_image);
    assert!(!r.is_video);
    assert_eq!(r.width, 4000);
    assert_eq!(r.video_codec, "png");
}

#[test]
fn mp3_cover_art_is_neither_video_nor_image() {
    let out = FfprobeOutput { streams: vec![stream("audio", "mp3"), cover_art()], format: None };
    let r = probe_result_of(&out);
    assert!(!r.is_video);
    assert!(!r.is_image);
}

#[test]
fn image_extension_precheck() {
    assert!(extension_looks_like_image("/x/photo.JPG"));
    assert!(extension_looks_like_image("/x/art.webp"));
    assert!(!extension_looks_like_image("/x/clip.mp4"));
    assert!(extension_maybe_media("/x/photo.png"));
    assert!(extension_maybe_media("/x/clip.mov"));
    assert!(!extension_maybe_media("/x/data.csv"));
}

#[test]
fn video_with_no_audio() {
    let out = FfprobeOutput {
        streams: vec![Stream {
            width: Some(640),
            height: Some(480),
            duration: Some("3.0".to_string()),
            ..stream("video", "vp9")
        }],
        format: Some(Format { duration: Some("3.0".to_string()) }),
    };
    let r = probe_result_of(&out);
    assert!(r.is_video);
    assert!(!r.has_audio);
    assert_eq!(r.video_codec, "vp9");
}

#[test]
fn mp3_with_cover_art_is_not_video() {
    // Album art shows up as a video stream flagged attached_pic — not a video.
    let out = FfprobeOutput {
        streams: vec![stream("audio", "mp3"), cover_art()],
        format: Some(Format { duration: Some("180.0".to_string()) }),
    };
    let r = probe_result_of(&out);
    assert!(!r.is_video);
}

#[test]
fn garbage_json_is_not_video() {
    // Output that did not decode as a listing, and an empty listing.
    assert!(!interpret_probe(None).is_video);
    assert!(!interpret_probe(Some(FfprobeOutput { streams: vec![], format: None })).is_video);
}

#[test]
fn extension_precheck() {
    assert!(extension_looks_like_video("/x/clip.mp4"));
    assert!(extension_looks_like_video("/x/clip.WEBM")); // case-insensitive
    assert!(!extension_looks_like_video("/x/photo.png"));
    assert!(!extension_looks_like_video("/x/data.csv"));
    assert!(extension_looks_like_video("/x/noext")); // unknown → let ffprobe decide
}

#[test]
fn duration_falls_back_to_the_stream_and_skips_cover_art() {
    let out = FfprobeOutput {
        streams: vec![
            cover_art(),
            Stream { duration: Some("2.5".to_string()), ..stream("video", "hevc") },
            stream("audio", "opus"),
            stream("audio", "aac"),
        ],
        format: Some(Format { duration: Some("N/A".to_string()) }),
    };
    let r = probe_result_of(&out);
    assert!(r.is_video);
    assert_eq!(r.duration_us, 2_500_000);
    assert_eq!(r.video_codec, "hevc");
    assert_eq!(r.audio_codec, "opus");
    assert_eq!(r.width, 0);
}

#[test]
fn sheets_and_batch_classification() {
    assert!(extension_looks_like_sheet("/x/data.CSV"));
    assert!(extension_looks_like_sheet("/x/book.xlsx"));
    assert!(!extension_looks_like_sheet("/x/noext"));
    assert!(!extension_looks_like_sheet("/x/clip.mp4"));
    assert_eq!(classify_path("/x/clip.mov"), 1);
    assert_eq!(classify_path("/x/photo.HEIC"), 2);
    assert_eq!(classify_path("/x/data.csv"), 3);
    assert_eq!(classify_path("/x/book.XLSX"), 4);
    assert_eq!(classify_path("/x/archive.zip"), 0);
    assert_eq!(classify_path("/x/noext"), 0);
}

#[test]
fn probe_steps() {
    assert_eq!(probe_step("/x/data.csv"), ProbeStep::Sheet);
    assert_eq!(probe_step("/x/clip.mkv"), ProbeStep::RunFfprobe);
    assert_eq!(probe_step("/x/noext"), ProbeStep::RunFfprobe);
    assert_eq!(probe_step("/x/notes.txt"), ProbeStep::Skip);
    let s = ProbeResult::sheet();
    assert!(s.is_sheet && !s.is_video && !s.is_image);
    let n = ProbeResult::none();
    assert!(!n.is_sheet && !n.is_video && !n.is_image && n.video_codec.is_empty());
}

#[test]
fn durations_in_exponent_form() {
    let out = FfprobeOutput {
        streams: vec![Stream { duration: Some("2.5".to_string()), ..stream("video", "h264") }],
        format: Some(Format { duration: Some("1e1".to_string()) }),
    };
    let r = probe_result_of(&out);
    assert!(r.is_video);
    assert_eq!(r.duration_us, 10_000_000);
}

#[test]
fn durations_that_are_not_finite() {
    let still = Stream { duration: Some("2.5".to_string()), ..stream("video", "h264") };
    let with = |d: &str| FfprobeOutput {
        streams: vec![still.clone()],
        format: Some(Format { duration: Some(d.to_string()) }),
    };
    let r = probe_result_of(&with("inf"));
    assert!(r.is_video);
    assert_eq!(r.duration_us, i64::MAX);
    // Not-a-number is a duration that parsed: no fallback to the stream's, and not positive.
    let r = probe_result_of(&with("NaN"));
    assert!(r.is_image && !r.is_video);
    assert_eq!(r.duration_us, 0);
    let r = probe_result_of(&with("-inf"));
    assert!(r.is_image);
    assert_eq!(r.duration_us, i64::MIN);
}
