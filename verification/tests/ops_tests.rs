use swiss_army_knife_core::ops::audio::ExtractAudio;
use swiss_army_knife_core::ops::compress::{target_video_kbps, Compress, MIN_VIDEO_KBPS};
use swiss_army_knife_core::ops::convert::Convert;
use swiss_army_knife_core::ops::gif::Gif;
use swiss_army_knife_core::ops::images::{
    keep_ext, needs_native_decode, scale_filter, sips_format, webp_args, ImageCompress,
    ImageConvert, ImageResize,
};
use swiss_army_knife_core::ops::sheets::{SheetToCsv, SheetToXlsx};
use swiss_army_knife_core::ops::{
    base_args, op_build_stages, op_label, op_output_ext, op_output_suffix, progress_args,
    AudioFormat, CompressMode, ImageFormat, JobParams, Op, OpId, Tool, VideoCodec,
};
use swiss_army_knife_core::probe::ProbeResult;

fn has_pair(a: &[String], x: &str, y: &str) -> bool {
    a.windows(2).any(|w| w[0] == x && w[1] == y)
}

fn has(a: &[String], x: &str) -> bool {
    a.iter().any(|s| s == x)
}

fn video(duration_us: i64, has_audio: bool, codec: &str, audio: &str) -> ProbeResult {
    ProbeResult {
        is_video: true,
        is_image: false,
        is_sheet: false,
        duration_us,
        width: 1920,
        height: 1080,
        video_codec: codec.to_string(),
        has_audio,
        audio_codec: if has_audio { audio.to_string() } else { String::new() },
    }
}

fn img_probe() -> ProbeResult {
    ProbeResult {
        is_video: false,
        is_image: true,
        is_sheet: false,
        duration_us: 0,
        width: 4000,
        height: 3000,
        video_codec: "png".to_string(),
        has_audio: false,
        audio_codec: String::new(),
    }
}

fn sheet_probe() -> ProbeResult {
    ProbeResult::sheet()
}

// ---- extract audio ----

#[test]
fn default_is_mp3() {
    let p = video(30_000_000, true, "h264", "aac");
    let stages = ExtractAudio.build_stages("in.mp4", "out.mp3", "/wd", &p, &JobParams::default());
    let a = &stages[0].args;
    assert!(has(a, "-vn"));
    assert!(has_pair(a, "-c:a", "libmp3lame"));
    assert!(has_pair(a, "-b:a", "192k"));
    assert_eq!(ExtractAudio.output_ext("in.mp4", &JobParams::default()), "mp3");
}

#[test]
fn m4a_uses_aac() {
    let params = JobParams {
        audio_format: AudioFormat::M4a,
        audio_bitrate_k: 256,
        ..Default::default()
    };
    let p = video(30_000_000, true, "h264", "aac");
    let stages = ExtractAudio.build_stages("in.mp4", "out.m4a", "/wd", &p, &params);
    let a = &stages[0].args;
    assert!(has_pair(a, "-c:a", "aac"));
    assert!(has_pair(a, "-b:a", "256k"));
    assert_eq!(ExtractAudio.output_ext("in.m4a", &params), "m4a");
}

// ---- compress ----

#[test]
fn bitrate_math_leaves_room_for_audio() {
    // 25 MB over 60 s: 25000 kB * 8 / 60 s ≈ 3333 kbps, 3% headroom, minus 128 for audio.
    let vk = target_video_kbps(25_000, 60_000_000, true);
    assert_eq!(vk, 3105);
    assert!(vk > MIN_VIDEO_KBPS);
}

#[test]
fn bitrate_respects_floor_for_tiny_targets() {
    let vk = target_video_kbps(1_000, 600_000_000, true); // way too small
    assert_eq!(vk, MIN_VIDEO_KBPS);
}

#[test]
fn bitrate_without_audio_and_unknown_duration() {
    // No audio track: the whole budget goes to video.
    assert_eq!(target_video_kbps(25_000, 60_000_000, false), 3233);
    // Rounds to nearest: 1000 kB over 8 s is 1000 kbps, 970 after headroom.
    assert_eq!(target_video_kbps(1_000, 8_000_000, false), 970);
    // Unknown duration leaves only the floor.
    assert_eq!(target_video_kbps(25_000, 0, true), MIN_VIDEO_KBPS);
}

#[test]
fn target_size_is_two_pass() {
    let stages = Compress.build_stages(
        "in.mov",
        "out.mp4",
        "/wd",
        &video(60_000_000, true, "h264", "aac"),
        &JobParams::default(),
    );
    assert_eq!(stages.len(), 2);
    assert!(has_pair(&stages[0].args, "-pass", "1"));
    assert!(has_pair(&stages[1].args, "-pass", "2"));
    // Pass 1 discards output and drops audio.
    assert!(has(&stages[0].args, "-an"));
    assert!(has(&stages[0].args, "/dev/null"));
    // Both passes share one passlog under the workdir.
    assert!(has(&stages[0].args, "/wd/passlog"));
    assert_eq!(stages[1].args.last().unwrap(), "out.mp4");
    assert_eq!(stages[0].weight_pct + stages[1].weight_pct, 100);
}

#[test]
fn crf_mode_is_single_pass() {
    let params = JobParams {
        compress_mode: CompressMode::Crf,
        crf: 26,
        ..Default::default()
    };
    let stages = Compress.build_stages(
        "in.mov",
        "out.mp4",
        "/wd",
        &video(60_000_000, true, "h264", "aac"),
        &params,
    );
    assert_eq!(stages.len(), 1);
    assert!(has_pair(&stages[0].args, "-crf", "26"));
}

// ---- convert ----

#[test]
fn default_h264_with_audio() {
    let p = video(10_000_000, true, "vp9", "opus");
    let stages = Convert.build_stages("in.webm", "out.mp4", "/wd", &p, &JobParams::default());
    assert_eq!(stages.len(), 1);
    let a = &stages[0].args;
    assert_eq!(a.first().unwrap(), "-hide_banner");
    assert!(has_pair(a, "-c:v", "libx264"));
    assert!(has_pair(a, "-crf", "20"));
    assert!(has_pair(a, "-c:a", "aac"));
    assert!(has_pair(a, "-movflags", "+faststart"));
    assert_eq!(a.last().unwrap(), "out.mp4");
}

#[test]
fn no_audio_uses_an() {
    let p = video(10_000_000, false, "vp9", "opus");
    let stages = Convert.build_stages("in.webm", "out.mp4", "/wd", &p, &JobParams::default());
    let a = &stages[0].args;
    assert!(has(a, "-an"));
    assert!(!has_pair(a, "-c:a", "aac"));
}

#[test]
fn hevc_and_scale() {
    let params = JobParams {
        video_codec: VideoCodec::Hevc,
        max_height: Some(720),
        ..Default::default()
    };
    let p = video(10_000_000, true, "vp9", "opus");
    let stages = Convert.build_stages("in.mov", "out.mp4", "/wd", &p, &params);
    let a = &stages[0].args;
    assert!(has_pair(a, "-c:v", "libx265"));
    assert!(has_pair(a, "-tag:v", "hvc1"));
    assert!(has(a, "scale=-2:min(ih\\,720)"));
}

#[test]
fn hardware_h264_uses_videotoolbox() {
    let params = JobParams { hw_accel: true, ..Default::default() };
    let p = video(10_000_000, true, "vp9", "opus");
    let stages = Convert.build_stages("in.mov", "out.mp4", "/wd", &p, &params);
    let a = &stages[0].args;
    assert!(has_pair(a, "-c:v", "h264_videotoolbox"));
    assert!(!has(a, "-crf"));
}

#[test]
fn every_ffmpeg_stage_starts_quiet_and_reports_progress() {
    assert_eq!(base_args("x.mov"), vec!["-hide_banner", "-nostdin", "-y", "-i", "x.mov"]);
    assert_eq!(progress_args(), vec!["-progress", "pipe:1", "-nostats"]);
    let p = video(10_000_000, true, "h264", "aac");
    let stages = Convert.build_stages("in.mov", "out.mp4", "/wd", &p, &JobParams::default());
    assert_eq!(&stages[0].args[..5], &base_args("in.mov")[..]);
    assert!(has_pair(&stages[0].args, "-progress", "pipe:1"));
}

// ---- gif ----

#[test]
fn two_stages_palette_then_render() {
    let p = video(5_000_000, false, "h264", "");
    let stages = Gif.build_stages("in.mp4", "out.gif", "/wd", &p, &JobParams::default());
    assert_eq!(stages.len(), 2);
    // Stage 1 generates the palette into the workdir.
    assert!(stages[0].args.iter().any(|s| s.contains("palettegen")));
    assert_eq!(stages[0].args.last().unwrap(), "/wd/palette.png");
    // Stage 2 consumes it and uses default fps/width.
    assert!(has(&stages[1].args, "/wd/palette.png"));
    assert!(stages[1]
        .args
        .iter()
        .any(|s| s.contains("paletteuse") && s.contains("fps=12") && s.contains("scale=480")));
    assert_eq!(stages[1].args.last().unwrap(), "out.gif");
}

#[test]
fn respects_custom_fps_and_width() {
    let params = JobParams { gif_fps: 24, gif_width: 320, ..Default::default() };
    let p = video(5_000_000, false, "h264", "");
    let stages = Gif.build_stages("in.mp4", "out.gif", "/wd", &p, &params);
    assert!(stages[0].args.iter().any(|s| s.contains("fps=24") && s.contains("scale=320")));
}

// ---- images ----

#[test]
fn convert_to_jpg_uses_sips() {
    let p = JobParams::default(); // jpg, q80
    assert_eq!(ImageConvert.output_ext("photo.png", &p), "jpg");
    let stages = ImageConvert.build_stages("photo.png", "photo.jpg", "/wd", &img_probe(), &p);
    assert_eq!(stages.len(), 1);
    assert_eq!(stages[0].tool, Tool::Sips);
    let a = &stages[0].args;
    assert!(has_pair(a, "format", "jpeg"));
    assert!(has_pair(a, "formatOptions", "80"));
    assert_eq!(a.last().unwrap(), "photo.jpg");
}

#[test]
fn convert_heic_to_jpg_is_sips_only() {
    // HEIC → JPG needs no ffmpeg: sips reads HEIC and keeps orientation.
    let p = JobParams::default();
    let stages = ImageConvert.build_stages("IMG.HEIC", "IMG.jpg", "/wd", &img_probe(), &p);
    assert_eq!(stages.len(), 1);
    assert_eq!(stages[0].tool, Tool::Sips);
}

#[test]
fn convert_heic_to_webp_decodes_via_sips_jpeg_then_ffmpeg() {
    let p = JobParams { image_format: ImageFormat::Webp, ..Default::default() };
    let stages = ImageConvert.build_stages("IMG.HEIC", "IMG.webp", "/wd", &img_probe(), &p);
    assert_eq!(stages.len(), 2);
    assert_eq!(stages[0].tool, Tool::Sips);
    // Decode to JPEG (so ffmpeg bakes orientation), not PNG.
    assert!(has(&stages[0].args, "/wd/decoded.jpg"));
    assert_eq!(stages[1].tool, Tool::Ffmpeg);
    assert!(has(&stages[1].args, "/wd/decoded.jpg"));
    assert!(has_pair(&stages[1].args, "-c:v", "libwebp"));
    assert_eq!(stages[1].args.last().unwrap(), "IMG.webp");
}

#[test]
fn convert_jpg_to_webp_is_ffmpeg_direct() {
    let p = JobParams { image_format: ImageFormat::Webp, ..Default::default() };
    let stages = ImageConvert.build_stages("pic.jpg", "pic.webp", "/wd", &img_probe(), &p);
    assert_eq!(stages.len(), 1);
    assert_eq!(stages[0].tool, Tool::Ffmpeg);
}

#[test]
fn resize_uses_sips_z_and_maps_heic_to_jpg() {
    let p = JobParams { image_max_dim: 1280, ..Default::default() };
    assert_eq!(ImageResize.output_ext("IMG.HEIC", &p), "jpg");
    let stages = ImageResize.build_stages("IMG.HEIC", "IMG-resized.jpg", "/wd", &img_probe(), &p);
    assert_eq!(stages[0].tool, Tool::Sips);
    let a = &stages[0].args;
    assert!(has_pair(a, "-Z", "1280"));
    assert!(has_pair(a, "format", "jpeg"));
}

#[test]
fn compress_jpg_uses_sips_quality() {
    let p = JobParams { image_quality: 60, ..Default::default() };
    let stages = ImageCompress.build_stages("pic.jpg", "pic-compressed.jpg", "/wd", &img_probe(), &p);
    assert_eq!(stages[0].tool, Tool::Sips);
    assert!(has_pair(&stages[0].args, "formatOptions", "60"));
}

#[test]
fn image_helpers() {
    assert!(needs_native_decode("a/IMG.HEIC"));
    assert!(needs_native_decode("x.avif"));
    assert!(!needs_native_decode("x.jpg"));
    assert_eq!(sips_format("jpg"), "jpeg");
    assert_eq!(sips_format("png"), "png");
    assert_eq!(keep_ext("IMG.HEIC"), "jpg");
    assert_eq!(keep_ext("pic.PNG"), "png");
    assert_eq!(
        scale_filter(1280),
        "scale=min(1280\\,iw):min(1280\\,ih):force_original_aspect_ratio=decrease"
    );
    let a = webp_args("in.png", "out.webp", 70, None);
    assert!(has_pair(&a, "-c:v", "libwebp"));
    assert!(has_pair(&a, "-quality", "70"));
    assert_eq!(a.last().unwrap(), "out.webp");
}

// ---- sheets ----

#[test]
fn csv_to_xlsx_runs_python() {
    assert_eq!(SheetToXlsx.output_ext("data.csv", &JobParams::default()), "xlsx");
    let s = SheetToXlsx.build_stages("data.csv", "data.xlsx", "/wd", &sheet_probe(), &JobParams::default());
    assert_eq!(s.len(), 1);
    assert_eq!(s[0].tool, Tool::Python);
    assert_eq!(s[0].args.first().unwrap(), "-c");
    assert_eq!(s[0].args.last().unwrap(), "data.xlsx");
}

#[test]
fn xlsx_to_csv_runs_python() {
    assert_eq!(SheetToCsv.output_ext("book.xlsx", &JobParams::default()), "csv");
    let s = SheetToCsv.build_stages("book.xlsx", "book.csv", "/wd", &sheet_probe(), &JobParams::default());
    assert_eq!(s[0].tool, Tool::Python);
    assert_eq!(s[0].args.last().unwrap(), "book.csv");
}

// ---- registry ----

#[test]
fn op_ids_round_trip() {
    for v in 0u32..9 {
        let id = OpId::from_u32(v).unwrap();
        assert_eq!(id.as_u32(), v);
    }
    assert_eq!(OpId::from_u32(9), None);
    assert_eq!(OpId::from_u32(99), None);
}

#[test]
fn registry_dispatches_labels_suffixes_and_stages() {
    let p = JobParams::default();
    assert_eq!(op_label(OpId::Convert), "Convert to MP4");
    assert_eq!(op_label(OpId::SheetToCsv), "Convert to CSV");
    assert_eq!(op_output_suffix(OpId::Compress, &p), "compressed");
    assert_eq!(op_output_suffix(OpId::Convert, &p), "");
    assert_eq!(op_output_ext(OpId::Gif, "a.mov", &p), "gif");
    let v = video(60_000_000, true, "h264", "aac");
    let s = op_build_stages(OpId::Compress, "in.mov", "out.mp4", "/wd", &v, &p);
    assert_eq!(s.len(), 2);
    let total: u32 = s.iter().map(|x| x.weight_pct).sum();
    assert_eq!(total, 100);
}

#[test]
fn every_op_writes_its_output_last_and_weighs_one_hundred() {
    let v = video(60_000_000, true, "h264", "aac");
    let params = [
        JobParams::default(),
        JobParams { compress_mode: CompressMode::Crf, image_format: ImageFormat::Webp, ..Default::default() },
    ];
    for p in params.iter() {
        for code in 0u32..9 {
            let id = OpId::from_u32(code).unwrap();
            let s = op_build_stages(id, "IMG.HEIC", "out.x", "/wd", &v, p);
            assert!(!s.is_empty());
            let total: u32 = s.iter().map(|x| x.weight_pct).sum();
            assert_eq!(total, 100, "op {code}");
            assert_eq!(s.last().unwrap().args.last().unwrap(), "out.x", "op {code}");
            for st in s.iter().filter(|st| st.tool == Tool::Ffmpeg) {
                assert_eq!(st.args[0], "-hide_banner");
            }
        }
    }
}
