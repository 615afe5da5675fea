use swiss_army_knife_core::ffi::{menu_op_ids, op_label, to_job_params, RawJobParams};
use swiss_army_knife_core::menu_for;
use swiss_army_knife_core::ops::{AudioFormat, CompressMode, ImageFormat, VideoCodec};
use swiss_army_knife_core::probe::ProbeResult;

#[test]
fn labels_by_number() {
    assert_eq!(op_label(0), "Convert to MP4");
    assert_eq!(op_label(3), "Make GIF");
    assert_eq!(op_label(7), "Convert to XLSX");
    assert_eq!(op_label(9), "");
}

#[test]
fn batch_menus() {
    assert_eq!(menu_op_ids(true, false, false, false), vec![0, 1, 2, 3]);
    assert_eq!(menu_op_ids(false, true, false, false), vec![4, 5, 6]);
    assert_eq!(menu_op_ids(true, true, true, true), vec![0, 1, 2, 3, 4, 5, 6, 7, 8]);
    assert_eq!(menu_op_ids(false, false, false, true), vec![8]);
    assert!(menu_op_ids(false, false, false, false).is_empty());
}

fn raw() -> RawJobParams {
    RawJobParams {
        video_codec: 1,
        crf: 80,
        max_height: 0,
        hw_accel: true,
        compress_mode: 1,
        target_kb: 8_000,
        audio_format: 1,
        audio_bitrate_k: 128,
        gif_fps: 15,
        gif_width: 640,
        image_format: 2,
        image_quality: 70,
        image_max_dim: 1024,
    }
}

#[test]
fn raw_params_decode() {
    let p = to_job_params(&raw());
    assert_eq!(p.video_codec, VideoCodec::Hevc);
    assert_eq!(p.crf, 51);
    assert_eq!(p.max_height, None);
    assert!(p.hw_accel);
    assert_eq!(p.compress_mode, CompressMode::Crf);
    assert_eq!(p.target_kb, 8_000);
    assert_eq!(p.audio_format, AudioFormat::M4a);
    assert_eq!(p.image_format, ImageFormat::Webp);
    assert_eq!(p.image_max_dim, 1024);
    let q = to_job_params(&RawJobParams { video_codec: 7, crf: 23, max_height: 720, compress_mode: 0, audio_format: 5, image_format: 9, ..raw() });
    assert_eq!(q.video_codec, VideoCodec::H264);
    assert_eq!(q.crf, 23);
    assert_eq!(q.max_height, Some(720));
    assert_eq!(q.compress_mode, CompressMode::TargetSize);
    assert_eq!(q.audio_format, AudioFormat::Mp3);
    assert_eq!(q.image_format, ImageFormat::Jpg);
}

#[test]
fn single_kind_batch_matches_single_file_menu() {
    let video = ProbeResult { is_video: true, duration_us: 1, ..ProbeResult::none() };
    let still = ProbeResult { is_image: true, ..ProbeResult::none() };
    let ids = |p: &ProbeResult| menu_for(p).iter().map(|m| m.op_id).collect::<Vec<u32>>();
    assert_eq!(menu_op_ids(true, false, false, false), ids(&video));
    assert_eq!(menu_op_ids(false, true, false, false), ids(&still));
}
