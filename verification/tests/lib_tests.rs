use swiss_army_knife_core::engine::EngineError;
use swiss_army_knife_core::ops::{JobParams, OpId, Stage, Tool};
use swiss_army_knife_core::probe::ProbeResult;
use swiss_army_knife_core::{menu_for, plan_job, plan_output_with};

fn video_probe() -> ProbeResult {
    ProbeResult {
        is_video: true,
        is_image: false,
        is_sheet: false,
        duration_us: 2_000_000,
        width: 320,
        height: 240,
        video_codec: "h264".to_string(),
        has_audio: true,
        audio_codec: "aac".to_string(),
    }
}

fn nothing_exists(_: &str) -> bool {
    false
}

#[test]
fn menu_empty_for_non_video() {
    assert!(menu_for(&ProbeResult {
        is_video: false,
        is_image: false,
        is_sheet: false,
        duration_us: 0,
        width: 0,
        height: 0,
        video_codec: String::new(),
        has_audio: false,
        audio_codec: String::new(),
    })
    .is_empty());
}

#[test]
fn menu_has_four_ops_for_video() {
    let m = menu_for(&video_probe());
    assert_eq!(m.len(), 4);
    assert_eq!(m[0].label, "Convert to MP4");
}

#[test]
fn menu_for_a_still_image() {
    let p = ProbeResult { is_video: false, is_image: true, duration_us: 0, ..video_probe() };
    let m = menu_for(&p);
    let ids: Vec<u32> = m.iter().map(|i| i.op_id).collect();
    assert_eq!(ids, vec![4, 5, 6]);
    assert_eq!(m[1].label, "Resize");
}

#[test]
fn plan_output_uses_correct_extension() {
    let out = plan_output_with(
        "/v/clip.webm",
        OpId::ExtractAudio.as_u32(),
        &JobParams::default(),
        &nothing_exists,
    )
    .unwrap();
    assert!(out.ends_with(".mp3"));
    let bad = plan_output_with("/v/clip.webm", 99, &JobParams::default(), &nothing_exists);
    assert!(bad.is_err());
}

#[test]
fn plan_output_names_and_errors() {
    let out = plan_output_with("/v/clip.mov", 1, &JobParams::default(), &nothing_exists);
    assert_eq!(out.unwrap(), "/v/clip-compressed.mp4");
    match plan_output_with("/v/clip.mov", 99, &JobParams::default(), &nothing_exists) {
        Err(EngineError::BadRequest(m)) => assert_eq!(m, "unknown operation 99"),
        other => panic!("unexpected {other:?}"),
    }
}

#[test]
fn plan_job_builds_the_stages_for_the_chosen_output() {
    let (out, stages) =
        plan_job("/v/clip.mov", 3, &JobParams::default(), &video_probe(), "/tmp/wd", &nothing_exists)
            .unwrap();
    assert_eq!(out, "/v/clip.gif");
    assert_eq!(stages.len(), 2);
    assert_eq!(stages[0].tool, Tool::Ffmpeg);
    assert_eq!(stages[1].args.last().unwrap(), "/v/clip.gif");
    let total: u32 = stages.iter().map(|s| s.weight_pct).sum();
    assert_eq!(total, 100);
    assert!(plan_job("/v/clip.mov", 12, &JobParams::default(), &video_probe(), "/w", &nothing_exists)
        .is_err());
}

#[test]
fn values_compare_by_their_fields() {
    assert_eq!(JobParams::default(), JobParams::default());
    assert_ne!(JobParams::default(), JobParams { crf: 30, ..JobParams::default() });
    assert_eq!(ProbeResult::none(), ProbeResult::none());
    assert_ne!(ProbeResult::none(), ProbeResult::sheet());
    assert_eq!(menu_for(&video_probe()), menu_for(&video_probe()));
    assert_ne!(menu_for(&video_probe())[0], menu_for(&video_probe())[1]);
    let s = Stage { tool: Tool::Ffmpeg, args: vec!["-i".to_string(), "a".to_string()], weight_pct: 50 };
    assert_eq!(s.clone(), s);
    assert_ne!(Stage { args: vec!["-i".to_string(), "b".to_string()], ..s.clone() }, s);
    assert_ne!(Stage { args: vec!["-i".to_string()], ..s.clone() }, s);
}
