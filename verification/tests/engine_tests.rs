use swiss_army_knife_core::engine::{
    eta_ms, last_lines, overall_ppm, parse_progress_micros, stage_ppm, EngineError, LineStep,
    RunStep, StageRunner, FULL_PPM,
};
use swiss_army_knife_core::ops::{Stage, Tool};

#[test]
fn parses_out_time_us() {
    assert_eq!(parse_progress_micros("out_time_us=12500000"), Some(12_500_000));
    assert_eq!(parse_progress_micros("  out_time_us=1000000 "), Some(1_000_000));
}

#[test]
fn parses_out_time_ms_as_micros() {
    // The infamous quirk: out_time_ms is microseconds.
    assert_eq!(parse_progress_micros("out_time_ms=2000000"), Some(2_000_000));
}

#[test]
fn parses_hms() {
    assert_eq!(parse_progress_micros("out_time=00:00:12.340000"), Some(12_340_000));
    assert_eq!(parse_progress_micros("out_time=00:01:00.000000"), Some(60_000_000));
}

#[test]
fn ignores_non_time_lines_and_na() {
    assert_eq!(parse_progress_micros("frame=42"), None);
    assert_eq!(parse_progress_micros("progress=continue"), None);
    assert_eq!(parse_progress_micros("out_time_us=N/A"), None);
}

#[test]
fn eta_math() {
    // Halfway after 10s → 10s remaining.
    assert_eq!(eta_ms(10_000, 500_000), 10_000);
    // Too early → unknown (0).
    assert_eq!(eta_ms(100, 1_000), 0);
}

#[test]
fn progress_lines_with_fractions_and_signs() {
    assert_eq!(parse_progress_micros("out_time=01:02:03.5"), Some(3_723_500_000));
    assert_eq!(parse_progress_micros("out_time=-00:00:00.023220"), Some(23_220));
    assert_eq!(parse_progress_micros("out_time_us=-23220"), Some(-23_220));
    assert_eq!(parse_progress_micros("out_time=N/A"), None);
    assert_eq!(parse_progress_micros("out_time=12.5"), None);
    assert_eq!(parse_progress_micros("out_time_us=abc"), None);
}

#[test]
fn stage_and_overall_shares() {
    assert_eq!(stage_ppm(5_000_000, 10_000_000), 500_000);
    assert_eq!(stage_ppm(20_000_000, 10_000_000), FULL_PPM);
    assert_eq!(stage_ppm(-5, 10_000_000), 0);
    assert_eq!(stage_ppm(5_000_000, 0), 0);
    // 40% done before this stage, which weighs 60% and is half through.
    assert_eq!(overall_ppm(40, 60, 500_000), 700_000);
    assert_eq!(overall_ppm(100, 60, 1_000_000), FULL_PPM);
}

#[test]
fn error_messages() {
    assert_eq!(EngineError::Cancelled.message(), "Cancelled");
    assert_eq!(EngineError::BadRequest("unknown operation 99".to_string()).message(), "unknown operation 99");
    assert_eq!(EngineError::Spawn("no such file".to_string()).message(), "Could not start ffmpeg: no such file");
    let stderr = "l1\nl2\nl3\nl4\nl5\nl6\nl7\nl8\nl9\nl10\n".to_string();
    assert_eq!(
        EngineError::Failed { code: Some(1), stderr: stderr.clone() }.message(),
        "ffmpeg exited with code 1\nl3\nl4\nl5\nl6\nl7\nl8\nl9\nl10"
    );
    assert_eq!(
        EngineError::Failed { code: None, stderr: "boom\r\n".to_string() }.message(),
        "ffmpeg failed\nboom"
    );
    assert_eq!(
        EngineError::Failed { code: Some(-9), stderr: String::new() }.message(),
        "ffmpeg exited with code -9\n"
    );
}

#[test]
fn last_lines_keeps_the_tail() {
    assert_eq!(last_lines("a\nb\nc", 2), "b\nc");
    assert_eq!(last_lines("a\nb\nc\n", 5), "a\nb\nc");
    assert_eq!(last_lines("", 3), "");
    assert_eq!(last_lines("a\r\nb", 8), "a\nb");
}

fn stage(w: u32) -> Stage {
    Stage { tool: Tool::Ffmpeg, args: vec!["-i".to_string()], weight_pct: w }
}

#[test]
fn runner_walks_stages_to_full_progress() {
    let stages = vec![stage(40), stage(60)];
    let mut r = StageRunner::new(&stages, 10_000_000);
    assert_eq!(r.begin(false), RunStep::Start(0));
    assert_eq!(r.on_line("out_time_us=5000000", false), LineStep::Report(200_000));
    assert_eq!(r.on_line("frame=3", false), LineStep::Ignore);
    assert_eq!(r.on_exit(true, Some(0), String::new(), false).unwrap(), 400_000);
    assert_eq!(r.begin(false), RunStep::Start(1));
    assert_eq!(r.on_line("out_time_us=5000000", false), LineStep::Report(700_000));
    assert_eq!(r.on_exit(true, Some(0), String::new(), false).unwrap(), FULL_PPM);
    assert_eq!(r.begin(false), RunStep::Finished);
}

#[test]
fn runner_cancels_and_fails() {
    let stages = vec![stage(100)];
    let mut r = StageRunner::new(&stages, 0);
    assert_eq!(r.begin(true), RunStep::Cancelled);
    assert_eq!(r.begin(false), RunStep::Start(0));
    // Unknown duration: only stage boundaries move the bar.
    assert_eq!(r.on_line("out_time_us=5000000", false), LineStep::Report(0));
    assert_eq!(r.on_line("out_time_us=5000000", true), LineStep::Cancel);
    assert!(matches!(
        r.on_exit(false, None, String::new(), true),
        Err(EngineError::Cancelled)
    ));
    let mut r = StageRunner::new(&stages, 0);
    assert_eq!(r.begin(false), RunStep::Start(0));
    match r.on_exit(false, Some(2), "bad".to_string(), false) {
        Err(EngineError::Failed { code, stderr }) => {
            assert_eq!(code, Some(2));
            assert_eq!(stderr, "bad");
        }
        other => panic!("unexpected {other:?}"),
    }
}

#[test]
fn progress_numbers_with_exponents() {
    assert_eq!(parse_progress_micros("out_time_us=1e6"), Some(1_000_000));
    assert_eq!(parse_progress_micros("out_time_us=1.5E3"), Some(1_500));
    assert_eq!(parse_progress_micros("out_time_us=.5e7"), Some(5_000_000));
    assert_eq!(parse_progress_micros("out_time_us=2.e+1"), Some(20));
    assert_eq!(parse_progress_micros("out_time_us=1e-3"), Some(0));
    assert_eq!(parse_progress_micros("out_time_us=-2.7"), Some(-2));
    assert_eq!(parse_progress_micros("out_time=00:00:1e1"), Some(10_000_000));
    assert_eq!(parse_progress_micros("out_time=0:0.5e1:0"), Some(300_000_000));
    assert_eq!(parse_progress_micros("out_time_us=1e"), None);
    assert_eq!(parse_progress_micros("out_time_us=e5"), None);
    assert_eq!(parse_progress_micros("out_time_us=."), None);
    assert_eq!(parse_progress_micros("out_time_us=1e400"), Some(i64::MAX));
    assert_eq!(parse_progress_micros("out_time_us=0e99999999999999999999999"), Some(0));
    assert_eq!(parse_progress_micros("out_time_us=5e-99999999999999999999999"), Some(0));
}

#[test]
fn runner_finishes_rather_than_cancels_when_no_stage_is_left() {
    let none: Vec<Stage> = vec![];
    let mut r = StageRunner::new(&none, 0);
    assert_eq!(r.begin(true), RunStep::Finished);
    let one = vec![stage(100)];
    let mut r = StageRunner::new(&one, 0);
    assert_eq!(r.begin(false), RunStep::Start(0));
    assert_eq!(r.on_exit(true, Some(0), String::new(), true).unwrap(), FULL_PPM);
    assert_eq!(r.begin(true), RunStep::Finished);
}

#[test]
fn progress_numbers_that_are_not_finite() {
    assert_eq!(parse_progress_micros("out_time_us=inf"), Some(i64::MAX));
    assert_eq!(parse_progress_micros("out_time_us=-Infinity"), Some(i64::MIN));
    assert_eq!(parse_progress_micros("out_time_ms=NaN"), Some(0));
    assert_eq!(parse_progress_micros("out_time_us=-1e400"), Some(i64::MIN));
    assert_eq!(parse_progress_micros("out_time_us=infinit"), None);
    assert_eq!(parse_progress_micros("out_time=inf:00:00"), Some(i64::MAX));
    assert_eq!(parse_progress_micros("out_time=00:-inf:00"), Some(i64::MIN));
    assert_eq!(parse_progress_micros("out_time=nan:00:00"), Some(0));
    assert_eq!(parse_progress_micros("out_time=inf:-inf:00"), Some(0));
    assert_eq!(parse_progress_micros("out_time=1e40:00:-5"), Some(i64::MAX));
    assert_eq!(parse_progress_micros("out_time=1e40:-1e40:00"), None);
    assert_eq!(parse_progress_micros("out_time=3000000000000:00:00"), Some(i64::MAX));
}
