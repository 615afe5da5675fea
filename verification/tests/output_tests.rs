use std::collections::HashSet;
use swiss_army_knife_core::output::{candidate_file_name, output_base, output_path_with};

fn taken(paths: &[&str]) -> impl Fn(&str) -> bool {
    let set: HashSet<String> = paths.iter().map(|p| p.to_string()).collect();
    move |p: &str| set.contains(p)
}

#[test]
fn simple_extension_change_no_collision() {
    let out = output_path_with("/vids/clip.webm", "", "mp4", &taken(&[]));
    assert_eq!(out, Some("/vids/clip.mp4".to_string()));
}

#[test]
fn adds_suffix() {
    let out = output_path_with("/vids/clip.mov", "compressed", "mp4", &taken(&[]));
    assert_eq!(out, Some("/vids/clip-compressed.mp4".to_string()));
}

#[test]
fn increments_when_taken() {
    let out = output_path_with(
        "/vids/clip.mov",
        "compressed",
        "mp4",
        &taken(&["/vids/clip-compressed.mp4", "/vids/clip-compressed-1.mp4"]),
    );
    assert_eq!(out, Some("/vids/clip-compressed-2.mp4".to_string()));
}

#[test]
fn never_overwrites_the_source() {
    // Converting clip.mp4 → mp4 with no suffix must not target the source.
    let out = output_path_with("/vids/clip.mp4", "", "mp4", &taken(&[]));
    assert_eq!(out, Some("/vids/clip-1.mp4".to_string()));
}

#[test]
fn source_and_taken_names_are_both_skipped() {
    let out = output_path_with("/vids/clip.mp4", "", "mp4", &taken(&["/vids/clip-1.mp4"]));
    assert_eq!(out, Some("/vids/clip-2.mp4".to_string()));
}

#[test]
fn relative_input_stays_in_its_directory() {
    let out = output_path_with("clip.mov", "", "gif", &taken(&[]));
    assert_eq!(out, Some("clip.gif".to_string()));
    let out = output_path_with("a/b/clip.tar.gz", "x", "zip", &taken(&[]));
    assert_eq!(out, Some("a/b/clip.tar-x.zip".to_string()));
}

#[test]
fn base_and_candidate_names() {
    assert_eq!(output_base("clip", ""), "clip");
    assert_eq!(output_base("clip", "compressed"), "clip-compressed");
    assert_eq!(candidate_file_name("clip", 0, "mp4"), "clip.mp4");
    assert_eq!(candidate_file_name("clip", 12, "mp4"), "clip-12.mp4");
}
