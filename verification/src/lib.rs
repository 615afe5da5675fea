//! Swift Army Knife media engine: what a dropped file is, which operations
//! apply to it, the tool invocations each operation runs, where the output
//! goes, and the bookkeeping of running jobs. Spawning tools, touching the
//! filesystem and the Swift bridge live outside this library.

pub mod engine;
pub mod ffi;
pub mod jobs;
pub mod ops;
pub mod output;
pub mod paths;
pub mod probe;
pub mod text;

use engine::EngineError;
use ops::{label_spec, op_build_stages, op_label, op_of_code, op_output_ext, op_output_suffix, output_ext_spec, stages_spec, stages_view, suffix_spec, JobParams, OpId, Stage};
use output::{all_taken, chosen_output, output_path_with};
use probe::{ProbeResult, ProbeView};
use text::{joined, dec, decimal, owned};
use vstd::prelude::*;
use vstd::std_specs::cmp::PartialEqSpecImpl;

verus! {

/// One entry in the preset menu the UI shows after a drop.
#[derive(Debug, Clone)]
pub struct MenuItem {
    pub op_id: u32,
    pub label: String,
}

impl PartialEq for MenuItem {
    fn eq(&self, other: &Self) -> (r: bool) {
        self.op_id == other.op_id && self.label == other.label
    }
}

impl PartialEqSpecImpl for MenuItem {
    open spec fn obeys_eq_spec() -> bool {
        true
    }

    open spec fn eq_spec(&self, other: &Self) -> bool {
        self.op_id == other.op_id && self.label@ == other.label@
    }
}

/// The operations offered for a probed file: the video ops for a video, the
/// image ops for a still, nothing for anything else.
pub open spec fn menu_ids(probe: ProbeView) -> Seq<OpId> {
    if probe.is_video {
        seq![OpId::Convert, OpId::Compress, OpId::ExtractAudio, OpId::Gif]
    } else if probe.is_image {
        seq![OpId::ImageConvert, OpId::ImageResize, OpId::ImageCompress]
    } else {
        Seq::<OpId>::empty()
    }
}

/// The menu entries for a probed file, as (op number, label) pairs.
pub open spec fn menu_spec(probe: ProbeView) -> Seq<(u32, Seq<char>)> {
    menu_ids(probe).map_values(|id: OpId| (id.code(), label_spec(id)))
}

/// The (op number, label) pairs of menu entries.
pub open spec fn menu_view(m: Seq<MenuItem>) -> Seq<(u32, Seq<char>)> {
    m.map_values(|it: MenuItem| (it.op_id, it.label@))
}

fn push_item(m: &mut Vec<MenuItem>, id: OpId)
    ensures
        menu_view(final(m)@) == menu_view(old(m)@).push((id.code(), label_spec(id))),
{
    let item = MenuItem { op_id: id.as_u32(), label: owned(op_label(id)) };
    m.push(item);
    assert(menu_view(final(m)@) =~= menu_view(old(m)@).push((id.code(), label_spec(id))));
}

/// Which operations apply to a probed file: the video ops for a video, the
/// image ops for a still, or an empty menu for anything else.
pub fn menu_for(probe: &ProbeResult) -> (r: Vec<MenuItem>)
    ensures
        menu_view(r@) == menu_spec(probe@),
{
    let mut m: Vec<MenuItem> = Vec::new();
    if probe.is_video {
        push_item(&mut m, OpId::Convert);
        push_item(&mut m, OpId::Compress);
        push_item(&mut m, OpId::ExtractAudio);
        push_item(&mut m, OpId::Gif);
    } else if probe.is_image {
        push_item(&mut m, OpId::ImageConvert);
        push_item(&mut m, OpId::ImageResize);
        push_item(&mut m, OpId::ImageCompress);
    }
    assert(menu_view(m@) =~= menu_spec(probe@));
    m
}

/// The message for an operation number that names no operation.
pub open spec fn unknown_op_message(op_id: u32) -> Seq<char> {
    "unknown operation "@ + dec(op_id as nat)
}

/// The message when every candidate output name is taken.
pub open spec fn no_free_name_message() -> Seq<char> {
    "no free output name"@
}

/// Where operation `op_id` writes its output for `input`: collision-free
/// (as `path_exists` reports), next to the source, never the source.
pub fn plan_output_with<F: Fn(&str) -> bool>(
    input: &str,
    op_id: u32,
    params: &JobParams,
    path_exists: &F,
) -> (r: Result<String, EngineError>)
    requires
        forall|p: &str| path_exists.requires((p,)),
    ensures
        match op_of_code(op_id) {
            None => r matches Err(EngineError::BadRequest(m)) && m@ == unknown_op_message(op_id),
            Some(id) => match r {
                Ok(out) => chosen_output(
                    input@,
                    suffix_spec(id),
                    output_ext_spec(id, input@, *params),
                    *path_exists,
                    out@,
                ),
                Err(e) => (e matches EngineError::BadRequest(m) && m@ == no_free_name_message())
                    && all_taken(
                    input@,
                    suffix_spec(id),
                    output_ext_spec(id, input@, *params),
                    *path_exists,
                ),
            },
        },
{
    let id = match OpId::from_u32(op_id) {
        Some(id) => id,
        None => {
            let m = joined("unknown operation ", decimal(op_id as u64).as_str());
            return Err(EngineError::BadRequest(m));
        },
    };
    let suffix = op_output_suffix(id, params);
    let ext = op_output_ext(id, input, params);
    match output_path_with(input, suffix.as_str(), ext.as_str(), path_exists) {
        Some(out) => Ok(out),
        None => Err(EngineError::BadRequest(owned("no free output name"))),
    }
}

/// Everything a job needs before it runs: its output path (as
/// [`plan_output_with`] chooses it) and the stages that write it, using
/// `workdir` for intermediate files.
pub fn plan_job<F: Fn(&str) -> bool>(
    input: &str,
    op_id: u32,
    params: &JobParams,
    probe: &ProbeResult,
    workdir: &str,
    path_exists: &F,
) -> (r: Result<(String, Vec<Stage>), EngineError>)
    requires
        forall|p: &str| path_exists.requires((p,)),
    ensures
        match op_of_code(op_id) {
            None => r matches Err(EngineError::BadRequest(m)) && m@ == unknown_op_message(op_id),
            Some(id) => match r {
                Ok((out, stages)) => {
                    &&& chosen_output(
                        input@,
                        suffix_spec(id),
                        output_ext_spec(id, input@, *params),
                        *path_exists,
                        out@,
                    )
                    &&& stages_view(stages@) == stages_spec(id, input@, out@, workdir@, probe@, *params)
                },
                Err(e) => (e matches EngineError::BadRequest(m) && m@ == no_free_name_message())
                    && all_taken(
                    input@,
                    suffix_spec(id),
                    output_ext_spec(id, input@, *params),
                    *path_exists,
                ),
            },
        },
{
    let out = match plan_output_with(input, op_id, params, path_exists) {
        Ok(out) => out,
        Err(e) => {
            return Err(e);
        },
    };
    let id = OpId::from_u32(op_id).unwrap();
    let stages = op_build_stages(id, input, out.as_str(), workdir, probe, params);
    Ok((out, stages))
}

} // verus!
