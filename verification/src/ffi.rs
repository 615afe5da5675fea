//! The values that cross the boundary to the Swift app: operation numbers and
//! labels, the batch menu, and the advanced knobs as plain numeric codes. The
//! bridge itself lives outside the library and calls these.

use crate::menu_ids;
use crate::ops::{
    label_spec, op_label as label_of, op_of_code, AudioFormat, CompressMode, ImageFormat,
    JobParams, OpId, VideoCodec,
};
use crate::probe::ProbeView;
use crate::text::owned;
use vstd::prelude::*;

verus! {

/// The label of operation number `op_id` (empty if it names no operation).
pub open spec fn op_label_spec(op_id: u32) -> Seq<char> {
    match op_of_code(op_id) {
        Some(id) => label_spec(id),
        None => Seq::<char>::empty(),
    }
}

/// Human-readable label for an operation number (empty if unknown).
pub fn op_label(op_id: u32) -> (r: String)
    ensures
        r@ == op_label_spec(op_id),
{
    match OpId::from_u32(op_id) {
        Some(id) => owned(label_of(id)),
        None => String::new(),
    }
}

/// The operations offered for a batch holding the kinds given: the union of
/// the video ops, the image ops, and the sheet conversion of each sheet kind,
/// in that order.
pub open spec fn batch_menu(is_video: bool, is_image: bool, is_csv: bool, is_xlsx: bool) -> Seq<
    OpId,
> {
    (if is_video {
        seq![OpId::Convert, OpId::Compress, OpId::ExtractAudio, OpId::Gif]
    } else {
        Seq::<OpId>::empty()
    }) + (if is_image {
        seq![OpId::ImageConvert, OpId::ImageResize, OpId::ImageCompress]
    } else {
        Seq::<OpId>::empty()
    }) + (if is_csv {
        seq![OpId::SheetToXlsx]
    } else {
        Seq::<OpId>::empty()
    }) + (if is_xlsx {
        seq![OpId::SheetToCsv]
    } else {
        Seq::<OpId>::empty()
    })
}

/// The numbers of a list of operations.
pub open spec fn codes_of(ids: Seq<OpId>) -> Seq<u32> {
    ids.map_values(|id: OpId| id.code())
}

fn push_code(ids: &mut Vec<u32>, id: OpId)
    ensures
        final(ids)@ == old(ids)@.push(id.code()),
{
    ids.push(id.as_u32());
}

/// Operation numbers of the preset menu for a batch, in display order. A
/// same-kind batch yields just that kind's ops; a mixed batch the union.
pub fn menu_op_ids(is_video: bool, is_image: bool, is_csv: bool, is_xlsx: bool) -> (r: Vec<u32>)
    ensures
        r@ == codes_of(batch_menu(is_video, is_image, is_csv, is_xlsx)),
{
    let mut ids: Vec<u32> = Vec::new();
    if is_video {
        push_code(&mut ids, OpId::Convert);
        push_code(&mut ids, OpId::Compress);
        push_code(&mut ids, OpId::ExtractAudio);
        push_code(&mut ids, OpId::Gif);
    }
    if is_image {
        push_code(&mut ids, OpId::ImageConvert);
        push_code(&mut ids, OpId::ImageResize);
        push_code(&mut ids, OpId::ImageCompress);
    }
    if is_csv {
        push_code(&mut ids, OpId::SheetToXlsx);
    }
    if is_xlsx {
        push_code(&mut ids, OpId::SheetToCsv);
    }
    assert(ids@ =~= codes_of(batch_menu(is_video, is_image, is_csv, is_xlsx)));
    ids
}

/// A batch of one media kind is offered exactly the menu a single file of
/// that kind is offered.
pub proof fn lemma_batch_menu_matches_single(probe: ProbeView)
    ensures
        probe.is_video ==> batch_menu(true, false, false, false) == menu_ids(probe),
        !probe.is_video && probe.is_image ==> batch_menu(false, true, false, false) == menu_ids(
            probe,
        ),
{
    assert(batch_menu(true, false, false, false) =~= seq![
        OpId::Convert,
        OpId::Compress,
        OpId::ExtractAudio,
        OpId::Gif,
    ]);
    assert(batch_menu(false, true, false, false) =~= seq![
        OpId::ImageConvert,
        OpId::ImageResize,
        OpId::ImageCompress,
    ]);
}

/// The advanced knobs as the UI sends them: enums as small numeric codes,
/// `max_height` 0 for "keep original", the target size in kilobytes.
#[derive(Debug, Clone, Copy)]
pub struct RawJobParams {
    /// 0 h264, 1 hevc.
    pub video_codec: u32,
    pub crf: u32,
    /// 0 keeps the original height.
    pub max_height: u32,
    pub hw_accel: bool,
    /// 0 target size, 1 constant quality.
    pub compress_mode: u32,
    pub target_kb: u64,
    /// 0 mp3, 1 m4a.
    pub audio_format: u32,
    pub audio_bitrate_k: u32,
    pub gif_fps: u32,
    pub gif_width: u32,
    /// 0 jpg, 1 png, 2 webp.
    pub image_format: u32,
    /// 1 to 100.
    pub image_quality: u32,
    /// Longest side, in pixels.
    pub image_max_dim: u32,
}

/// The knobs a raw parameter set stands for. Unknown codes fall back to the
/// first choice; the quality factor is clamped to 51.
pub open spec fn job_params_of(p: RawJobParams) -> JobParams {
    JobParams {
        video_codec: if p.video_codec == 1 {
            VideoCodec::Hevc
        } else {
            VideoCodec::H264
        },
        crf: (if p.crf > 51 {
            51
        } else {
            p.crf
        }) as u8,
        max_height: if p.max_height == 0 {
            None
        } else {
            Some(p.max_height)
        },
        hw_accel: p.hw_accel,
        compress_mode: if p.compress_mode == 1 {
            CompressMode::Crf
        } else {
            CompressMode::TargetSize
        },
        target_kb: p.target_kb,
        audio_format: if p.audio_format == 1 {
            AudioFormat::M4a
        } else {
            AudioFormat::Mp3
        },
        audio_bitrate_k: p.audio_bitrate_k,
        gif_fps: p.gif_fps,
        gif_width: p.gif_width,
        image_format: if p.image_format == 1 {
            ImageFormat::Png
        } else if p.image_format == 2 {
            ImageFormat::Webp
        } else {
            ImageFormat::Jpg
        },
        image_quality: p.image_quality,
        image_max_dim: p.image_max_dim,
    }
}

/// Decode the knobs the UI sent.
pub fn to_job_params(p: &RawJobParams) -> (r: JobParams)
    ensures
        r == job_params_of(*p),
{
    let crf: u8 = if p.crf > 51 {
        51
    } else {
        p.crf as u8
    };
    JobParams {
        video_codec: if p.video_codec == 1 {
            VideoCodec::Hevc
        } else {
            VideoCodec::H264
        },
        crf,
        max_height: if p.max_height == 0 {
            None
        } else {
            Some(p.max_height)
        },
        hw_accel: p.hw_accel,
        compress_mode: if p.compress_mode == 1 {
            CompressMode::Crf
        } else {
            CompressMode::TargetSize
        },
        target_kb: p.target_kb,
        audio_format: if p.audio_format == 1 {
            AudioFormat::M4a
        } else {
            AudioFormat::Mp3
        },
        audio_bitrate_k: p.audio_bitrate_k,
        gif_fps: p.gif_fps,
        gif_width: p.gif_width,
        image_format: match p.image_format {
            1 => ImageFormat::Png,
            2 => ImageFormat::Webp,
            _ => ImageFormat::Jpg,
        },
        image_quality: p.image_quality,
        image_max_dim: p.image_max_dim,
    }
}

} // verus!
