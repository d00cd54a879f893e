use vstd::prelude::*;
use vstd::slice::slice_to_vec;

use crate::context::{pixfmt_code_spec, PixelFormat};

verus! {

/// One decoded picture, its planes copied out of native memory.
///
/// For NV12 the planes are the luma plane followed by the interleaved chroma
/// plane, and `linesize` holds the matching row strides.
#[derive(Debug, Clone)]
pub struct DecodeFrame {
    pub pixfmt: PixelFormat,
    pub width: i32,
    pub height: i32,
    pub data: Vec<Vec<u8>>,
    pub linesize: Vec<i32>,
    pub key: bool,
}

/// A decoded picture as values.
pub struct FrameView {
    pub pixfmt: PixelFormat,
    pub width: i32,
    pub height: i32,
    pub data: Seq<Seq<u8>>,
    pub linesize: Seq<i32>,
    pub key: bool,
}

impl View for DecodeFrame {
    type V = FrameView;

    open spec fn view(&self) -> FrameView {
        FrameView {
            pixfmt: self.pixfmt,
            width: self.width,
            height: self.height,
            data: self.data@.map_values(|p: Vec<u8>| p@),
            linesize: self.linesize@,
            key: self.key,
        }
    }
}

/// The byte lengths of the two NV12 planes.
#[derive(Debug, Clone, Copy, PartialEq, Eq, Structural)]
pub struct PlaneSizes {
    pub luma: usize,
    pub chroma: usize,
}

/// The tag of the one layout that frames are copied out for.
pub open spec fn is_nv12(format: i32) -> bool {
    format == pixfmt_code_spec(PixelFormat::NV12)
}

/// Luma plane: one row of `stride` bytes for each of the `height` rows.
pub open spec fn luma_len(stride: int, height: int) -> int {
    stride * height
}

/// Chroma plane: half the rows of the luma plane, in whole rows. An odd
/// height is floored to `height / 2` rows, so the plane never ends inside a row.
pub open spec fn chroma_len(stride: int, height: int) -> int {
    stride * (height / 2)
}

/// Strides and height that give plane lengths an allocation can have.
pub open spec fn layout_ok(luma_stride: int, chroma_stride: int, height: int) -> bool {
    &&& 0 <= luma_stride
    &&& 0 <= chroma_stride
    &&& 0 <= height
    &&& luma_len(luma_stride, height) <= usize::MAX
    &&& chroma_len(chroma_stride, height) <= usize::MAX
}

/// The plane lengths to copy for a frame that the native side reports, or
/// `None` where the frame has no copy-out path (another layout, or negative
/// or oversized dimensions).
pub fn plane_sizes(format: i32, luma_stride: i32, chroma_stride: i32, height: i32) -> (r: Option<
    PlaneSizes,
>)
    ensures
        r is Some <==> is_nv12(format) && layout_ok(
            luma_stride as int,
            chroma_stride as int,
            height as int,
        ),
        r matches Some(s) ==> s.luma == luma_len(luma_stride as int, height as int) && s.chroma
            == chroma_len(chroma_stride as int, height as int),
{
    if format != PixelFormat::NV12.code() || luma_stride < 0 || chroma_stride < 0 || height < 0 {
        return None;
    }
    let l0 = luma_stride as u64;
    let l1 = chroma_stride as u64;
    let h = height as u64;
    let half = h / 2;
    assert(l0 * h < 0x4000_0000_0000_0000 && l1 * half < 0x4000_0000_0000_0000) by (nonlinear_arith)
        requires
            l0 < 0x8000_0000,
            l1 < 0x8000_0000,
            h < 0x8000_0000,
            half <= h,
    ;
    let luma: u64 = l0 * h;
    let chroma: u64 = l1 * half;
    if luma > usize::MAX as u64 || chroma > usize::MAX as u64 {
        return None;
    }
    Some(PlaneSizes { luma: luma as usize, chroma: chroma as usize })
}

/// What one invocation of the native frame callback handed over: the layout
/// tag, the picture size, the bytes that were copied for each plane, the row
/// strides, and whether the picture is a key frame.
pub struct FrameReport {
    pub format: i32,
    pub width: i32,
    pub height: i32,
    pub luma: Seq<u8>,
    pub chroma: Seq<u8>,
    pub luma_stride: i32,
    pub chroma_stride: i32,
    pub key: bool,
}

/// What became of one reported frame. Every outcome but `Stored` drops the
/// frame and is a warning for the caller to record.
#[derive(Debug, Clone, Copy, PartialEq, Eq, Structural)]
pub enum FrameOutcome {
    Stored,
    UnsupportedFormat(i32),
    InvalidLayout,
}

pub open spec fn outcome_of(r: FrameReport) -> FrameOutcome {
    if !is_nv12(r.format) {
        FrameOutcome::UnsupportedFormat(r.format)
    } else if !layout_ok(r.luma_stride as int, r.chroma_stride as int, r.height as int)
        || r.luma.len() != luma_len(r.luma_stride as int, r.height as int) || r.chroma.len()
        != chroma_len(r.chroma_stride as int, r.height as int) {
        FrameOutcome::InvalidLayout
    } else {
        FrameOutcome::Stored
    }
}

/// The frame that a stored report becomes.
pub open spec fn frame_of(r: FrameReport) -> FrameView {
    FrameView {
        pixfmt: PixelFormat::NV12,
        width: r.width,
        height: r.height,
        data: seq![r.luma, r.chroma],
        linesize: seq![r.luma_stride, r.chroma_stride],
        key: r.key,
    }
}

/// The frames that a run of reports leaves, in the order they were reported.
pub open spec fn frames_of(rs: Seq<FrameReport>) -> Seq<FrameView>
    decreases rs.len(),
{
    if rs.len() == 0 {
        seq![]
    } else if outcome_of(rs.last()) is Stored {
        frames_of(rs.drop_last()).push(frame_of(rs.last()))
    } else {
        frames_of(rs.drop_last())
    }
}

/// The number of warnings that a run of reports gives: one per dropped frame.
pub open spec fn warnings_of(rs: Seq<FrameReport>) -> nat
    decreases rs.len(),
{
    if rs.len() == 0 {
        0
    } else if outcome_of(rs.last()) is Stored {
        warnings_of(rs.drop_last())
    } else {
        warnings_of(rs.drop_last()) + 1
    }
}

/// Every report leaves either a frame or a warning: over a run of reports the
/// frames kept and the warnings given add up to the number of reports.
pub proof fn frames_and_warnings_count_reports(rs: Seq<FrameReport>)
    ensures
        frames_of(rs).len() + warnings_of(rs) == rs.len(),
    decreases rs.len(),
{
    if rs.len() > 0 {
        frames_and_warnings_count_reports(rs.drop_last());
    }
}

/// A stored frame is NV12, its luma plane holds `luma_stride * height` bytes
/// and its chroma plane `chroma_stride * (height / 2)` bytes: whole rows.
pub proof fn stored_frame_plane_lengths(r: FrameReport)
    requires
        outcome_of(r) is Stored,
    ensures
        frame_of(r).pixfmt == PixelFormat::NV12,
        frame_of(r).data.len() == 2,
        frame_of(r).data[0].len() == r.luma_stride as int * r.height as int,
        frame_of(r).data[1].len() == r.chroma_stride as int * (r.height as int / 2),
        frame_of(r).linesize == seq![r.luma_stride, r.chroma_stride],
{
}

/// A report in any layout but NV12 adds no frame and gives exactly one warning.
pub proof fn unsupported_format_gives_one_warning(rs: Seq<FrameReport>, r: FrameReport)
    requires
        !is_nv12(r.format),
    ensures
        outcome_of(r) == FrameOutcome::UnsupportedFormat(r.format),
        frames_of(rs.push(r)) == frames_of(rs),
        warnings_of(rs.push(r)) == warnings_of(rs) + 1,
{
    assert(rs.push(r).drop_last() =~= rs);
}

/// The reports of a run that are stored, in order.
pub open spec fn stored_reports(rs: Seq<FrameReport>) -> Seq<FrameReport> {
    rs.filter(|r: FrameReport| outcome_of(r) is Stored)
}

/// The reports of a run in the NV12 layout, in order.
pub open spec fn nv12_reports(rs: Seq<FrameReport>) -> Seq<FrameReport> {
    rs.filter(|r: FrameReport| is_nv12(r.format))
}

/// The frames of a run are its stored reports, each made a frame, in order;
/// reports in another layout change nothing, so the frames of a run are
/// those of its NV12 reports alone; and where every report is stored there
/// is one frame per report.
pub proof fn frames_are_stored_reports(rs: Seq<FrameReport>)
    ensures
        frames_of(rs).len() == stored_reports(rs).len(),
        forall|i: int|
            0 <= i < frames_of(rs).len() ==> #[trigger] frames_of(rs)[i] == frame_of(
                stored_reports(rs)[i],
            ),
        frames_of(rs) == frames_of(nv12_reports(rs)),
        (forall|i: int| 0 <= i < rs.len() ==> outcome_of(#[trigger] rs[i]) is Stored)
            ==> frames_of(rs).len() == rs.len(),
    decreases rs.len(),
{
    reveal(Seq::filter);
    if rs.len() > 0 {
        let prev = rs.drop_last();
        frames_are_stored_reports(prev);
        assert(stored_reports(rs) == if outcome_of(rs.last()) is Stored {
            stored_reports(prev).push(rs.last())
        } else {
            stored_reports(prev)
        });
        let n = nv12_reports(rs);
        if is_nv12(rs.last().format) {
            assert(n == nv12_reports(prev).push(rs.last()));
            assert(n.drop_last() =~= nv12_reports(prev));
        } else {
            assert(n == nv12_reports(prev));
        }
        if forall|i: int| 0 <= i < rs.len() ==> outcome_of(#[trigger] rs[i]) is Stored {
            assert forall|i: int| 0 <= i < prev.len() implies outcome_of(#[trigger] prev[i]) is Stored by {
                assert(prev[i] == rs[i]);
            }
            assert(outcome_of(rs[rs.len() - 1]) is Stored);
        }
    } else {
        assert(nv12_reports(rs) =~= rs);
    }
}

impl DecodeFrame {
    /// Copies the two NV12 planes of a reported frame into an owned frame.
    pub fn copy_nv12(
        width: i32,
        height: i32,
        luma: &[u8],
        chroma: &[u8],
        luma_stride: i32,
        chroma_stride: i32,
        key: bool,
    ) -> (r: DecodeFrame)
        ensures
            r@ == frame_of(
                FrameReport {
                    format: pixfmt_code_spec(PixelFormat::NV12),
                    width,
                    height,
                    luma: luma@,
                    chroma: chroma@,
                    luma_stride,
                    chroma_stride,
                    key,
                },
            ),
    {
        let mut data: Vec<Vec<u8>> = Vec::new();
        data.push(slice_to_vec(luma));
        data.push(slice_to_vec(chroma));
        let mut linesize: Vec<i32> = Vec::new();
        linesize.push(luma_stride);
        linesize.push(chroma_stride);
        let r = DecodeFrame { pixfmt: PixelFormat::NV12, width, height, data, linesize, key };
        assert(r@.data =~= seq![luma@, chroma@]);
        assert(r@.linesize =~= seq![luma_stride, chroma_stride]);
        r
    }
}

} // verus!
