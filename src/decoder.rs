use vstd::prelude::*;

use crate::context::{DecodeContext, PixelFormat};
use crate::frame::{
    frame_of, frames_and_warnings_count_reports, frames_are_stored_reports, frames_of,
    nv12_reports, outcome_of, plane_sizes, stored_reports, warnings_of, DecodeFrame, FrameOutcome, FrameReport, FrameView,
};

verus! {

/// What a decode call asks of the native side once the frame buffer is cleared.
#[derive(Debug, Clone, Copy, PartialEq, Eq, Structural)]
pub enum DecodeStep {
    /// Hand the packet to the native decoder, with `callback` as its frame handler.
    Invoke,
    /// Nothing to decode: the packet is empty, no frame can come of it.
    Skip,
    /// An earlier native decode failed with this code; the decoder must be
    /// constructed anew before it decodes again.
    Refuse(i32),
}

/// A decoder bound to one native backend handle, with the buffer that
/// collects the frames of the current decode call.
pub struct Decoder {
    ctx: DecodeContext,
    handle: usize,
    frames: Vec<DecodeFrame>,
    failure: Option<i32>,
    reports: Ghost<Seq<FrameReport>>,
}

/// A decoder as values: its context and handle, the frames and reports of
/// the current call, and the code of a failed native decode, if one failed.
pub struct DecoderView {
    pub ctx: DecodeContext,
    pub handle: usize,
    pub frames: Seq<FrameView>,
    pub reports: Seq<FrameReport>,
    pub failure: Option<i32>,
}

impl View for Decoder {
    type V = DecoderView;

    closed spec fn view(&self) -> DecoderView {
        DecoderView {
            ctx: self.ctx,
            handle: self.handle,
            frames: self.frames@.map_values(|f: DecodeFrame| f@),
            reports: self.reports@,
            failure: self.failure,
        }
    }
}

/// A live decoder holds a non-null handle, its buffer holds exactly the
/// frames that the reports of the current call give, and a recorded failure
/// is a negative code.
pub open spec fn decoder_inv(v: DecoderView) -> bool {
    &&& v.handle != 0
    &&& v.frames == frames_of(v.reports)
    &&& v.failure matches Some(c) ==> c < 0
}

/// The state after a decode call begins, and what it asks of the native side.
pub open spec fn begin_spec(v: DecoderView, packet_len: nat) -> (DecoderView, DecodeStep) {
    let cleared = DecoderView { frames: seq![], reports: seq![], ..v };
    let step = match v.failure {
        Some(c) => DecodeStep::Refuse(c),
        None => if packet_len == 0 {
            DecodeStep::Skip
        } else {
            DecodeStep::Invoke
        },
    };
    (cleared, step)
}

/// The state after the native side reports one frame.
pub open spec fn callback_spec(v: DecoderView, r: FrameReport) -> DecoderView {
    DecoderView {
        frames: if outcome_of(r) is Stored {
            v.frames.push(frame_of(r))
        } else {
            v.frames
        },
        reports: v.reports.push(r),
        ..v
    }
}

/// The state after the native decode returns `ret`, and what the call gives.
pub open spec fn finish_spec(v: DecoderView, ret: i32) -> (DecoderView, Result<Seq<FrameView>, i32>) {
    if ret < 0 {
        (DecoderView { failure: Some(ret), ..v }, Err(ret))
    } else {
        (v, Ok(v.frames))
    }
}

/// The state after the native side reports each of `rs` in turn.
pub open spec fn callbacks_spec(v: DecoderView, rs: Seq<FrameReport>) -> DecoderView
    decreases rs.len(),
{
    if rs.len() == 0 {
        v
    } else {
        callback_spec(callbacks_spec(v, rs.drop_last()), rs.last())
    }
}

/// One whole decode call on a packet of `packet_len` bytes. Where the native
/// decoder is invoked it reports `rs` and returns `ret`; where it is not, no
/// frame is reported and the call succeeds.
pub open spec fn decode_call_spec(v: DecoderView, packet_len: nat, rs: Seq<FrameReport>, ret: i32) -> (
    DecoderView,
    Result<Seq<FrameView>, i32>,
) {
    let (b, step) = begin_spec(v, packet_len);
    match step {
        DecodeStep::Refuse(c) => (b, Err(c)),
        DecodeStep::Skip => finish_spec(b, 0),
        DecodeStep::Invoke => finish_spec(callbacks_spec(b, rs), ret),
    }
}

proof fn callbacks_extend(v: DecoderView, rs: Seq<FrameReport>)
    requires
        decoder_inv(v),
    ensures
        decoder_inv(callbacks_spec(v, rs)),
        callbacks_spec(v, rs).reports == v.reports + rs,
        callbacks_spec(v, rs) == (DecoderView {
            frames: frames_of(v.reports + rs),
            reports: v.reports + rs,
            ..v
        }),
    decreases rs.len(),
{
    if rs.len() > 0 {
        callbacks_extend(v, rs.drop_last());
        let all = v.reports + rs;
        let prev = callbacks_spec(v, rs.drop_last());
        assert(all.drop_last() =~= v.reports + rs.drop_last());
        assert(all.last() == rs.last());
        assert(prev.frames == frames_of(all.drop_last()));
        assert(callbacks_spec(v, rs) == callback_spec(prev, rs.last()));
        assert(callback_spec(prev, rs.last()).reports =~= all);
    } else {
        assert(v.reports + rs =~= v.reports);
    }
}

/// Decoding an empty packet invokes no frame handler and gives no frame,
/// whatever the native side would have reported.
pub proof fn empty_packet_gives_no_frames(v: DecoderView, rs: Seq<FrameReport>, ret: i32)
    requires
        decoder_inv(v),
        v.failure is None,
    ensures
        begin_spec(v, 0).1 == DecodeStep::Skip,
        decode_call_spec(v, 0, rs, ret).1 == Ok::<Seq<FrameView>, i32>(seq![]),
{
}

/// A decode call that succeeds gives exactly the frames of its own reports,
/// one for each report that was not dropped, whatever the decoder held
/// before: two decoders fed the same call give equal results, so results
/// never grow from one call to the next.
pub proof fn decode_call_frames_are_its_reports(
    v: DecoderView,
    w: DecoderView,
    packet_len: nat,
    rs: Seq<FrameReport>,
    ret: i32,
)
    requires
        decoder_inv(v),
        decoder_inv(w),
        v.failure is None,
        w.failure is None,
    ensures
        decode_call_spec(v, packet_len, rs, ret).1 == decode_call_spec(w, packet_len, rs, ret).1,
        packet_len > 0 ==> (decode_call_spec(v, packet_len, rs, ret).1 matches Ok(fs) ==> fs
            == frames_of(rs) && fs.len() + warnings_of(rs) == rs.len()),
{
    let bv = begin_spec(v, packet_len).0;
    let bw = begin_spec(w, packet_len).0;
    callbacks_extend(bv, rs);
    callbacks_extend(bw, rs);
    assert(bv.reports + rs =~= rs);
    assert(bw.reports + rs =~= rs);
    frames_and_warnings_count_reports(rs);
}

/// A successful decode call of a non-empty packet gives one frame per
/// stored report, in report order: reports in another layout leave the
/// result as it would be without them, and where every report is a valid
/// NV12 frame the result has exactly one entry per report.
pub proof fn decode_call_gives_stored_reports(
    v: DecoderView,
    packet_len: nat,
    rs: Seq<FrameReport>,
    ret: i32,
)
    requires
        decoder_inv(v),
        v.failure is None,
        packet_len > 0,
        ret >= 0,
    ensures
        decode_call_spec(v, packet_len, rs, ret).1 == Ok::<Seq<FrameView>, i32>(frames_of(rs)),
        frames_of(rs) == frames_of(nv12_reports(rs)),
        frames_of(rs).len() == stored_reports(rs).len(),
        forall|i: int|
            0 <= i < frames_of(rs).len() ==> #[trigger] frames_of(rs)[i] == frame_of(
                stored_reports(rs)[i],
            ),
        (forall|i: int| 0 <= i < rs.len() ==> outcome_of(#[trigger] rs[i]) is Stored)
            ==> frames_of(rs).len() == rs.len(),
{
    decode_call_frames_are_its_reports(v, v, packet_len, rs, ret);
    frames_are_stored_reports(rs);
}

/// Repeating a successful decode call, with the native side reporting the
/// same frames again, gives a result equal to the first: nothing carries
/// over from one call to the next.
pub proof fn repeated_decode_call_gives_equal_result(
    v: DecoderView,
    packet_len: nat,
    rs: Seq<FrameReport>,
    ret: i32,
)
    requires
        decoder_inv(v),
        v.failure is None,
        ret >= 0,
    ensures
        decoder_inv(decode_call_spec(v, packet_len, rs, ret).0),
        decode_call_spec(decode_call_spec(v, packet_len, rs, ret).0, packet_len, rs, ret).1
            == decode_call_spec(v, packet_len, rs, ret).1,
{
    let b = begin_spec(v, packet_len).0;
    callbacks_extend(b, rs);
    let w = decode_call_spec(v, packet_len, rs, ret).0;
    assert(decoder_inv(w));
    assert(w.failure is None);
    decode_call_frames_are_its_reports(w, v, packet_len, rs, ret);
}

/// A packet that the native side answers with one valid NV12 key frame, and
/// a success code, gives exactly that one frame: a key frame in NV12.
pub proof fn one_key_frame_call(v: DecoderView, packet_len: nat, r: FrameReport)
    requires
        decoder_inv(v),
        v.failure is None,
        packet_len > 0,
        outcome_of(r) is Stored,
        r.key,
    ensures
        decode_call_spec(v, packet_len, seq![r], 0).1 == Ok::<Seq<FrameView>, i32>(
            seq![frame_of(r)],
        ),
        frame_of(r).key,
        frame_of(r).pixfmt == PixelFormat::NV12,
{
    decode_call_frames_are_its_reports(v, v, packet_len, seq![r], 0);
    assert(seq![r].drop_last() =~= Seq::<FrameReport>::empty());
    assert(frames_of(seq![r]) =~= seq![frame_of(r)]);
}

impl Decoder {
    pub open spec fn wf(&self) -> bool {
        decoder_inv(self@)
    }

    /// Wraps the handle that the backend's construct call returned. A null
    /// handle means the backend refused the combination: no decoder is made.
    pub fn new(ctx: DecodeContext, handle: usize) -> (r: Result<Decoder, ()>)
        ensures
            r is Err <==> handle == 0,
            r matches Ok(d) ==> d.wf() && d@ == (DecoderView {
                ctx,
                handle,
                frames: seq![],
                reports: seq![],
                failure: None,
            }),
    {
        if handle == 0 {
            return Err(());
        }
        let d = Decoder {
            ctx,
            handle,
            frames: Vec::new(),
            failure: None,
            reports: Ghost(Seq::empty()),
        };
        assert(d@.frames =~= seq![]);
        Ok(d)
    }

    /// The context the decoder was constructed with; it stays fixed.
    pub fn ctx(&self) -> (r: &DecodeContext)
        ensures
            *r == self@.ctx,
    {
        &self.ctx
    }

    /// The native handle, for the backend's decode and destroy calls.
    pub fn handle(&self) -> (r: usize)
        ensures
            r == self@.handle,
    {
        self.handle
    }

    /// Begins a decode call on `packet`: discards the frames of the previous
    /// call and says whether the native decoder is to be invoked.
    pub fn decode(&mut self, packet: &[u8]) -> (r: DecodeStep)
        requires
            old(self).wf(),
        ensures
            final(self).wf(),
            (final(self)@, r) == begin_spec(old(self)@, packet@.len()),
    {
        self.frames.clear();
        self.reports = Ghost(Seq::empty());
        proof {
            assert(self@.frames =~= seq![]);
        }
        match self.failure {
            Some(c) => DecodeStep::Refuse(c),
            None => if packet.len() == 0 {
                DecodeStep::Skip
            } else {
                DecodeStep::Invoke
            },
        }
    }

    /// Handles one frame that the native decoder reports during a decode
    /// call. The planes must already be copied out of native memory, cut to
    /// the lengths that `plane_sizes` gives. An NV12 frame whose planes have
    /// those lengths is stored; any other is dropped, and the outcome says why.
    pub fn callback(
        &mut self,
        format: i32,
        width: i32,
        height: i32,
        luma: &[u8],
        chroma: &[u8],
        luma_stride: i32,
        chroma_stride: i32,
        key: bool,
    ) -> (r: FrameOutcome)
        requires
            old(self).wf(),
        ensures
            final(self).wf(),
            ({
                let rep = FrameReport {
                    format,
                    width,
                    height,
                    luma: luma@,
                    chroma: chroma@,
                    luma_stride,
                    chroma_stride,
                    key,
                };
                &&& r == outcome_of(rep)
                &&& final(self)@ == callback_spec(old(self)@, rep)
            }),
    {
        let ghost rep = FrameReport {
            format,
            width,
            height,
            luma: luma@,
            chroma: chroma@,
            luma_stride,
            chroma_stride,
            key,
        };
        let ghost old_frames = self@.frames;
        let r = match plane_sizes(format, luma_stride, chroma_stride, height) {
            None => {
                if format != PixelFormat::NV12.code() {
                    FrameOutcome::UnsupportedFormat(format)
                } else {
                    FrameOutcome::InvalidLayout
                }
            },
            Some(sizes) => {
                if luma.len() != sizes.luma || chroma.len() != sizes.chroma {
                    FrameOutcome::InvalidLayout
                } else {
                    let frame = DecodeFrame::copy_nv12(
                        width,
                        height,
                        luma,
                        chroma,
                        luma_stride,
                        chroma_stride,
                        key,
                    );
                    self.frames.push(frame);
                    FrameOutcome::Stored
                }
            },
        };
        self.reports = Ghost(self.reports@.push(rep));
        proof {
            let rs = self.reports@;
            assert(rs.last() == rep);
            assert(rs.drop_last() == old(self)@.reports);
            if r is Stored {
                assert(self@.frames =~= old_frames.push(frame_of(rep)));
            } else {
                assert(self@.frames =~= old_frames);
            }
        }
        r
    }

    /// Ends a decode call with the native decoder's return code: a negative
    /// code is the call's failure, and is kept so that later calls refuse;
    /// otherwise the call gives the frames collected since it began.
    pub fn finish(&mut self, ret: i32) -> (r: Result<&Vec<DecodeFrame>, i32>)
        requires
            old(self).wf(),
        ensures
            final(self).wf(),
            final(self)@ == finish_spec(old(self)@, ret).0,
            r matches Ok(fs) ==> finish_spec(old(self)@, ret).1 == Ok::<Seq<FrameView>, i32>(
                fs@.map_values(|f: DecodeFrame| f@),
            ),
            r matches Err(c) ==> finish_spec(old(self)@, ret).1 == Err::<Seq<FrameView>, i32>(c),
    {
        if ret < 0 {
            self.failure = Some(ret);
            Err(ret)
        } else {
            Ok(&self.frames)
        }
    }

    /// The frames of the current decode call.
    pub fn frames(&self) -> (r: &Vec<DecodeFrame>)
        ensures
            r@.map_values(|f: DecodeFrame| f@) == self@.frames,
    {
        &self.frames
    }
}

} // verus!
