use codec::context::{CodecID, DecodeContext, DecodeDriver, HWDeviceType, PixelFormat};
use codec::decoder::{DecodeStep, Decoder};
use codec::frame::{plane_sizes, FrameOutcome, PlaneSizes};

const NV12: i32 = 0;

fn ctx() -> DecodeContext {
    DecodeContext {
        driver: DecodeDriver::CUVID,
        device: HWDeviceType::CUDA,
        pixfmt: PixelFormat::NV12,
        codec: CodecID::H264,
        gpu: 0,
    }
}

fn decoder() -> Decoder {
    Decoder::new(ctx(), 0x1000).unwrap()
}

/// Reports one NV12 frame of `height` rows, planes cut to the lengths the
/// library asks for.
fn report(d: &mut Decoder, height: i32, stride: i32, key: bool, fill: u8) -> FrameOutcome {
    let sizes = plane_sizes(NV12, stride, stride, height).unwrap();
    let luma = vec![fill; sizes.luma];
    let chroma = vec![fill.wrapping_add(1); sizes.chroma];
    d.callback(NV12, stride, height, &luma, &chroma, stride, stride, key)
}

#[test]
fn plane_sizes_full_hd() {
    assert_eq!(
        plane_sizes(NV12, 1920, 1920, 1080),
        Some(PlaneSizes { luma: 1920 * 1080, chroma: 1920 * 540 })
    );
}

#[test]
fn plane_sizes_padded_strides() {
    assert_eq!(
        plane_sizes(NV12, 2048, 1024, 720),
        Some(PlaneSizes { luma: 2048 * 720, chroma: 1024 * 360 })
    );
}

#[test]
fn plane_sizes_odd_height_floors_chroma_to_whole_rows() {
    assert_eq!(plane_sizes(NV12, 5, 5, 3), Some(PlaneSizes { luma: 15, chroma: 5 }));
    assert_eq!(plane_sizes(NV12, 8, 4, 3), Some(PlaneSizes { luma: 24, chroma: 4 }));
    assert_eq!(plane_sizes(NV12, 8, 4, 1), Some(PlaneSizes { luma: 8, chroma: 0 }));
}

#[test]
fn odd_height_chroma_of_a_row_and_a_half_is_dropped() {
    let mut d = decoder();
    d.decode(&[1]);
    let luma = vec![0u8; 12];
    assert_eq!(
        d.callback(NV12, 4, 3, &luma, &vec![0u8; 6], 4, 4, true),
        FrameOutcome::InvalidLayout
    );
    assert_eq!(d.callback(NV12, 4, 3, &luma, &vec![0u8; 4], 4, 4, true), FrameOutcome::Stored);
    assert_eq!(d.frames()[0].data[1].len(), 4);
}

#[test]
fn plane_sizes_rejects_other_layouts_and_negative_dimensions() {
    assert_eq!(plane_sizes(1, 64, 64, 64), None);
    assert_eq!(plane_sizes(7, 64, 64, 64), None);
    assert_eq!(plane_sizes(NV12, -64, 64, 64), None);
    assert_eq!(plane_sizes(NV12, 64, -1, 64), None);
    assert_eq!(plane_sizes(NV12, 64, 64, -2), None);
}

#[test]
fn plane_sizes_largest_dimensions() {
    let m = i32::MAX;
    let luma = (m as u64) * (m as u64);
    assert_eq!(
        plane_sizes(NV12, m, m, m),
        Some(PlaneSizes { luma: luma as usize, chroma: ((m as u64) * (m as u64 / 2)) as usize })
    );
}

#[test]
fn null_handle_is_a_construction_failure() {
    assert!(Decoder::new(ctx(), 0).is_err());
}

#[test]
fn live_handle_is_kept() {
    let d = Decoder::new(ctx(), 0xdead_0000).unwrap();
    assert_eq!(d.handle(), 0xdead_0000);
    assert_eq!(*d.ctx(), ctx());
    assert!(d.frames().is_empty());
}

#[test]
fn empty_packet_skips_the_native_decoder() {
    let mut d = decoder();
    report(&mut d, 4, 8, true, 1);
    assert_eq!(d.decode(&[]), DecodeStep::Skip);
    let frames = d.finish(0).unwrap();
    assert!(frames.is_empty());
}

#[test]
fn non_empty_packet_invokes_the_native_decoder() {
    let mut d = decoder();
    assert_eq!(d.decode(&[0, 0, 0, 1, 0x67]), DecodeStep::Invoke);
}

#[test]
fn one_key_frame_gives_one_nv12_frame() {
    let mut d = decoder();
    assert_eq!(d.decode(&[0, 0, 0, 1, 0x65]), DecodeStep::Invoke);
    assert_eq!(report(&mut d, 4, 8, true, 9), FrameOutcome::Stored);
    let frames = d.finish(0).unwrap();
    assert_eq!(frames.len(), 1);
    let f = &frames[0];
    assert!(f.key);
    assert_eq!(f.pixfmt, PixelFormat::NV12);
    assert_eq!(f.width, 8);
    assert_eq!(f.height, 4);
    assert_eq!(f.data.len(), 2);
    assert_eq!(f.data[0], vec![9u8; 32]);
    assert_eq!(f.data[1], vec![10u8; 16]);
    assert_eq!(f.linesize, vec![8, 8]);
}

#[test]
fn stored_planes_follow_the_sizing_law() {
    let mut d = decoder();
    d.decode(&[1]);
    let luma = vec![3u8; 6 * 5];
    let chroma = vec![4u8; 4 * (5 / 2)];
    assert_eq!(d.callback(NV12, 6, 5, &luma, &chroma, 6, 4, false), FrameOutcome::Stored);
    let f = &d.frames()[0];
    assert_eq!(f.data[0].len(), 30);
    assert_eq!(f.data[1].len(), 8);
    assert_eq!(f.linesize, vec![6, 4]);
    assert!(!f.key);
}

#[test]
fn unsupported_format_is_dropped_with_a_warning() {
    let mut d = decoder();
    d.decode(&[1]);
    assert_eq!(report(&mut d, 2, 4, true, 0), FrameOutcome::Stored);
    let luma = vec![0u8; 8];
    let chroma = vec![0u8; 8];
    assert_eq!(
        d.callback(1, 4, 2, &luma, &chroma, 4, 4, false),
        FrameOutcome::UnsupportedFormat(1)
    );
    assert_eq!(d.frames().len(), 1);
    assert_eq!(d.finish(0).unwrap().len(), 1);
}

#[test]
fn planes_of_the_wrong_length_are_dropped() {
    let mut d = decoder();
    d.decode(&[1]);
    let luma = vec![0u8; 7];
    let chroma = vec![0u8; 4];
    assert_eq!(d.callback(NV12, 4, 2, &luma, &chroma, 4, 4, false), FrameOutcome::InvalidLayout);
    assert_eq!(d.callback(NV12, 4, -2, &[], &[], 4, 4, false), FrameOutcome::InvalidLayout);
    assert!(d.frames().is_empty());
}

#[test]
fn result_counts_the_stored_reports_of_one_call() {
    let mut d = decoder();
    let mut sizes = vec![];
    for _ in 0..3 {
        d.decode(&[1, 2, 3]);
        report(&mut d, 2, 4, true, 0);
        report(&mut d, 2, 4, false, 1);
        d.callback(5, 4, 2, &[], &[], 4, 4, false);
        sizes.push(d.finish(0).unwrap().len());
    }
    assert_eq!(sizes, vec![2, 2, 2]);
}

#[test]
fn new_call_discards_the_previous_frames() {
    let mut d = decoder();
    d.decode(&[1]);
    report(&mut d, 2, 4, true, 0);
    assert_eq!(d.frames().len(), 1);
    d.decode(&[1]);
    assert!(d.frames().is_empty());
}

#[test]
fn failed_native_decode_is_returned_and_kept() {
    let mut d = decoder();
    assert_eq!(d.decode(&[1]), DecodeStep::Invoke);
    assert_eq!(d.finish(-22).err(), Some(-22));
    assert_eq!(d.decode(&[1]), DecodeStep::Refuse(-22));
    assert_eq!(d.decode(&[]), DecodeStep::Refuse(-22));
}

#[test]
fn construct_args_carry_the_native_codes() {
    let c = DecodeContext {
        driver: DecodeDriver::AMF,
        device: HWDeviceType::DX11,
        pixfmt: PixelFormat::NV12,
        codec: CodecID::HEVC,
        gpu: 3,
    };
    let a = c.construct_args();
    assert_eq!((a.device, a.pixfmt, a.codec, a.gpu), (1, 0, 1, 3));
    assert_eq!(HWDeviceType::VAAPI.code(), 3);
    assert_eq!(PixelFormat::I420.code(), 1);
    assert_eq!(CodecID::AV1.code(), 2);
}
