use vstd::prelude::*;

verus! {

/// The native backend that a decoder is bound to for its whole lifetime.
#[derive(Debug, Clone, Copy, PartialEq, Eq, Structural)]
pub enum DecodeDriver {
    CUVID,
    AMF,
}

/// The kind of device a native decoder runs on.
#[derive(Debug, Clone, Copy, PartialEq, Eq, Structural)]
pub enum HWDeviceType {
    HOST,
    DX11,
    CUDA,
    VAAPI,
}

/// The raw layout of decoded pictures.
#[derive(Debug, Clone, Copy, PartialEq, Eq, Structural)]
pub enum PixelFormat {
    NV12,
    I420,
}

/// The compressed stream format.
#[derive(Debug, Clone, Copy, PartialEq, Eq, Structural)]
pub enum CodecID {
    H264,
    HEVC,
    AV1,
}

/// How to construct one decoder: backend, device kind, output layout,
/// stream format and adapter index.
#[derive(Debug, Clone, Copy, PartialEq, Eq, Structural)]
pub struct DecodeContext {
    pub driver: DecodeDriver,
    pub device: HWDeviceType,
    pub pixfmt: PixelFormat,
    pub codec: CodecID,
    pub gpu: i32,
}

/// The native interface numbers each enumeration in declaration order.
pub open spec fn device_code_spec(d: HWDeviceType) -> i32 {
    match d {
        HWDeviceType::HOST => 0,
        HWDeviceType::DX11 => 1,
        HWDeviceType::CUDA => 2,
        HWDeviceType::VAAPI => 3,
    }
}

pub open spec fn pixfmt_code_spec(p: PixelFormat) -> i32 {
    match p {
        PixelFormat::NV12 => 0,
        PixelFormat::I420 => 1,
    }
}

pub open spec fn codec_code_spec(c: CodecID) -> i32 {
    match c {
        CodecID::H264 => 0,
        CodecID::HEVC => 1,
        CodecID::AV1 => 2,
    }
}

impl HWDeviceType {
    /// The tag that the native construct call takes for this device kind.
    pub fn code(self) -> (r: i32)
        ensures
            r == device_code_spec(self),
    {
        match self {
            HWDeviceType::HOST => 0,
            HWDeviceType::DX11 => 1,
            HWDeviceType::CUDA => 2,
            HWDeviceType::VAAPI => 3,
        }
    }
}

impl PixelFormat {
    /// The tag that the native side uses for this layout.
    pub fn code(self) -> (r: i32)
        ensures
            r == pixfmt_code_spec(self),
    {
        match self {
            PixelFormat::NV12 => 0,
            PixelFormat::I420 => 1,
        }
    }
}

impl CodecID {
    /// The tag that the native construct call takes for this stream format.
    pub fn code(self) -> (r: i32)
        ensures
            r == codec_code_spec(self),
    {
        match self {
            CodecID::H264 => 0,
            CodecID::HEVC => 1,
            CodecID::AV1 => 2,
        }
    }
}

/// The four integer arguments of the native construct call.
#[derive(Debug, Clone, Copy, PartialEq, Eq, Structural)]
pub struct ConstructArgs {
    pub device: i32,
    pub pixfmt: i32,
    pub codec: i32,
    pub gpu: i32,
}

impl DecodeContext {
    /// The arguments that the bound backend's construct call receives.
    pub fn construct_args(&self) -> (r: ConstructArgs)
        ensures
            r.device == device_code_spec(self.device),
            r.pixfmt == pixfmt_code_spec(self.pixfmt),
            r.codec == codec_code_spec(self.codec),
            r.gpu == self.gpu,
    {
        ConstructArgs {
            device: self.device.code(),
            pixfmt: self.pixfmt.code(),
            codec: self.codec.code(),
            gpu: self.gpu,
        }
    }
}

} // verus!
