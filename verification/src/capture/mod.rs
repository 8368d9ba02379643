//! Captured frames and the rules by which a capture backend is chosen.

pub mod kms;
pub mod nvfbcs;
pub mod x11;

use crate::arith::lemma_mul_le;
use crate::text::join;
use vstd::prelude::*;

verus! {

/// Layout of the pixels of a captured surface.
#[derive(Debug, Clone, Copy, PartialEq, Eq, Structural)]
pub enum PixelFormat {
    /// 32-bit blue, green, red, alpha.
    BGRA,
    /// 32-bit red, green, blue, alpha.
    RGBA,
    /// 8-bit luma plane followed by interleaved half-resolution chroma.
    NV12,
    /// 8-bit luma plane followed by two half-resolution chroma planes.
    YUV420,
    /// 10-bit luma and interleaved chroma, each sample in 16 bits.
    P010,
}

impl PixelFormat {
    /// Bytes that one sample of the first plane occupies.
    pub open spec fn spec_bytes_per_pixel(self) -> u32 {
        match self {
            PixelFormat::BGRA | PixelFormat::RGBA => 4,
            PixelFormat::NV12 | PixelFormat::YUV420 => 1,
            PixelFormat::P010 => 2,
        }
    }

    /// Bytes that one sample of the first plane occupies.
    pub fn bytes_per_pixel(&self) -> (n: u32)
        ensures
            n == self.spec_bytes_per_pixel(),
    {
        match self {
            PixelFormat::BGRA | PixelFormat::RGBA => 4,
            PixelFormat::NV12 => 1,
            PixelFormat::YUV420 => 1,
            PixelFormat::P010 => 2,
        }
    }

    /// The name of the format.
    pub open spec fn spec_name(self) -> Seq<char> {
        match self {
            PixelFormat::BGRA => "BGRA"@,
            PixelFormat::RGBA => "RGBA"@,
            PixelFormat::NV12 => "NV12"@,
            PixelFormat::YUV420 => "YUV420"@,
            PixelFormat::P010 => "P010"@,
        }
    }

    /// The name of the format.
    pub fn name(&self) -> (name: &'static str)
        ensures
            name@ == self.spec_name(),
    {
        match self {
            PixelFormat::BGRA => "BGRA",
            PixelFormat::RGBA => "RGBA",
            PixelFormat::NV12 => "NV12",
            PixelFormat::YUV420 => "YUV420",
            PixelFormat::P010 => "P010",
        }
    }
}

/// Bytes that a frame of the given size and format occupies: four per pixel
/// for the 32-bit formats, one and a half for the 8-bit planar ones, three
/// for the 10-bit one.
pub open spec fn spec_frame_size(width: u32, height: u32, format: PixelFormat) -> nat {
    match format {
        PixelFormat::BGRA | PixelFormat::RGBA => (width * height * 4) as nat,
        PixelFormat::NV12 | PixelFormat::YUV420 => (width * height * 3 / 2) as nat,
        PixelFormat::P010 => (width * height * 3) as nat,
    }
}

/// The bytes of a frame, or `None` where the count does not fit a `usize`.
pub fn frame_size(width: u32, height: u32, format: PixelFormat) -> (size: Option<usize>)
    ensures
        size is Some <==> spec_frame_size(width, height, format) <= usize::MAX,
        size is Some ==> size->Some_0 == spec_frame_size(width, height, format),
{
    proof {
        lemma_mul_le(width as int, height as int, u32::MAX as int, u32::MAX as int);
    }
    let pixels: u64 = width as u64 * height as u64;
    let bytes: u128 = match format {
        PixelFormat::BGRA | PixelFormat::RGBA => pixels as u128 * 4,
        PixelFormat::NV12 | PixelFormat::YUV420 => pixels as u128 * 3 / 2,
        PixelFormat::P010 => pixels as u128 * 3,
    };
    if bytes <= usize::MAX as u128 {
        Some(bytes as usize)
    } else {
        None
    }
}

/// The one place where the pixels of a frame live.
#[derive(Debug)]
pub enum Surface {
    /// Memory of the GPU: a device pointer and the bytes between rows.
    GpuPtr { ptr: usize, pitch: u64 },
    /// A kernel buffer, named by a file descriptor that the frame owns.
    DmaBuf { fd: i32 },
    /// Memory of the host.
    Host { data: Vec<u8> },
}

/// A handle to one captured frame. It cannot be copied: whoever holds it
/// owns the surface, and the kind of surface stays what it was made with.
#[derive(Debug)]
pub struct FrameRef {
    width: u32,
    height: u32,
    format: PixelFormat,
    timestamp_us: u64,
    surface: Surface,
    data_size: usize,
}

/// A frame as a mathematical value.
pub struct FrameView {
    /// Width in pixels.
    pub width: u32,
    /// Height in pixels.
    pub height: u32,
    /// Layout of the pixels.
    pub format: PixelFormat,
    /// Capture instant on the producer's monotonic clock, in microseconds.
    pub timestamp_us: u64,
    /// Where the pixels live.
    pub surface: Surface,
    /// The bytes that the frame occupies, as recorded when it was made.
    pub data_size: usize,
}

impl View for FrameRef {
    type V = FrameView;

    closed spec fn view(&self) -> FrameView {
        FrameView {
            width: self.width,
            height: self.height,
            format: self.format,
            timestamp_us: self.timestamp_us,
            surface: self.surface,
            data_size: self.data_size,
        }
    }
}

impl FrameRef {
    /// The surface that the frame refers to.
    pub open spec fn surface(&self) -> Surface {
        self@.surface
    }

    /// The bytes that the frame occupies, as recorded when it was made.
    pub open spec fn spec_data_size(&self) -> usize {
        self@.data_size
    }

    /// Width in pixels.
    pub fn width(&self) -> (w: u32)
        ensures
            w == self@.width,
    {
        self.width
    }

    /// Height in pixels.
    pub fn height(&self) -> (h: u32)
        ensures
            h == self@.height,
    {
        self.height
    }

    /// Layout of the pixels.
    pub fn format(&self) -> (f: PixelFormat)
        ensures
            f == self@.format,
    {
        self.format
    }

    /// A frame in host memory, every byte zero.
    pub fn new(width: u32, height: u32, format: PixelFormat, timestamp_us: u64) -> (frame: Self)
        requires
            spec_frame_size(width, height, format) <= usize::MAX,
        ensures
            frame@.width == width,
            frame@.height == height,
            frame@.format == format,
            frame@.timestamp_us == timestamp_us,
            frame.spec_data_size() == spec_frame_size(width, height, format),
            frame.surface() matches Surface::Host { data } && data@ == Seq::new(
                spec_frame_size(width, height, format),
                |i: int| 0u8,
            ),
    {
        let data_size = frame_size(width, height, format).unwrap();
        let data = vec![0u8; data_size];
        assert(data@ =~= Seq::new(spec_frame_size(width, height, format), |i: int| 0u8));
        FrameRef { width, height, format, timestamp_us, surface: Surface::Host { data }, data_size }
    }

    /// A frame in GPU memory at `gpu_ptr`, rows packed without padding.
    pub fn with_gpu_ptr(
        width: u32,
        height: u32,
        format: PixelFormat,
        gpu_ptr: usize,
        timestamp_us: u64,
    ) -> (frame: Self)
        requires
            spec_frame_size(width, height, format) <= usize::MAX,
        ensures
            frame@.width == width,
            frame@.height == height,
            frame@.format == format,
            frame@.timestamp_us == timestamp_us,
            frame.spec_data_size() == spec_frame_size(width, height, format),
            frame.surface() == (Surface::GpuPtr {
                ptr: gpu_ptr,
                pitch: (width * format.spec_bytes_per_pixel()) as u64,
            }),
    {
        let data_size = frame_size(width, height, format).unwrap();
        proof {
            lemma_mul_le(width as int, format.spec_bytes_per_pixel() as int, u32::MAX as int, 4);
        }
        let pitch = width as u64 * format.bytes_per_pixel() as u64;
        FrameRef {
            width,
            height,
            format,
            timestamp_us,
            surface: Surface::GpuPtr { ptr: gpu_ptr, pitch },
            data_size,
        }
    }

    /// A frame in the kernel buffer that `fd` names. The frame owns `fd`.
    pub fn with_dmabuf(
        width: u32,
        height: u32,
        format: PixelFormat,
        fd: i32,
        timestamp_us: u64,
    ) -> (frame: Self)
        requires
            spec_frame_size(width, height, format) <= usize::MAX,
        ensures
            frame@.width == width,
            frame@.height == height,
            frame@.format == format,
            frame@.timestamp_us == timestamp_us,
            frame.spec_data_size() == spec_frame_size(width, height, format),
            frame.surface() == (Surface::DmaBuf { fd }),
    {
        let data_size = frame_size(width, height, format).unwrap();
        FrameRef { width, height, format, timestamp_us, surface: Surface::DmaBuf { fd }, data_size }
    }

    /// A frame in the kernel buffer that `fd` names. The frame owns `fd`.
    pub fn from_dmabuf(
        fd: i32,
        width: u32,
        height: u32,
        format: PixelFormat,
        timestamp_us: u64,
    ) -> (frame: Self)
        requires
            spec_frame_size(width, height, format) <= usize::MAX,
        ensures
            frame@.width == width,
            frame@.height == height,
            frame@.format == format,
            frame@.timestamp_us == timestamp_us,
            frame.spec_data_size() == spec_frame_size(width, height, format),
            frame.surface() == (Surface::DmaBuf { fd }),
    {
        FrameRef::with_dmabuf(width, height, format, fd, timestamp_us)
    }

    /// A frame whose pixels are the bytes of `data`, in host memory.
    pub fn from_data(
        data: Vec<u8>,
        width: u32,
        height: u32,
        format: PixelFormat,
        timestamp_us: u64,
    ) -> (frame: Self)
        ensures
            frame@.width == width,
            frame@.height == height,
            frame@.format == format,
            frame@.timestamp_us == timestamp_us,
            frame.spec_data_size() == data@.len(),
            frame.surface() == (Surface::Host { data }),
    {
        let data_size = data.len();
        FrameRef { width, height, format, timestamp_us, surface: Surface::Host { data }, data_size }
    }

    /// Builds a frame from independently optional references. Exactly one of
    /// them must be given: none, or more than one, is an invalid call, and so
    /// is a size that does not fit the machine.
    pub fn from_parts(
        width: u32,
        height: u32,
        format: PixelFormat,
        gpu_ptr: Option<usize>,
        dmabuf_fd: Option<i32>,
        data: Option<Vec<u8>>,
        timestamp_us: u64,
    ) -> (made: Result<Self, CaptureError>)
        ensures
            made is Ok <==> spec_one_reference(gpu_ptr is Some, dmabuf_fd is Some, data is Some)
                && (data is None ==> spec_frame_size(width, height, format) <= usize::MAX),
            made is Err ==> made->Err_0 is InvalidCall,
            made is Ok ==> {
                let frame = made->Ok_0;
                &&& frame@.width == width
                &&& frame@.height == height
                &&& frame@.format == format
                &&& frame@.timestamp_us == timestamp_us
                &&& gpu_ptr is Some ==> frame.surface() == (Surface::GpuPtr {
                    ptr: gpu_ptr->Some_0,
                    pitch: (width * format.spec_bytes_per_pixel()) as u64,
                })
                &&& dmabuf_fd is Some ==> frame.surface() == (Surface::DmaBuf {
                    fd: dmabuf_fd->Some_0,
                })
                &&& data is Some ==> frame.surface() == (Surface::Host { data: data->Some_0 })
            },
    {
        let fits = frame_size(width, height, format).is_some();
        match (gpu_ptr, dmabuf_fd, data) {
            (Some(ptr), None, None) => {
                if fits {
                    Ok(FrameRef::with_gpu_ptr(width, height, format, ptr, timestamp_us))
                } else {
                    Err(CaptureError::InvalidCall("frame size does not fit".to_string()))
                }
            },
            (None, Some(fd), None) => {
                if fits {
                    Ok(FrameRef::with_dmabuf(width, height, format, fd, timestamp_us))
                } else {
                    Err(CaptureError::InvalidCall("frame size does not fit".to_string()))
                }
            },
            (None, None, Some(bytes)) => Ok(
                FrameRef::from_data(bytes, width, height, format, timestamp_us),
            ),
            _ => Err(
                CaptureError::InvalidCall("exactly one surface reference is required".to_string()),
            ),
        }
    }

    /// The device pointer, where the frame lives in GPU memory.
    pub fn gpu_ptr(&self) -> (ptr: Option<usize>)
        ensures
            ptr == match self.surface() {
                Surface::GpuPtr { ptr, pitch } => Some(ptr),
                _ => None,
            },
    {
        match &self.surface {
            Surface::GpuPtr { ptr, pitch } => Some(*ptr),
            _ => None,
        }
    }

    /// The file descriptor, where the frame lives in a kernel buffer.
    pub fn dmabuf_fd(&self) -> (fd: Option<i32>)
        ensures
            fd == match self.surface() {
                Surface::DmaBuf { fd } => Some(fd),
                _ => None,
            },
    {
        match &self.surface {
            Surface::DmaBuf { fd } => Some(*fd),
            _ => None,
        }
    }

    /// The pixels, where the frame lives in host memory.
    pub fn data(&self) -> (bytes: Option<&Vec<u8>>)
        ensures
            match self.surface() {
                Surface::Host { data } => bytes == Some(&data),
                _ => bytes is None,
            },
    {
        match &self.surface {
            Surface::Host { data } => Some(data),
            _ => None,
        }
    }

    /// Whether the frame can be consumed without a copy through host memory:
    /// it lives in GPU memory or in a kernel buffer.
    pub fn is_valid(&self) -> (zero_copy: bool)
        ensures
            zero_copy <==> self.surface() is GpuPtr || self.surface() is DmaBuf,
    {
        match &self.surface {
            Surface::GpuPtr { .. } => true,
            Surface::DmaBuf { .. } => true,
            Surface::Host { .. } => false,
        }
    }

    /// The bytes that the frame occupies.
    pub fn data_size(&self) -> (size: usize)
        ensures
            size == self.spec_data_size(),
    {
        self.data_size
    }

    /// The capture instant, in microseconds.
    pub fn timestamp(&self) -> (at: u64)
        ensures
            at == self@.timestamp_us,
    {
        self.timestamp_us
    }

    /// Gives up the frame. Returns the file descriptor that it owned, which
    /// the caller must now close, or `None` where it owned none.
    pub fn release(self) -> (fd: Option<i32>)
        ensures
            fd == match self.surface() {
                Surface::DmaBuf { fd } => Some(fd),
                _ => None,
            },
    {
        match self.surface {
            Surface::DmaBuf { fd } => Some(fd),
            _ => None,
        }
    }
}

/// Whether exactly one of three references is given.
pub open spec fn spec_one_reference(gpu: bool, dmabuf: bool, host: bool) -> bool {
    (gpu && !dmabuf && !host) || (!gpu && dmabuf && !host) || (!gpu && !dmabuf && host)
}

/// What can go wrong in a capture backend.
#[derive(Debug, Clone, PartialEq, Eq)]
pub enum CaptureError {
    /// A required initialisation failed.
    InitFailed(String),
    /// One capture failed; the frame is dropped.
    CaptureFailed(String),
    /// The GPU compute runtime reported an error.
    CudaError(String),
    /// The kernel display device reported an error.
    DrmError(String),
    /// The window server reported an error.
    X11Error(String),
    /// The surface format is not supported.
    UnsupportedFormat(String),
    /// Optional hardware or a library is absent.
    ResourceUnavailable(String),
    /// An entry point was called out of order.
    InvalidCall(String),
    /// The underlying I/O failed.
    IoError(String),
    /// Anything else.
    Unknown(String),
}

impl CaptureError {
    /// The sentence that presents this error.
    pub open spec fn spec_message(self) -> Seq<char> {
        match self {
            CaptureError::InitFailed(m) => "初始化失败: "@ + m@,
            CaptureError::CaptureFailed(m) => "捕获失败: "@ + m@,
            CaptureError::CudaError(m) => "CUDA 错误: "@ + m@,
            CaptureError::DrmError(m) => "DRM/KMS 错误: "@ + m@,
            CaptureError::X11Error(m) => "X11 错误: "@ + m@,
            CaptureError::UnsupportedFormat(m) => "不支持的格式: "@ + m@,
            CaptureError::ResourceUnavailable(m) => "资源不可用: "@ + m@,
            CaptureError::InvalidCall(m) => "无效调用: "@ + m@,
            CaptureError::IoError(m) => "IO 错误: "@ + m@,
            CaptureError::Unknown(m) => "未知错误: "@ + m@,
        }
    }

    /// The text that the error carries.
    pub open spec fn detail(self) -> Seq<char> {
        match self {
            CaptureError::InitFailed(m) => m@,
            CaptureError::CaptureFailed(m) => m@,
            CaptureError::CudaError(m) => m@,
            CaptureError::DrmError(m) => m@,
            CaptureError::X11Error(m) => m@,
            CaptureError::UnsupportedFormat(m) => m@,
            CaptureError::ResourceUnavailable(m) => m@,
            CaptureError::InvalidCall(m) => m@,
            CaptureError::IoError(m) => m@,
            CaptureError::Unknown(m) => m@,
        }
    }

    /// The sentence that presents this error.
    pub fn to_string(&self) -> (text: String)
        ensures
            text@ == self.spec_message(),
    {
        match self {
            CaptureError::InitFailed(m) => join("初始化失败: ", m.as_str()),
            CaptureError::CaptureFailed(m) => join("捕获失败: ", m.as_str()),
            CaptureError::CudaError(m) => join("CUDA 错误: ", m.as_str()),
            CaptureError::DrmError(m) => join("DRM/KMS 错误: ", m.as_str()),
            CaptureError::X11Error(m) => join("X11 错误: ", m.as_str()),
            CaptureError::UnsupportedFormat(m) => join("不支持的格式: ", m.as_str()),
            CaptureError::ResourceUnavailable(m) => join("资源不可用: ", m.as_str()),
            CaptureError::InvalidCall(m) => join("无效调用: ", m.as_str()),
            CaptureError::IoError(m) => join("IO 错误: ", m.as_str()),
            CaptureError::Unknown(m) => join("未知错误: ", m.as_str()),
        }
    }
}

/// The capture backends, in the order in which they are tried.
#[derive(Debug, Clone, Copy, PartialEq, Eq, Structural)]
pub enum BackendKind {
    /// GPU-native capture into a device pointer.
    NvFBC,
    /// Kernel-mode-set capture into a DMA-BUF.
    Kms,
    /// Window-server capture into host memory.
    X11,
}

impl BackendKind {
    /// The name under which the backend is listed.
    pub open spec fn spec_name(self) -> Seq<char> {
        match self {
            BackendKind::NvFBC => "NvFBC"@,
            BackendKind::Kms => "KMS/DRM"@,
            BackendKind::X11 => "X11"@,
        }
    }

    /// The name under which the backend is listed.
    pub fn name(&self) -> (name: &'static str)
        ensures
            name@ == self.spec_name(),
    {
        match self {
            BackendKind::NvFBC => "NvFBC",
            BackendKind::Kms => "KMS/DRM",
            BackendKind::X11 => "X11",
        }
    }

    /// Whether frames of the backend reach the encoder without a copy
    /// through host memory.
    pub fn is_zero_copy(&self) -> (zero_copy: bool)
        ensures
            zero_copy <==> *self != BackendKind::X11,
    {
        match self {
            BackendKind::NvFBC => true,
            BackendKind::Kms => true,
            BackendKind::X11 => false,
        }
    }
}

/// The backend tried at position `tried` of the selection order, or `None`
/// past its end.
pub open spec fn spec_candidate(tried: int) -> Option<BackendKind> {
    if tried == 0 {
        Some(BackendKind::NvFBC)
    } else if tried == 1 {
        Some(BackendKind::Kms)
    } else if tried == 2 {
        Some(BackendKind::X11)
    } else {
        None
    }
}

/// The backend to try after `tried` candidates have failed.
pub fn next_candidate(tried: usize) -> (kind: Option<BackendKind>)
    ensures
        kind == spec_candidate(tried as int),
{
    if tried == 0 {
        Some(BackendKind::NvFBC)
    } else if tried == 1 {
        Some(BackendKind::Kms)
    } else if tried == 2 {
        Some(BackendKind::X11)
    } else {
        None
    }
}

/// The first position of the selection order, from `from` on, whose backend
/// came up, or `None`.
pub open spec fn spec_first_ready(outcomes: Seq<bool>, from: int) -> Option<BackendKind>
    decreases 3 - from,
{
    if from < 0 || from >= 3 || from >= outcomes.len() {
        None
    } else if outcomes[from] {
        spec_candidate(from)
    } else {
        spec_first_ready(outcomes, from + 1)
    }
}

/// Chooses the capture backend. `outcomes[i]` says whether candidate `i` of
/// the selection order could be created and initialised; candidates that were
/// not tried may be left out. The first that came up wins; a failure before
/// it is not fatal. Where none came up, initialisation has failed.
pub fn detect_best_capture(outcomes: &[bool]) -> (chosen: Result<BackendKind, CaptureError>)
    ensures
        match spec_first_ready(outcomes@, 0) {
            Some(kind) => chosen == Ok::<BackendKind, CaptureError>(kind),
            None => chosen is Err && (chosen->Err_0 matches CaptureError::InitFailed(m) && m@
                == "没有可用的捕获后端"@),
        },
{
    let mut i: usize = 0;
    while i < 3 && i < outcomes.len()
        invariant
            i <= 3,
            spec_first_ready(outcomes@, 0) == spec_first_ready(outcomes@, i as int),
        decreases 3 - i,
    {
        if outcomes[i] {
            return Ok(next_candidate(i).unwrap());
        }
        i += 1;
    }
    Err(CaptureError::InitFailed("没有可用的捕获后端".to_string()))
}

/// The names of the backends that are available, in selection order.
pub open spec fn spec_available_backends(nvfbc: bool, kms: bool, x11: bool) -> Seq<Seq<char>> {
    (if nvfbc {
        seq![BackendKind::NvFBC.spec_name()]
    } else {
        seq![]
    }) + (if kms {
        seq![BackendKind::Kms.spec_name()]
    } else {
        seq![]
    }) + (if x11 {
        seq![BackendKind::X11.spec_name()]
    } else {
        seq![]
    })
}

/// The names of the backends that are available, in selection order. The
/// arguments say which of the three the platform offers.
pub fn list_available_backends(nvfbc: bool, kms: bool, x11: bool) -> (names: Vec<&'static str>)
    ensures
        names@.len() == spec_available_backends(nvfbc, kms, x11).len(),
        forall|i: int|
            0 <= i < names@.len() ==> (#[trigger] names@[i])@ == spec_available_backends(
                nvfbc,
                kms,
                x11,
            )[i],
{
    let mut backends: Vec<&'static str> = Vec::new();
    if nvfbc {
        backends.push(BackendKind::NvFBC.name());
    }
    if kms {
        backends.push(BackendKind::Kms.name());
    }
    if x11 {
        backends.push(BackendKind::X11.name());
    }
    backends
}

} // verus!
