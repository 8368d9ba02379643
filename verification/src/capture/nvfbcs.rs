//! GPU-native capture: the session state around a device buffer, and the
//! rule that a new display mode is taken up before the next frame is
//! returned. The vendor library is called by the caller, who hands in what it
//! returned.

use crate::capture::frame_size;
use crate::capture::spec_frame_size;
use crate::capture::CaptureError;
use crate::capture::FrameRef;
use crate::capture::PixelFormat;
use crate::capture::Surface;
use crate::text::join;
use vstd::prelude::*;

verus! {

/// What loading the vendor libraries gave.
#[derive(Debug, Clone, Copy, PartialEq, Eq, Structural)]
pub struct NvfbcLibraries {
    /// Whether the capture library can be found at all.
    pub available: bool,
    /// Whether the capture library was loaded.
    pub nvfbc_loaded: bool,
    /// Whether the compute library was loaded.
    pub cuda_loaded: bool,
    /// Whether the capture library has the entry points to create and to
    /// destroy an instance.
    pub nvfbc_symbols: bool,
    /// Whether the compute library has the entry points to initialise, to
    /// get a device and to create a context.
    pub cuda_symbols: bool,
}

/// What the vendor library reported of the display.
#[derive(Debug, Clone, Copy, PartialEq, Eq, Structural)]
pub struct NvfbcStatus {
    /// Whether a capture is possible now.
    pub capture_possible: bool,
    /// Current width of the display.
    pub width: u32,
    /// Current height of the display.
    pub height: u32,
}

/// The outcomes of the three steps of initialisation, each a success or a
/// description of the failure. A step after a failed one was not made and
/// is not looked at.
#[derive(Debug)]
pub struct NvfbcInit {
    /// Creating the compute context.
    pub cuda: Result<(), String>,
    /// Allocating the device buffer: its device pointer.
    pub buffer: Result<usize, String>,
    /// Creating the capture instance and session.
    pub session: Result<(), String>,
}

/// The state of a GPU-native capture session.
#[derive(Debug)]
pub struct NvFBCCapture {
    width: u32,
    height: u32,
    format: PixelFormat,
    initialized: bool,
    session_open: bool,
    gpu_buffer: usize,
    buffer_size: usize,
}

/// A session as a mathematical value.
pub struct NvfbcView {
    /// Current width.
    pub width: u32,
    /// Current height.
    pub height: u32,
    /// Format of the frames.
    pub format: PixelFormat,
    /// Whether initialisation has succeeded.
    pub initialized: bool,
    /// Whether the capture session exists.
    pub session_open: bool,
    /// Device pointer of the target buffer; zero where there is none.
    pub gpu_buffer: usize,
    /// Bytes of the target buffer.
    pub buffer_size: usize,
}

impl View for NvFBCCapture {
    type V = NvfbcView;

    closed spec fn view(&self) -> NvfbcView {
        NvfbcView {
            width: self.width,
            height: self.height,
            format: self.format,
            initialized: self.initialized,
            session_open: self.session_open,
            gpu_buffer: self.gpu_buffer,
            buffer_size: self.buffer_size,
        }
    }
}

/// Bytes of a target buffer for the given display: four per pixel.
pub open spec fn spec_buffer_size(width: u32, height: u32) -> nat {
    spec_frame_size(width, height, PixelFormat::BGRA)
}

/// The error of a session that cannot be created from `libs`, or `None`.
pub open spec fn spec_load_error(libs: NvfbcLibraries) -> Option<(bool, Seq<char>)> {
    if !libs.available {
        Some((true, "NvFBC 库未找到或不支持"@))
    } else if !libs.nvfbc_loaded {
        Some((true, "无法加载 NvFBC 库"@))
    } else if !libs.cuda_loaded {
        Some((true, "无法加载 CUDA 库"@))
    } else if !libs.nvfbc_symbols {
        Some((false, "无法加载 NvFBC 必要函数"@))
    } else if !libs.cuda_symbols {
        Some((false, "无法加载 CUDA 必要函数"@))
    } else {
        None
    }
}

/// The state after an initialisation that is handed `steps`.
pub open spec fn spec_init(before: NvfbcView, steps: NvfbcInit) -> NvfbcView {
    if before.initialized || steps.cuda is Err || spec_buffer_size(before.width, before.height)
        > usize::MAX || steps.buffer is Err {
        before
    } else {
        let with_buffer = NvfbcView {
            gpu_buffer: steps.buffer->Ok_0,
            buffer_size: spec_buffer_size(before.width, before.height) as usize,
            ..before
        };
        if steps.session is Err {
            with_buffer
        } else {
            NvfbcView { session_open: true, initialized: true, ..with_buffer }
        }
    }
}

/// Whether a capture under `status` must first resize the target buffer.
pub open spec fn spec_needs_resize(session: NvfbcView, status: NvfbcStatus) -> bool {
    status.width != session.width || status.height != session.height
}

impl NvFBCCapture {
    /// A session on freshly loaded libraries. A library that is absent or
    /// does not load makes the resource unavailable; a library without its
    /// necessary entry points fails initialisation.
    pub fn new(libs: NvfbcLibraries) -> (made: Result<Self, CaptureError>)
        ensures
            made is Ok <==> spec_load_error(libs) is None,
            made is Ok ==> made->Ok_0@ == (NvfbcView {
                width: 1920,
                height: 1080,
                format: PixelFormat::BGRA,
                initialized: false,
                session_open: false,
                gpu_buffer: 0,
                buffer_size: 0,
            }),
            made is Err ==> {
                let (unavailable, text) = spec_load_error(libs)->Some_0;
                &&& made->Err_0.detail() == text
                &&& unavailable ==> made->Err_0 is ResourceUnavailable
                &&& !unavailable ==> made->Err_0 is InitFailed
            },
    {
        if !libs.available {
            return Err(CaptureError::ResourceUnavailable("NvFBC 库未找到或不支持".to_string()));
        }
        if !libs.nvfbc_loaded {
            return Err(CaptureError::ResourceUnavailable("无法加载 NvFBC 库".to_string()));
        }
        if !libs.cuda_loaded {
            return Err(CaptureError::ResourceUnavailable("无法加载 CUDA 库".to_string()));
        }
        if !libs.nvfbc_symbols {
            return Err(CaptureError::InitFailed("无法加载 NvFBC 必要函数".to_string()));
        }
        if !libs.cuda_symbols {
            return Err(CaptureError::InitFailed("无法加载 CUDA 必要函数".to_string()));
        }
        Ok(
            NvFBCCapture {
                width: 1920,
                height: 1080,
                format: PixelFormat::BGRA,
                initialized: false,
                session_open: false,
                gpu_buffer: 0,
                buffer_size: 0,
            },
        )
    }

    /// The bytes that a target buffer for the current resolution needs, or
    /// `None` where that does not fit the machine.
    pub fn buffer_size_needed(&self) -> (size: Option<usize>)
        ensures
            size is Some <==> spec_buffer_size(self@.width, self@.height) <= usize::MAX,
            size is Some ==> size->Some_0 == spec_buffer_size(self@.width, self@.height),
    {
        frame_size(self.width, self.height, PixelFormat::BGRA)
    }

    /// Initialises the session from the outcomes of its steps. A second
    /// initialisation changes nothing and succeeds. A failure in the compute
    /// runtime, also one to allocate, is a compute error; a failure to
    /// create the session fails initialisation, the buffer staying recorded.
    pub fn init(&mut self, steps: &NvfbcInit) -> (done: Result<(), CaptureError>)
        ensures
            final(self)@ == spec_init(old(self)@, *steps),
            done is Ok <==> final(self)@.initialized,
            done is Err ==> {
                let e = done->Err_0;
                if steps.cuda is Err {
                    e is CudaError && e.detail() == steps.cuda->Err_0@
                } else if spec_buffer_size(old(self)@.width, old(self)@.height) > usize::MAX {
                    e is CudaError && e.detail() == "缓冲区大小超出范围"@
                } else if steps.buffer is Err {
                    e is CudaError && e.detail() == steps.buffer->Err_0@
                } else {
                    e is InitFailed && steps.session is Err && e.detail() == steps.session->Err_0@
                }
            },
    {
        if self.initialized {
            return Ok(());
        }
        if let Err(detail) = &steps.cuda {
            return Err(CaptureError::CudaError(detail.clone()));
        }
        let size = match self.buffer_size_needed() {
            Some(size) => size,
            None => {
                return Err(CaptureError::CudaError("缓冲区大小超出范围".to_string()));
            },
        };
        match &steps.buffer {
            Err(detail) => {
                return Err(CaptureError::CudaError(detail.clone()));
            },
            Ok(ptr) => {
                self.gpu_buffer = *ptr;
                self.buffer_size = size;
            },
        }
        if let Err(detail) = &steps.session {
            return Err(CaptureError::InitFailed(detail.clone()));
        }
        self.session_open = true;
        self.initialized = true;
        Ok(())
    }

    /// Whether a capture under `status` must first resize the target buffer,
    /// because the display has a new mode.
    pub fn needs_resize(&self, status: &NvfbcStatus) -> (resize: bool)
        ensures
            resize <==> spec_needs_resize(self@, *status),
    {
        status.width != self.width || status.height != self.height
    }

    /// Captures one frame into the target buffer. `status` is what the
    /// library reported of the display; `resized` is the outcome of
    /// allocating a buffer for the reported mode and is looked at only where
    /// the mode is new. A new mode is taken up before the frame is returned:
    /// the frame has the reported size and refers to the new buffer.
    pub fn capture(
        &mut self,
        status: Result<NvfbcStatus, String>,
        resized: Result<usize, String>,
        timestamp_us: u64,
    ) -> (frame: Result<FrameRef, CaptureError>)
        ensures
            frame is Ok <==> {
                &&& old(self)@.initialized
                &&& old(self)@.session_open
                &&& status is Ok
                &&& status->Ok_0.capture_possible
                &&& spec_buffer_size(status->Ok_0.width, status->Ok_0.height) <= usize::MAX
                &&& spec_needs_resize(old(self)@, status->Ok_0) ==> resized is Ok
            },
            frame is Ok ==> {
                let f = frame->Ok_0@;
                let now = status->Ok_0;
                &&& f.width == now.width
                &&& f.height == now.height
                &&& f.format == old(self)@.format
                &&& f.timestamp_us == timestamp_us
                &&& f.surface == (Surface::GpuPtr {
                    ptr: final(self)@.gpu_buffer,
                    pitch: (now.width * old(self)@.format.spec_bytes_per_pixel()) as u64,
                })
                &&& final(self)@ == if spec_needs_resize(old(self)@, now) {
                    NvfbcView {
                        width: now.width,
                        height: now.height,
                        gpu_buffer: resized->Ok_0,
                        buffer_size: spec_buffer_size(now.width, now.height) as usize,
                        ..old(self)@
                    }
                } else {
                    old(self)@
                }
            },
            frame is Err ==> {
                let e = frame->Err_0;
                if !old(self)@.initialized {
                    e is InvalidCall && e.detail() == "捕获前必须先初始化"@ && final(self)@ == old(self)@
                } else if !old(self)@.session_open {
                    e is CaptureFailed && e.detail() == "NvFBC 会话未创建"@ && final(self)@ == old(self)@
                } else if status is Err {
                    e is CaptureFailed && e.detail() == "NvFBCGetStatus 失败: "@ + status->Err_0@
                        && final(self)@ == old(self)@
                } else if !status->Ok_0.capture_possible {
                    e is CaptureFailed && e.detail() == "当前无法捕获"@ && final(self)@ == old(self)@
                } else if spec_buffer_size(status->Ok_0.width, status->Ok_0.height) > usize::MAX {
                    e is CaptureFailed && e.detail() == "帧大小超出范围"@ && final(self)@ == old(self)@
                } else {
                    e is CudaError && resized is Err && e.detail() == resized->Err_0@ && final(self)@ == (NvfbcView {
                        width: status->Ok_0.width,
                        height: status->Ok_0.height,
                        ..old(self)@
                    })
                }
            },
    {
        if !self.initialized {
            return Err(CaptureError::InvalidCall("捕获前必须先初始化".to_string()));
        }
        if !self.session_open {
            return Err(CaptureError::CaptureFailed("NvFBC 会话未创建".to_string()));
        }
        let now = match status {
            Err(detail) => {
                return Err(
                    CaptureError::CaptureFailed(join("NvFBCGetStatus 失败: ", detail.as_str())),
                );
            },
            Ok(now) => now,
        };
        if !now.capture_possible {
            return Err(CaptureError::CaptureFailed("当前无法捕获".to_string()));
        }
        let size = match frame_size(now.width, now.height, PixelFormat::BGRA) {
            None => {
                return Err(CaptureError::CaptureFailed("帧大小超出范围".to_string()));
            },
            Some(size) => size,
        };
        if self.needs_resize(&now) {
            self.width = now.width;
            self.height = now.height;
            match resized {
                Err(detail) => {
                    return Err(CaptureError::CudaError(detail));
                },
                Ok(ptr) => {
                    self.gpu_buffer = ptr;
                    self.buffer_size = size;
                },
            }
        }
        if frame_size(self.width, self.height, self.format).is_none() {
            return Err(CaptureError::CaptureFailed("帧大小超出范围".to_string()));
        }
        Ok(
            FrameRef::with_gpu_ptr(
                self.width,
                self.height,
                self.format,
                self.gpu_buffer,
                timestamp_us,
            ),
        )
    }

    /// Frames of this backend reach the encoder without a copy.
    pub fn is_zero_copy(&self) -> (zero_copy: bool)
        ensures
            zero_copy,
    {
        true
    }

    /// The name of the backend.
    pub fn name(&self) -> (name: &'static str)
        ensures
            name@ == "NvFBC"@,
    {
        "NvFBC"
    }

    /// The current resolution, width then height.
    pub fn resolution(&self) -> (size: (u32, u32))
        ensures
            size == (self@.width, self@.height),
    {
        (self.width, self.height)
    }

    /// The version of the capture interface, once an instance exists.
    pub fn get_version(&self) -> (version: Result<String, CaptureError>)
        ensures
            version is Ok <==> self@.session_open,
            version is Ok ==> version->Ok_0@ == "NvFBC 1.0"@,
            version is Err ==> version->Err_0 is InvalidCall && version->Err_0.detail()
                == "NvFBC 未初始化"@,
    {
        if !self.session_open {
            return Err(CaptureError::InvalidCall("NvFBC 未初始化".to_string()));
        }
        Ok("NvFBC 1.0".to_string())
    }

    /// Sets the target resolution. An initialised session needs a buffer of
    /// the new size: `resized` is the outcome of allocating it, looked at
    /// only then. The resolution is recorded even where allocating failed.
    pub fn set_resolution(&mut self, width: u32, height: u32, resized: Result<usize, String>) -> (done:
        Result<(), CaptureError>)
        ensures
            done is Ok <==> !old(self)@.initialized || (resized is Ok && spec_buffer_size(
                width,
                height,
            ) <= usize::MAX),
            final(self)@ == if old(self)@.initialized && done is Ok {
                NvfbcView {
                    width,
                    height,
                    gpu_buffer: resized->Ok_0,
                    buffer_size: spec_buffer_size(width, height) as usize,
                    ..old(self)@
                }
            } else {
                NvfbcView { width, height, ..old(self)@ }
            },
            done is Err ==> done->Err_0 is CudaError && done->Err_0.detail() == (if spec_buffer_size(
                width,
                height,
            ) > usize::MAX {
                "缓冲区大小超出范围"@
            } else {
                resized->Err_0@
            }),
    {
        self.width = width;
        self.height = height;
        if self.initialized {
            let size = match frame_size(width, height, PixelFormat::BGRA) {
                None => {
                    return Err(CaptureError::CudaError("缓冲区大小超出范围".to_string()));
                },
                Some(size) => size,
            };
            match resized {
                Err(detail) => {
                    return Err(CaptureError::CudaError(detail));
                },
                Ok(ptr) => {
                    self.gpu_buffer = ptr;
                    self.buffer_size = size;
                },
            }
        }
        Ok(())
    }

    /// Forgets the buffer and the session. The caller frees them.
    pub fn cleanup(&mut self)
        ensures
            final(self)@ == (NvfbcView {
                initialized: false,
                session_open: false,
                gpu_buffer: 0,
                ..old(self)@
            }),
    {
        self.gpu_buffer = 0;
        self.session_open = false;
        self.initialized = false;
    }
}

} // verus!
