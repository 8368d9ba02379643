//! Window-server capture: the fallback that copies the root window into a
//! reusable host buffer, row by row. The window server is called by the
//! caller, who hands in the image it returned.

use crate::arith::lemma_div_mod_parts;
use crate::arith::lemma_div_mod_unique;
use crate::arith::lemma_mul_le;
use crate::capture::frame_size;
use crate::capture::spec_frame_size;
use crate::capture::CaptureError;
use crate::capture::FrameRef;
use crate::capture::PixelFormat;
use crate::capture::Surface;
use vstd::prelude::*;

verus! {

/// An image as the window server returned it.
#[derive(Debug)]
pub struct XImage {
    /// The pixels, row after row.
    pub data: Vec<u8>,
    /// Rows of the image.
    pub height: u32,
    /// Bytes from the start of one row to the start of the next.
    pub bytes_per_line: u32,
}

/// The buffer `dst` after the first `row_bytes` bytes of each of the first
/// `rows` rows of `src` were copied over the start of its rows. Rows of `dst`
/// are `dst_stride` bytes apart, rows of `src` `src_stride` bytes. All other
/// bytes stay.
pub open spec fn spec_copy_rows(
    dst: Seq<u8>,
    dst_stride: int,
    src: Seq<u8>,
    src_stride: int,
    rows: int,
    row_bytes: int,
) -> Seq<u8> {
    Seq::new(
        dst.len(),
        |i: int|
            if dst_stride > 0 && i / dst_stride < rows && i % dst_stride < row_bytes {
                src[(i / dst_stride) * src_stride + i % dst_stride]
            } else {
                dst[i]
            },
    )
}

/// The buffer while row `row` is being copied: as after `row` whole rows,
/// with the first `done` bytes of row `row` copied too.
pub open spec fn spec_copy_partial(
    dst: Seq<u8>,
    dst_stride: int,
    src: Seq<u8>,
    src_stride: int,
    row: int,
    row_bytes: int,
    done: int,
) -> Seq<u8> {
    Seq::new(
        dst.len(),
        |i: int|
            if dst_stride > 0 && ((i / dst_stride < row && i % dst_stride < row_bytes) || (i
                / dst_stride == row && i % dst_stride < done)) {
                src[(i / dst_stride) * src_stride + i % dst_stride]
            } else {
                dst[i]
            },
    )
}

/// Copies the first `row_bytes` bytes of each of the first `rows` rows of
/// `src` over the start of the rows of `dst`.
pub fn copy_rows(
    dst: &mut Vec<u8>,
    dst_stride: usize,
    src: &[u8],
    src_stride: usize,
    rows: usize,
    row_bytes: usize,
)
    requires
        row_bytes <= dst_stride,
        row_bytes <= src_stride,
        rows * dst_stride <= old(dst)@.len(),
        rows * src_stride <= src@.len(),
    ensures
        final(dst)@ == spec_copy_rows(
            old(dst)@,
            dst_stride as int,
            src@,
            src_stride as int,
            rows as int,
            row_bytes as int,
        ),
{
    let ghost before = dst@;
    let ghost ds = dst_stride as int;
    let ghost ss = src_stride as int;
    let ghost rb = row_bytes as int;
    if row_bytes == 0 {
        assert(dst@ =~= spec_copy_rows(before, ds, src@, ss, rows as int, rb));
        return ;
    }
    let mut y: usize = 0;
    assert(before.len() == dst.len());
    assert(src@.len() == src.len());
    assert(dst@ =~= spec_copy_rows(before, ds, src@, ss, 0, rb));
    while y < rows
        invariant
            y <= rows,
            0 < rb <= ds,
            rb <= ss,
            ds == dst_stride,
            ss == src_stride,
            rb == row_bytes,
            rows * ds <= before.len(),
            rows * ss <= src@.len(),
            before.len() <= usize::MAX,
            src@.len() <= usize::MAX,
            dst@.len() == before.len(),
            dst@ == spec_copy_rows(before, ds, src@, ss, y as int, rb),
        decreases rows - y,
    {
        proof {
            lemma_mul_le(y as int, ds, rows as int, ds);
            lemma_mul_le(y as int, ss, rows as int, ss);
            lemma_mul_le(y as int + 1, ds, rows as int, ds);
            lemma_mul_le(y as int + 1, ss, rows as int, ss);
            assert((y + 1) * ds == y * ds + ds) by (nonlinear_arith);
            assert((y + 1) * ss == y * ss + ss) by (nonlinear_arith);
        }
        let dst_offset = y * dst_stride;
        let src_offset = y * src_stride;
        let mut x: usize = 0;
        assert(dst@ =~= spec_copy_partial(before, ds, src@, ss, y as int, rb, 0));
        while x < row_bytes
            invariant
                x <= row_bytes,
                y < rows,
                0 < rb <= ds,
                rb <= ss,
                ds == dst_stride,
                ss == src_stride,
                rb == row_bytes,
                dst_offset == y * ds,
                src_offset == y * ss,
                dst_offset + ds <= before.len(),
                src_offset + ss <= src@.len(),
                before.len() <= usize::MAX,
                src@.len() <= usize::MAX,
                dst@.len() == before.len(),
                dst@ == spec_copy_partial(before, ds, src@, ss, y as int, rb, x as int),
            decreases row_bytes - x,
        {
            let ghost prev = dst@;
            dst.set(dst_offset + x, src[src_offset + x]);
            proof {
                let idx = dst_offset as int + x as int;
                lemma_div_mod_unique(y as int, x as int, ds);
                assert forall|i: int| 0 <= i < dst@.len() implies dst@[i] == spec_copy_partial(
                    before,
                    ds,
                    src@,
                    ss,
                    y as int,
                    rb,
                    x as int + 1,
                )[i] by {
                    lemma_div_mod_parts(i, ds);
                    if i == idx {
                    } else {
                        assert(dst@[i] == prev[i]);
                        if i / ds == y as int && i % ds == x as int {
                            assert(i == idx);
                        }
                    }
                }
                assert(dst@ =~= spec_copy_partial(before, ds, src@, ss, y as int, rb, x as int + 1));
            }
            x += 1;
        }
        proof {
            assert(dst@ =~= spec_copy_rows(before, ds, src@, ss, y as int + 1, rb));
        }
        y += 1;
    }
}

/// The state of a window-server capture session.
#[derive(Debug)]
pub struct X11Capture {
    width: u32,
    height: u32,
    format: PixelFormat,
    initialized: bool,
    frame_buffer: Option<Vec<u8>>,
}

/// A session as a mathematical value.
pub struct X11View {
    /// Current width.
    pub width: u32,
    /// Current height.
    pub height: u32,
    /// Format of the frames.
    pub format: PixelFormat,
    /// Whether initialisation has succeeded.
    pub initialized: bool,
    /// The reusable host buffer, once allocated.
    pub frame_buffer: Option<Seq<u8>>,
}

impl View for X11Capture {
    type V = X11View;

    closed spec fn view(&self) -> X11View {
        X11View {
            width: self.width,
            height: self.height,
            format: self.format,
            initialized: self.initialized,
            frame_buffer: match self.frame_buffer {
                Some(buffer) => Some(buffer@),
                None => None,
            },
        }
    }
}

/// Bytes of a host buffer for the given display: four per pixel.
pub open spec fn spec_buffer_size(width: u32, height: u32) -> nat {
    spec_frame_size(width, height, PixelFormat::BGRA)
}

/// A buffer of `len` zero bytes.
pub open spec fn spec_zeroed(len: nat) -> Seq<u8> {
    Seq::new(len, |i: int| 0u8)
}

impl X11View {
    /// A session is well formed where its buffer, once allocated, has four
    /// bytes for each pixel of the current resolution.
    pub open spec fn wf(self) -> bool {
        self.frame_buffer matches Some(buffer) ==> buffer.len() == spec_buffer_size(
            self.width,
            self.height,
        )
    }
}

/// Rows that a capture copies: those of the session, of the image, whichever
/// are fewer.
pub open spec fn spec_copy_height(session: X11View, image: XImage) -> int {
    if session.height <= image.height {
        session.height as int
    } else {
        image.height as int
    }
}

/// Bytes of each row that a capture copies: a row of the session or of the
/// image, whichever is shorter.
pub open spec fn spec_copy_width(session: X11View, image: XImage) -> int {
    if session.width * 4 <= image.bytes_per_line {
        session.width * 4
    } else {
        image.bytes_per_line as int
    }
}

/// The buffer that a capture of `image` leaves in the session.
pub open spec fn spec_captured(session: X11View, image: XImage) -> Seq<u8> {
    spec_copy_rows(
        match session.frame_buffer {
            Some(buffer) => buffer,
            None => spec_zeroed(spec_buffer_size(session.width, session.height)),
        },
        session.width * 4,
        image.data@,
        image.bytes_per_line as int,
        spec_copy_height(session, image),
        spec_copy_width(session, image),
    )
}

impl X11Capture {
    /// Whether the window server can be used: a display is named and the
    /// client library can be found.
    pub fn is_available(display: Option<&str>, library_found: bool) -> (available: bool)
        ensures
            available <==> library_found && display is Some && display->Some_0@.len() > 0,
    {
        match display {
            None => false,
            Some(name) => name.unicode_len() > 0 && library_found,
        }
    }

    /// A session on a freshly loaded client library. The library must be
    /// available and must load; otherwise the resource is unavailable.
    pub fn new(available: bool, loaded: bool) -> (made: Result<Self, CaptureError>)
        ensures
            made is Ok <==> available && loaded,
            made is Ok ==> made->Ok_0@ == (X11View {
                width: 1920,
                height: 1080,
                format: PixelFormat::BGRA,
                initialized: false,
                frame_buffer: None,
            }),
            made is Err ==> made->Err_0 is ResourceUnavailable && made->Err_0.detail() == (
            if !available {
                "X11 库未找到"@
            } else {
                "无法加载 X11 库"@
            }),
    {
        if !available {
            return Err(CaptureError::ResourceUnavailable("X11 库未找到".to_string()));
        }
        if !loaded {
            return Err(CaptureError::ResourceUnavailable("无法加载 X11 库".to_string()));
        }
        Ok(
            X11Capture {
                width: 1920,
                height: 1080,
                format: PixelFormat::BGRA,
                initialized: false,
                frame_buffer: None,
            },
        )
    }

    /// Initialises the session. `display` is the size of the screen where
    /// the display could be opened. A second initialisation changes nothing
    /// and succeeds. Success leaves a zeroed buffer for the screen.
    pub fn init(&mut self, display: Option<(u32, u32)>) -> (done: Result<(), CaptureError>)
        requires
            old(self)@.wf(),
        ensures
            final(self)@.wf(),
            done is Ok <==> old(self)@.initialized || (display is Some && spec_buffer_size(
                display->Some_0.0,
                display->Some_0.1,
            ) <= usize::MAX),
            final(self)@ == if old(self)@.initialized || done is Err {
                old(self)@
            } else {
                X11View {
                    width: display->Some_0.0,
                    height: display->Some_0.1,
                    initialized: true,
                    frame_buffer: Some(
                        spec_zeroed(spec_buffer_size(display->Some_0.0, display->Some_0.1)),
                    ),
                    ..old(self)@
                }
            },
            done is Err ==> {
                let e = done->Err_0;
                if display is None {
                    e is X11Error && e.detail() == "无法连接到 X 服务器"@
                } else {
                    e is InitFailed && e.detail() == "帧大小超出范围"@
                }
            },
    {
        if self.initialized {
            return Ok(());
        }
        let (width, height) = match display {
            None => {
                return Err(CaptureError::X11Error("无法连接到 X 服务器".to_string()));
            },
            Some(size) => size,
        };
        let size = match frame_size(width, height, PixelFormat::BGRA) {
            None => {
                return Err(CaptureError::InitFailed("帧大小超出范围".to_string()));
            },
            Some(size) => size,
        };
        self.width = width;
        self.height = height;
        let buffer = vec![0u8; size];
        assert(buffer@ =~= spec_zeroed(spec_buffer_size(width, height)));
        self.frame_buffer = Some(buffer);
        self.initialized = true;
        Ok(())
    }

    /// Captures one frame: copies `image` into the session's buffer and
    /// returns a frame in host memory with a copy of the buffer. A call
    /// before initialisation is invalid; no image, or an image with fewer
    /// bytes than its rows need, fails the capture and leaves the session as
    /// it was.
    pub fn capture(&mut self, image: Option<&XImage>, timestamp_us: u64) -> (frame: Result<
        FrameRef,
        CaptureError,
    >)
        requires
            old(self)@.wf(),
        ensures
            final(self)@.wf(),
            frame is Ok <==> old(self)@.initialized && image is Some && image->Some_0.height
                * image->Some_0.bytes_per_line <= image->Some_0.data@.len() && spec_buffer_size(
                old(self)@.width,
                old(self)@.height,
            ) <= usize::MAX,
            frame is Ok ==> {
                let f = frame->Ok_0@;
                let pixels = spec_captured(old(self)@, *image->Some_0);
                &&& final(self)@ == (X11View { frame_buffer: Some(pixels), ..old(self)@ })
                &&& f.width == old(self)@.width
                &&& f.height == old(self)@.height
                &&& f.format == old(self)@.format
                &&& f.timestamp_us == timestamp_us
                &&& f.surface matches Surface::Host { data }
                &&& data@ == pixels
            },
            frame is Err ==> final(self)@ == old(self)@ && {
                let e = frame->Err_0;
                if !old(self)@.initialized {
                    e is InvalidCall && e.detail() == "捕获前必须先初始化"@
                } else if image is None {
                    e is CaptureFailed && e.detail() == "XGetImage 返回空指针"@
                } else if image->Some_0.height * image->Some_0.bytes_per_line
                    > image->Some_0.data@.len() {
                    e is CaptureFailed && e.detail() == "XImage 数据不完整"@
                } else {
                    e is CaptureFailed && e.detail() == "帧大小超出范围"@
                }
            },
    {
        if !self.initialized {
            return Err(CaptureError::InvalidCall("捕获前必须先初始化".to_string()));
        }
        let img = match image {
            None => {
                return Err(CaptureError::CaptureFailed("XGetImage 返回空指针".to_string()));
            },
            Some(img) => img,
        };
        proof {
            lemma_mul_le(
                img.height as int,
                img.bytes_per_line as int,
                u32::MAX as int,
                u32::MAX as int,
            );
        }
        if (img.height as u64 * img.bytes_per_line as u64) as u128 > img.data.len() as u128 {
            return Err(CaptureError::CaptureFailed("XImage 数据不完整".to_string()));
        }
        let size = match frame_size(self.width, self.height, PixelFormat::BGRA) {
            None => {
                return Err(CaptureError::CaptureFailed("帧大小超出范围".to_string()));
            },
            Some(size) => size,
        };
        let ghost before = self@;
        let mut buffer = match self.frame_buffer.take() {
            Some(buffer) => buffer,
            None => {
                let zeroed = vec![0u8; size];
                assert(zeroed@ =~= spec_zeroed(spec_buffer_size(self.width, self.height)));
                zeroed
            },
        };
        let rows: u32 = if self.height <= img.height {
            self.height
        } else {
            img.height
        };
        if rows > 0 {
            proof {
                assert(self.width * rows * 4 <= self.width * self.height * 4) by (nonlinear_arith)
                    requires
                        rows <= self.height,
                ;
                assert(self.width * 4 <= self.width * rows * 4) by (nonlinear_arith)
                    requires
                        rows >= 1,
                ;
                assert(rows * img.bytes_per_line <= img.height * img.bytes_per_line)
                    by (nonlinear_arith)
                    requires
                        rows <= img.height,
                ;
                assert(img.bytes_per_line <= rows * img.bytes_per_line) by (nonlinear_arith)
                    requires
                        rows >= 1,
                ;
                assert(rows * (self.width * 4) == self.width * rows * 4) by (nonlinear_arith);
            }
            let dst_stride: usize = self.width as usize * 4;
            let src_stride: usize = img.bytes_per_line as usize;
            let row_bytes: usize = if dst_stride <= src_stride {
                dst_stride
            } else {
                src_stride
            };
            copy_rows(
                &mut buffer,
                dst_stride,
                img.data.as_slice(),
                src_stride,
                rows as usize,
                row_bytes,
            );
        } else {
            assert(buffer@ =~= spec_captured(before, *img));
        }
        let copy = buffer.clone();
        self.frame_buffer = Some(buffer);
        Ok(FrameRef::from_data(copy, self.width, self.height, self.format, timestamp_us))
    }

    /// Frames of this backend pass through host memory.
    pub fn is_zero_copy(&self) -> (zero_copy: bool)
        ensures
            !zero_copy,
    {
        false
    }

    /// The name of the backend.
    pub fn name(&self) -> (name: &'static str)
        ensures
            name@ == "X11"@,
    {
        "X11"
    }

    /// The current resolution, width then height.
    pub fn resolution(&self) -> (size: (u32, u32))
        ensures
            size == (self@.width, self@.height),
    {
        (self.width, self.height)
    }

    /// Sets the target resolution and replaces the buffer by a zeroed one of
    /// the new size. A size that does not fit the machine is refused, and
    /// the session stays as it was.
    pub fn set_resolution(&mut self, width: u32, height: u32) -> (done: Result<(), CaptureError>)
        requires
            old(self)@.wf(),
        ensures
            final(self)@.wf(),
            done is Ok <==> spec_buffer_size(width, height) <= usize::MAX,
            done is Ok ==> final(self)@ == (X11View {
                width,
                height,
                frame_buffer: Some(spec_zeroed(spec_buffer_size(width, height))),
                ..old(self)@
            }),
            done is Err ==> final(self)@ == old(self)@ && done->Err_0 is InvalidCall
                && done->Err_0.detail() == "分辨率超出范围"@,
    {
        let size = match frame_size(width, height, PixelFormat::BGRA) {
            None => {
                return Err(CaptureError::InvalidCall("分辨率超出范围".to_string()));
            },
            Some(size) => size,
        };
        self.width = width;
        self.height = height;
        let buffer = vec![0u8; size];
        assert(buffer@ =~= spec_zeroed(spec_buffer_size(width, height)));
        self.frame_buffer = Some(buffer);
        Ok(())
    }

    /// Drops the buffer and marks the session as closed. The caller closes
    /// the display.
    pub fn cleanup(&mut self)
        ensures
            final(self)@ == (X11View { initialized: false, frame_buffer: None, ..old(self)@ }),
    {
        self.frame_buffer = None;
        self.initialized = false;
    }
}

} // verus!
