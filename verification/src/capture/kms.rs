//! Kernel-mode-set capture: which connector to read, and the steps from the
//! active framebuffer to a frame that owns a DMA-BUF descriptor. The device
//! calls themselves are made by the caller, who hands in what they returned.

use crate::capture::frame_size;
use crate::capture::CaptureError;
use crate::capture::FrameRef;
use crate::capture::PixelFormat;
use crate::capture::Surface;
use crate::text::join;
use vstd::prelude::*;

verus! {

/// One display mode of a connector.
#[derive(Debug, Clone, Copy, PartialEq, Eq, Structural)]
pub struct DisplayMode {
    /// Visible pixels per row.
    pub hdisplay: u16,
    /// Visible rows.
    pub vdisplay: u16,
}

/// What the device said of one connector.
#[derive(Debug, Clone, Copy, PartialEq, Eq, Structural)]
pub struct ConnectorState {
    /// Whether a display is attached.
    pub connected: bool,
    /// The first mode of the connector, where its modes could be read.
    pub first_mode: Option<DisplayMode>,
}

/// A connector of the device and the outcome of asking for its state: the
/// state, or a description of the failure.
#[derive(Debug)]
pub struct ConnectorProbe {
    /// The identifier of the connector; zero marks an unused slot.
    pub connector_id: u32,
    /// The state, or why it could not be read.
    pub state: Result<ConnectorState, String>,
}

/// The outcome of the search for a connected display.
pub enum ConnectorChoice {
    /// The connector and the resolution of its display.
    Found { connector_id: u32, width: u32, height: u32 },
    /// A connector that had to be asked could not be read.
    QueryFailed { detail: Seq<char> },
    /// No connector has a display attached.
    NoneConnected,
}

/// Width assumed for a display whose modes cannot be read.
pub const DEFAULT_WIDTH: u32 = 1920;

/// Height assumed for a display whose modes cannot be read.
pub const DEFAULT_HEIGHT: u32 = 1080;

/// The search, from position `from` on: unused slots are passed over, a
/// connector that cannot be read ends the search with its failure, and the
/// first connector with a display attached is taken, with the resolution of
/// its first mode or the default one.
pub open spec fn spec_find_connected(probes: Seq<ConnectorProbe>, from: int) -> ConnectorChoice
    decreases probes.len() - from,
{
    if from < 0 || from >= probes.len() {
        ConnectorChoice::NoneConnected
    } else if probes[from].connector_id == 0 {
        spec_find_connected(probes, from + 1)
    } else {
        match probes[from].state {
            Err(detail) => ConnectorChoice::QueryFailed { detail: detail@ },
            Ok(state) => if state.connected {
                match state.first_mode {
                    Some(mode) => ConnectorChoice::Found {
                        connector_id: probes[from].connector_id,
                        width: mode.hdisplay as u32,
                        height: mode.vdisplay as u32,
                    },
                    None => ConnectorChoice::Found {
                        connector_id: probes[from].connector_id,
                        width: DEFAULT_WIDTH,
                        height: DEFAULT_HEIGHT,
                    },
                }
            } else {
                spec_find_connected(probes, from + 1)
            },
        }
    }
}

/// Whether `found` reports `choice` as the search does: the connector with
/// its resolution, a device error for a failed query, an unavailable resource
/// where nothing is connected.
pub open spec fn reports_choice(
    found: Result<(u32, u32, u32), CaptureError>,
    choice: ConnectorChoice,
) -> bool {
    match choice {
        ConnectorChoice::Found { connector_id, width, height } => found == Ok::<
            (u32, u32, u32),
            CaptureError,
        >((connector_id, width, height)),
        ConnectorChoice::QueryFailed { detail } => found is Err && found->Err_0 is DrmError
            && found->Err_0.detail() == "ioctl DRM_IOCTL_MODE_GETCONNECTOR 失败: "@ + detail,
        ConnectorChoice::NoneConnected => found is Err && found->Err_0 is ResourceUnavailable
            && found->Err_0.detail() == "没有找到连接的显示器"@,
    }
}

/// Finds the connector to capture from among the connectors of the device,
/// in the order in which the device lists them. Returns its identifier and
/// the width and height of its display.
pub fn find_connected_connector(probes: &Vec<ConnectorProbe>) -> (found: Result<
    (u32, u32, u32),
    CaptureError,
>)
    ensures
        reports_choice(found, spec_find_connected(probes@, 0)),
{
    let mut i: usize = 0;
    while i < probes.len()
        invariant
            i <= probes.len(),
            spec_find_connected(probes@, 0) == spec_find_connected(probes@, i as int),
        decreases probes.len() - i,
    {
        let probe = &probes[i];
        if probe.connector_id != 0 {
            match &probe.state {
                Err(detail) => {
                    return Err(
                        CaptureError::DrmError(
                            join("ioctl DRM_IOCTL_MODE_GETCONNECTOR 失败: ", detail.as_str()),
                        ),
                    );
                },
                Ok(state) => {
                    if state.connected {
                        return match state.first_mode {
                            Some(mode) => Ok(
                                (probe.connector_id, mode.hdisplay as u32, mode.vdisplay as u32),
                            ),
                            None => Ok((probe.connector_id, DEFAULT_WIDTH, DEFAULT_HEIGHT)),
                        };
                    }
                },
            }
        }
        i += 1;
    }
    Err(CaptureError::ResourceUnavailable("没有找到连接的显示器".to_string()))
}

/// What the device reported when it was asked, at initialisation, for its
/// buffer-sharing capability, its connectors and the number of its display
/// controllers. Each is the answer or a description of the failure.
#[derive(Debug)]
pub struct KmsProbe {
    /// The buffer-sharing capability; zero means that it is absent.
    pub prime_cap: Result<u64, String>,
    /// The connectors in the device's order.
    pub connectors: Result<Vec<ConnectorProbe>, String>,
    /// The number of display controllers.
    pub crtc_count: Result<u32, String>,
}

/// Path of the first device that is tried.
pub open spec fn spec_primary_path() -> Seq<char> {
    "/dev/dri/card0"@
}

/// Path of the device that is tried where the first cannot be opened.
pub open spec fn spec_fallback_path() -> Seq<char> {
    "/dev/dri/card1"@
}

/// The state of a kernel-mode-set capture session.
#[derive(Debug)]
pub struct KmsCapture {
    connector_id: u32,
    crtc_id: u32,
    width: u32,
    height: u32,
    fb_id: u32,
    format: PixelFormat,
    initialized: bool,
    device_path: String,
}

/// A capture session as a mathematical value.
pub struct KmsView {
    /// The connector read from, once initialised.
    pub connector_id: u32,
    /// The display controller read from, once initialised.
    pub crtc_id: u32,
    /// Current width.
    pub width: u32,
    /// Current height.
    pub height: u32,
    /// The framebuffer chosen by the last capture step.
    pub fb_id: u32,
    /// Format of the frames.
    pub format: PixelFormat,
    /// Whether initialisation has succeeded.
    pub initialized: bool,
    /// Path of the device in use.
    pub device_path: Seq<char>,
}

impl View for KmsCapture {
    type V = KmsView;

    closed spec fn view(&self) -> KmsView {
        KmsView {
            connector_id: self.connector_id,
            crtc_id: self.crtc_id,
            width: self.width,
            height: self.height,
            fb_id: self.fb_id,
            format: self.format,
            initialized: self.initialized,
            device_path: self.device_path@,
        }
    }
}

/// The state after an initialisation that is handed `probe`: unchanged where
/// the session is initialised already or a step fails; otherwise the
/// connector and its resolution are recorded, and the first controller where
/// the device has one.
pub open spec fn spec_init(before: KmsView, probe: KmsProbe) -> KmsView {
    if before.initialized {
        before
    } else if !(probe.prime_cap matches Ok(cap) && cap != 0) {
        before
    } else if !(probe.connectors is Ok) {
        before
    } else {
        match spec_find_connected(probe.connectors->Ok_0@, 0) {
            ConnectorChoice::Found { connector_id, width, height } => {
                if probe.crtc_count is Ok {
                    KmsView {
                        connector_id,
                        width,
                        height,
                        crtc_id: if probe.crtc_count->Ok_0 > 0 {
                            1
                        } else {
                            before.crtc_id
                        },
                        initialized: true,
                        ..before
                    }
                } else {
                    KmsView { connector_id, width, height, ..before }
                }
            },
            _ => before,
        }
    }
}

impl KmsCapture {
    /// Whether a device can be opened at all.
    pub fn is_available(primary_opened: bool, fallback_opened: bool) -> (available: bool)
        ensures
            available <==> primary_opened || fallback_opened,
    {
        primary_opened || fallback_opened
    }

    /// A session on the first device that could be opened: the primary one,
    /// else the fallback. Where neither opened the resource is unavailable.
    pub fn new(primary_opened: bool, fallback_opened: bool) -> (made: Result<Self, CaptureError>)
        ensures
            made is Ok <==> primary_opened || fallback_opened,
            made is Ok ==> made->Ok_0@ == (KmsView {
                connector_id: 0,
                crtc_id: 0,
                width: DEFAULT_WIDTH,
                height: DEFAULT_HEIGHT,
                fb_id: 0,
                format: PixelFormat::BGRA,
                initialized: false,
                device_path: if primary_opened {
                    spec_primary_path()
                } else {
                    spec_fallback_path()
                },
            }),
            made is Err ==> made->Err_0 is ResourceUnavailable && made->Err_0.detail()
                == "无法打开 DRM 设备"@,
    {
        let device_path = if primary_opened {
            "/dev/dri/card0".to_string()
        } else if fallback_opened {
            "/dev/dri/card1".to_string()
        } else {
            return Err(CaptureError::ResourceUnavailable("无法打开 DRM 设备".to_string()));
        };
        Ok(
            KmsCapture {
                connector_id: 0,
                crtc_id: 0,
                width: DEFAULT_WIDTH,
                height: DEFAULT_HEIGHT,
                fb_id: 0,
                format: PixelFormat::BGRA,
                initialized: false,
                device_path,
            },
        )
    }

    /// Whether initialisation still has to ask the device anything.
    pub fn needs_probe(&self) -> (needed: bool)
        ensures
            needed <==> !self@.initialized,
    {
        !self.initialized
    }

    /// Initialises the session from what the device reported. A second
    /// initialisation changes nothing and succeeds. The device must share
    /// buffers, a display must be connected, and the controllers must be
    /// readable; each failure is reported as the device error it is.
    pub fn init(&mut self, probe: &KmsProbe) -> (done: Result<(), CaptureError>)
        ensures
            final(self)@ == spec_init(old(self)@, *probe),
            done is Ok <==> final(self)@.initialized,
            done is Err ==> !old(self)@.initialized && {
                let e = done->Err_0;
                if probe.prime_cap is Err {
                    e is DrmError && e.detail() == "ioctl DRM_IOCTL_GET_CAP 失败: "@
                        + probe.prime_cap->Err_0@
                } else if probe.prime_cap->Ok_0 == 0 {
                    e is DrmError && e.detail() == "DRM PRIME 不支持"@
                } else if probe.connectors is Err {
                    e is DrmError && e.detail() == "获取连接器列表失败"@
                } else if !(spec_find_connected(probe.connectors->Ok_0@, 0) is Found) {
                    reports_choice(
                        Err::<(u32, u32, u32), CaptureError>(e),
                        spec_find_connected(probe.connectors->Ok_0@, 0),
                    )
                } else {
                    e is DrmError && probe.crtc_count is Err && e.detail()
                        == "ioctl DRM_IOCTL_MODE_GETRESOURCES 失败: "@ + probe.crtc_count->Err_0@
                }
            },
    {
        if self.initialized {
            return Ok(());
        }
        match &probe.prime_cap {
            Err(detail) => {
                return Err(
                    CaptureError::DrmError(join("ioctl DRM_IOCTL_GET_CAP 失败: ", detail.as_str())),
                );
            },
            Ok(cap) => {
                if *cap == 0 {
                    return Err(CaptureError::DrmError("DRM PRIME 不支持".to_string()));
                }
            },
        }
        let probes = match &probe.connectors {
            Err(_) => {
                return Err(CaptureError::DrmError("获取连接器列表失败".to_string()));
            },
            Ok(probes) => probes,
        };
        let (connector_id, width, height) = match find_connected_connector(probes) {
            Ok(found) => found,
            Err(e) => {
                return Err(e);
            },
        };
        self.connector_id = connector_id;
        self.width = width;
        self.height = height;
        match &probe.crtc_count {
            Err(detail) => {
                return Err(
                    CaptureError::DrmError(
                        join("ioctl DRM_IOCTL_MODE_GETRESOURCES 失败: ", detail.as_str()),
                    ),
                );
            },
            Ok(count) => {
                if *count > 0 {
                    self.crtc_id = 1;
                }
            },
        }
        self.initialized = true;
        Ok(())
    }

    /// The display controller whose framebuffer a capture reads.
    pub fn crtc_id(&self) -> (id: u32)
        ensures
            id == self@.crtc_id,
    {
        self.crtc_id
    }

    /// First step of a capture: takes the framebuffer that the display
    /// controller reported as active and returns the handle to export. A call
    /// before initialisation is invalid; a controller that cannot be read is
    /// a device error; no active framebuffer fails the capture. Only success
    /// changes the session, which then remembers the framebuffer.
    pub fn select_framebuffer(&mut self, crtc_fb: Result<u32, String>) -> (handle: Result<
        u32,
        CaptureError,
    >)
        ensures
            handle is Ok <==> old(self)@.initialized && crtc_fb is Ok && crtc_fb->Ok_0 != 0,
            handle is Ok ==> handle->Ok_0 == crtc_fb->Ok_0 && final(self)@ == (KmsView {
                fb_id: crtc_fb->Ok_0,
                ..old(self)@
            }),
            handle is Err ==> final(self)@ == old(self)@ && {
                let e = handle->Err_0;
                if !old(self)@.initialized {
                    e is InvalidCall && e.detail() == "捕获前必须先初始化"@
                } else if crtc_fb is Err {
                    e is DrmError && e.detail() == "ioctl DRM_IOCTL_MODE_GETCRTC 失败: "@
                        + crtc_fb->Err_0@
                } else {
                    e is CaptureFailed && e.detail() == "没有活动的帧缓冲区"@
                }
            },
    {
        if !self.initialized {
            return Err(CaptureError::InvalidCall("捕获前必须先初始化".to_string()));
        }
        match crtc_fb {
            Err(detail) => Err(
                CaptureError::DrmError(join("ioctl DRM_IOCTL_MODE_GETCRTC 失败: ", detail.as_str())),
            ),
            Ok(fb_id) => {
                if fb_id == 0 {
                    Err(CaptureError::CaptureFailed("没有活动的帧缓冲区".to_string()))
                } else {
                    self.fb_id = fb_id;
                    Ok(fb_id)
                }
            },
        }
    }

    /// Second step of a capture: wraps the descriptor that the export of the
    /// selected framebuffer returned into a frame, which owns it from then
    /// on. A call before initialisation is invalid; a failed export and a
    /// negative descriptor are device errors; a frame too large for the
    /// machine fails the capture.
    pub fn capture(&self, exported: Result<i32, String>, timestamp_us: u64) -> (frame: Result<
        FrameRef,
        CaptureError,
    >)
        ensures
            frame is Ok <==> self@.initialized && exported is Ok && exported->Ok_0 >= 0
                && crate::capture::spec_frame_size(self@.width, self@.height, self@.format)
                <= usize::MAX,
            frame is Ok ==> {
                let f = frame->Ok_0@;
                &&& f.width == self@.width
                &&& f.height == self@.height
                &&& f.format == self@.format
                &&& f.timestamp_us == timestamp_us
                &&& f.surface == (Surface::DmaBuf { fd: exported->Ok_0 })
                &&& f.data_size == crate::capture::spec_frame_size(
                    self@.width,
                    self@.height,
                    self@.format,
                )
            },
            frame is Err ==> {
                let e = frame->Err_0;
                if !self@.initialized {
                    e is InvalidCall && e.detail() == "捕获前必须先初始化"@
                } else if exported is Err {
                    e is DrmError && e.detail() == "导出 DMA-BUF 失败: "@ + exported->Err_0@
                } else if exported->Ok_0 < 0 {
                    e is DrmError && e.detail() == "导出的 DMA-BUF fd 无效"@
                } else {
                    e is CaptureFailed && e.detail() == "帧大小超出范围"@
                }
            },
    {
        if !self.initialized {
            return Err(CaptureError::InvalidCall("捕获前必须先初始化".to_string()));
        }
        match exported {
            Err(detail) => Err(
                CaptureError::DrmError(join("导出 DMA-BUF 失败: ", detail.as_str())),
            ),
            Ok(fd) => {
                if fd < 0 {
                    Err(CaptureError::DrmError("导出的 DMA-BUF fd 无效".to_string()))
                } else if frame_size(self.width, self.height, self.format).is_none() {
                    Err(CaptureError::CaptureFailed("帧大小超出范围".to_string()))
                } else {
                    Ok(FrameRef::with_dmabuf(self.width, self.height, self.format, fd, timestamp_us))
                }
            },
        }
    }

    /// Frames of this backend reach the encoder without a copy.
    pub fn is_zero_copy(&self) -> (zero_copy: bool)
        ensures
            zero_copy,
    {
        true
    }

    /// The name of the backend.
    pub fn name(&self) -> (name: &'static str)
        ensures
            name@ == "KMS/DRM"@,
    {
        "KMS/DRM"
    }

    /// The current resolution, width then height.
    pub fn resolution(&self) -> (size: (u32, u32))
        ensures
            size == (self@.width, self@.height),
    {
        (self.width, self.height)
    }

    /// Records a target resolution. The display decides the real one: this
    /// changes only what the session reports and stamps on its frames.
    pub fn set_resolution(&mut self, width: u32, height: u32) -> (done: Result<(), CaptureError>)
        ensures
            done is Ok,
            final(self)@ == (KmsView { width, height, ..old(self)@ }),
    {
        self.width = width;
        self.height = height;
        Ok(())
    }

    /// Marks the session as closed. The caller closes the device.
    pub fn cleanup(&mut self)
        ensures
            final(self)@ == (KmsView { initialized: false, ..old(self)@ }),
    {
        self.initialized = false;
    }
}

} // verus!
