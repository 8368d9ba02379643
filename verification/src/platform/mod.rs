//! The platform: which GPUs there are, what they offer, and which of them
//! a session uses.

use crate::text::join;
use vstd::prelude::*;

verus! {

/// What can go wrong on the platform.
#[derive(Debug, Clone, PartialEq, Eq)]
pub enum PlatformError {
    /// No GPU was found.
    GpuNotFound,
    /// A GPU could not be initialised.
    GpuInitFailed(String),
    /// The driver does not offer what is needed.
    DriverNotSupported(String),
    /// The process may not use the device.
    PermissionDenied(String),
    /// The platform is not supported.
    PlatformNotSupported(String),
}

impl PlatformError {
    /// The sentence that presents this error.
    pub open spec fn spec_message(self) -> Seq<char> {
        match self {
            PlatformError::GpuNotFound => "GPU not found"@,
            PlatformError::GpuInitFailed(m) => "GPU initialization failed: "@ + m@,
            PlatformError::DriverNotSupported(m) => "Driver not supported: "@ + m@,
            PlatformError::PermissionDenied(m) => "Permission denied: "@ + m@,
            PlatformError::PlatformNotSupported(m) => "Platform not supported: "@ + m@,
        }
    }

    /// The sentence that presents this error.
    pub fn to_string(&self) -> (text: String)
        ensures
            text@ == self.spec_message(),
    {
        match self {
            PlatformError::GpuNotFound => "GPU not found".to_string(),
            PlatformError::GpuInitFailed(m) => join("GPU initialization failed: ", m.as_str()),
            PlatformError::DriverNotSupported(m) => join("Driver not supported: ", m.as_str()),
            PlatformError::PermissionDenied(m) => join("Permission denied: ", m.as_str()),
            PlatformError::PlatformNotSupported(m) => join(
                "Platform not supported: ",
                m.as_str(),
            ),
        }
    }
}

/// The maker of a GPU.
#[derive(Debug, Clone, Copy, PartialEq, Eq, Structural)]
pub enum GpuVendor {
    NVIDIA,
    AMD,
    Intel,
    Apple,
    Unknown,
}

/// What is known of one GPU.
#[derive(Debug, Clone, PartialEq, Eq)]
pub struct GpuInfo {
    /// Maker of the GPU.
    pub vendor: GpuVendor,
    /// Model name.
    pub name: String,
    /// Video memory, in megabytes.
    pub vram_mb: u64,
    /// Whether it encodes video in hardware.
    pub supports_hardware_encode: bool,
    /// Whether it decodes video in hardware.
    pub supports_hardware_decode: bool,
    /// Names of the codecs it encodes.
    pub supported_codecs: Vec<String>,
    /// Version of its driver.
    pub driver_version: String,
    /// Version of the compute runtime, where there is one.
    pub cuda_version: Option<String>,
    /// Whether the GPU-native capture is there.
    pub supports_nvfbc: bool,
    /// Whether the GPU-native encoder is there.
    pub supports_nvenc: bool,
}

/// The operating system.
#[derive(Debug, Clone, Copy, PartialEq, Eq, Structural)]
pub enum OsType {
    Windows,
    Linux,
    MacOS,
}

/// What the platform offers.
#[derive(Debug, Clone, PartialEq, Eq)]
pub struct PlatformCapabilities {
    /// The operating system.
    pub os_type: OsType,
    /// The GPUs that were found.
    pub gpus: Vec<GpuInfo>,
    /// Whether the compute runtime is there.
    pub supports_cuda: bool,
    /// Whether desktop duplication is there.
    pub supports_dxgi: bool,
    /// Whether buffers can be shared as DMA-BUFs.
    pub supports_dmabuf: bool,
    /// Whether the screen-capture framework is there.
    pub supports_screencapturekit: bool,
}

/// How much a GPU is preferred: one with the GPU-native encoder most, then
/// AMD, then Intel.
pub open spec fn spec_preference(gpu: GpuInfo) -> int {
    match gpu.vendor {
        GpuVendor::NVIDIA => if gpu.supports_nvenc {
            100
        } else {
            0
        },
        GpuVendor::AMD => 50,
        GpuVendor::Intel => 30,
        _ => 0,
    }
}

/// How much a GPU is preferred.
pub fn preference(gpu: &GpuInfo) -> (points: u32)
    ensures
        points == spec_preference(*gpu),
{
    match gpu.vendor {
        GpuVendor::NVIDIA => if gpu.supports_nvenc {
            100
        } else {
            0
        },
        GpuVendor::AMD => 50,
        GpuVendor::Intel => 30,
        _ => 0,
    }
}

/// The position of the best GPU among the first `upto`: of those that
/// encode in hardware the most preferred, and of equally preferred ones
/// the last. `None` where none encodes in hardware.
pub open spec fn spec_best_gpu(gpus: Seq<GpuInfo>, upto: int) -> Option<int>
    decreases upto,
{
    if upto <= 0 {
        None
    } else {
        let before = spec_best_gpu(gpus, upto - 1);
        if !gpus[upto - 1].supports_hardware_encode {
            before
        } else {
            match before {
                None => Some(upto - 1),
                Some(held) => if spec_preference(gpus[upto - 1]) >= spec_preference(gpus[held]) {
                    Some(upto - 1)
                } else {
                    Some(held)
                },
            }
        }
    }
}

/// The best GPU is one of the GPUs, it encodes in hardware, and none that
/// does is preferred more.
pub proof fn lemma_best_gpu(gpus: Seq<GpuInfo>, upto: int)
    requires
        0 <= upto <= gpus.len(),
    ensures
        spec_best_gpu(gpus, upto) matches Some(best) ==> 0 <= best < upto
            && gpus[best].supports_hardware_encode && forall|i: int|
            0 <= i < upto && (#[trigger] gpus[i]).supports_hardware_encode ==> spec_preference(
                gpus[i],
            ) <= spec_preference(gpus[best]),
        spec_best_gpu(gpus, upto) is None ==> forall|i: int|
            0 <= i < upto ==> !(#[trigger] gpus[i]).supports_hardware_encode,
    decreases upto,
{
    if upto > 0 {
        lemma_best_gpu(gpus, upto - 1);
    }
}

/// The GPUs of the platform and the one that is selected.
#[derive(Debug)]
pub struct GpuManager {
    gpus: Vec<GpuInfo>,
    selected_gpu: Option<usize>,
}

impl GpuManager {
    /// The GPUs that are managed.
    pub closed spec fn gpus(&self) -> Seq<GpuInfo> {
        self.gpus@
    }

    /// The position of the selected GPU.
    pub closed spec fn selected(&self) -> Option<usize> {
        self.selected_gpu
    }

    /// The selected GPU is one of the GPUs.
    pub open spec fn wf(&self) -> bool {
        self.selected() matches Some(at) ==> at < self.gpus().len()
    }

    /// A manager of the GPUs that were detected, none selected.
    pub fn new(detected: Vec<GpuInfo>) -> (made: Result<Self, PlatformError>)
        ensures
            made is Ok,
            made->Ok_0.gpus() == detected@,
            made->Ok_0.selected() is None,
            made->Ok_0.wf(),
    {
        Ok(GpuManager { gpus: detected, selected_gpu: None })
    }

    /// All GPUs.
    pub fn list_gpus(&self) -> (gpus: &[GpuInfo])
        ensures
            gpus@ == self.gpus(),
    {
        self.gpus.as_slice()
    }

    /// Selects the best GPU and returns its position.
    pub fn select_best_gpu(&mut self) -> (best: Option<usize>)
        ensures
            final(self).gpus() == old(self).gpus(),
            final(self).wf(),
            final(self).selected() == best,
            best == match spec_best_gpu(old(self).gpus(), old(self).gpus().len() as int) {
                Some(at) => Some(at as usize),
                None => None,
            },
    {
        let mut best: Option<usize> = None;
        let mut i: usize = 0;
        while i < self.gpus.len()
            invariant
                i <= self.gpus@.len(),
                self.gpus@ == old(self).gpus@,
                best == match spec_best_gpu(self.gpus@, i as int) {
                    Some(at) => Some(at as usize),
                    None => None,
                },
                best matches Some(at) ==> at < i,
            decreases self.gpus@.len() - i,
        {
            proof {
                lemma_best_gpu(self.gpus@, i as int);
            }
            if self.gpus[i].supports_hardware_encode {
                best = match best {
                    None => Some(i),
                    Some(held) => if preference(&self.gpus[i]) >= preference(&self.gpus[held]) {
                        Some(i)
                    } else {
                        Some(held)
                    },
                };
            }
            i += 1;
        }
        self.selected_gpu = best;
        best
    }

    /// The selected GPU, if one is selected.
    pub fn get_selected_gpu(&self) -> (gpu: Option<&GpuInfo>)
        requires
            self.wf(),
        ensures
            match self.selected() {
                Some(at) => gpu == Some(&self.gpus()[at as int]),
                None => gpu is None,
            },
    {
        match self.selected_gpu {
            Some(at) => Some(&self.gpus[at]),
            None => None,
        }
    }

    /// Whether the selected GPU has the GPU-native capture.
    pub fn supports_nvfbc(&self) -> (supported: bool)
        requires
            self.wf(),
        ensures
            supported <==> (self.selected() matches Some(at) && self.gpus()[at as int].supports_nvfbc),
    {
        match self.get_selected_gpu() {
            Some(gpu) => gpu.supports_nvfbc,
            None => false,
        }
    }

    /// Whether the selected GPU has the GPU-native encoder.
    pub fn supports_nvenc(&self) -> (supported: bool)
        requires
            self.wf(),
        ensures
            supported <==> (self.selected() matches Some(at) && self.gpus()[at as int].supports_nvenc),
    {
        match self.get_selected_gpu() {
            Some(gpu) => gpu.supports_nvenc,
            None => false,
        }
    }
}

impl Default for GpuManager {
    fn default() -> (manager: Self)
        ensures
            manager.gpus().len() == 0,
            manager.selected() is None,
    {
        GpuManager { gpus: Vec::new(), selected_gpu: None }
    }
}

/// What the drivers were found to offer.
#[derive(Debug, Clone, PartialEq, Eq)]
pub struct DriverManager {
    /// Whether the vendor's driver is loaded.
    pub nvidia_driver: bool,
    /// Version of the compute runtime, where it is there.
    pub cuda_version: Option<String>,
    /// Whether the capture library loads.
    pub nvfbc: bool,
    /// Whether the encoder library loads.
    pub nvenc: bool,
}

impl DriverManager {
    /// A manager that takes everything to be in place, with version 12.0
    /// of the compute runtime.
    pub fn new() -> (manager: Self)
        ensures
            manager.nvidia_driver,
            manager.nvfbc,
            manager.nvenc,
            manager.cuda_version is Some,
            manager.cuda_version->Some_0@ == "12.0"@,
    {
        DriverManager {
            nvidia_driver: true,
            cuda_version: Some("12.0".to_string()),
            nvfbc: true,
            nvenc: true,
        }
    }

    /// Whether the vendor's driver is loaded.
    pub fn check_nvidia_driver(&self) -> (checked: Result<(), PlatformError>)
        ensures
            checked is Ok <==> self.nvidia_driver,
            checked is Err ==> checked->Err_0 is DriverNotSupported,
    {
        if self.nvidia_driver {
            Ok(())
        } else {
            Err(PlatformError::DriverNotSupported("NVIDIA driver not loaded".to_string()))
        }
    }

    /// The version of the compute runtime.
    pub fn check_cuda(&self) -> (version: Result<String, PlatformError>)
        ensures
            version is Ok <==> self.cuda_version is Some,
            version is Ok ==> version->Ok_0@ == self.cuda_version->Some_0@,
            version is Err ==> version->Err_0 is DriverNotSupported,
    {
        match &self.cuda_version {
            Some(version) => Ok(version.clone()),
            None => Err(PlatformError::DriverNotSupported("CUDA runtime not found".to_string())),
        }
    }

    /// Whether the capture library loads.
    pub fn load_nvfbc(&self) -> (loaded: Result<(), PlatformError>)
        ensures
            loaded is Ok <==> self.nvfbc,
            loaded is Err ==> loaded->Err_0 is DriverNotSupported,
    {
        if self.nvfbc {
            Ok(())
        } else {
            Err(PlatformError::DriverNotSupported("NvFBC library not found".to_string()))
        }
    }

    /// Whether the encoder library loads.
    pub fn load_nvenc(&self) -> (loaded: Result<(), PlatformError>)
        ensures
            loaded is Ok <==> self.nvenc,
            loaded is Err ==> loaded->Err_0 is DriverNotSupported,
    {
        if self.nvenc {
            Ok(())
        } else {
            Err(PlatformError::DriverNotSupported("NVENC library not found".to_string()))
        }
    }
}

impl Default for DriverManager {
    fn default() -> (manager: Self)
        ensures
            manager.nvidia_driver,
            manager.nvfbc,
            manager.nvenc,
            manager.cuda_version is Some,
    {
        DriverManager::new()
    }
}

/// What a platform with the given operating system offers before its GPUs
/// are known.
pub fn get_platform_capabilities(os_type: OsType, cuda: bool) -> (caps: PlatformCapabilities)
    ensures
        caps.os_type == os_type,
        caps.gpus@.len() == 0,
        caps.supports_cuda == cuda,
        caps.supports_dxgi <==> os_type == OsType::Windows,
        caps.supports_dmabuf <==> os_type == OsType::Linux,
        caps.supports_screencapturekit <==> os_type == OsType::MacOS,
{
    PlatformCapabilities {
        os_type,
        gpus: Vec::new(),
        supports_cuda: cuda,
        supports_dxgi: match os_type {
            OsType::Windows => true,
            _ => false,
        },
        supports_dmabuf: match os_type {
            OsType::Linux => true,
            _ => false,
        },
        supports_screencapturekit: match os_type {
            OsType::MacOS => true,
            _ => false,
        },
    }
}

/// What the platform offers, with the GPUs that were detected.
pub fn initialize_platform(os_type: OsType, cuda: bool, detected: Vec<GpuInfo>) -> (caps: Result<
    PlatformCapabilities,
    PlatformError,
>)
    ensures
        caps is Ok,
        caps->Ok_0.os_type == os_type,
        caps->Ok_0.gpus@ == detected@,
        caps->Ok_0.supports_cuda == cuda,
        caps->Ok_0.supports_dxgi <==> os_type == OsType::Windows,
        caps->Ok_0.supports_dmabuf <==> os_type == OsType::Linux,
        caps->Ok_0.supports_screencapturekit <==> os_type == OsType::MacOS,
{
    let mut caps = get_platform_capabilities(os_type, cuda);
    caps.gpus = detected;
    Ok(caps)
}

/// A manager of the GPUs that were detected.
pub fn create_gpu_manager(detected: Vec<GpuInfo>) -> (made: Result<GpuManager, PlatformError>)
    ensures
        made is Ok,
        made->Ok_0.gpus() == detected@,
        made->Ok_0.selected() is None,
        made->Ok_0.wf(),
{
    GpuManager::new(detected)
}

/// A manager of the drivers.
pub fn create_driver_manager() -> (manager: DriverManager)
    ensures
        manager.nvidia_driver,
        manager.nvfbc,
        manager.nvenc,
        manager.cuda_version is Some,
{
    DriverManager::new()
}

} // verus!
