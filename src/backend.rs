use vstd::prelude::*;

verus! {

/// The native runtime a tensor or a build step is bound to.
#[derive(Debug, Clone, Copy, PartialEq, Eq, Structural)]
pub enum Backend {
    /// LibTorch (the PyTorch C++ distribution).
    LibTorch,
    /// The TensorFlow C API.
    TensorFlow,
}

/// The display name of a backend.
pub open spec fn backend_name(b: Backend) -> Seq<char> {
    match b {
        Backend::LibTorch => "LibTorch"@,
        Backend::TensorFlow => "TensorFlow"@,
    }
}

/// The environment variable that names an explicit installation of a backend.
pub open spec fn backend_root_var(b: Backend) -> Seq<char> {
    match b {
        Backend::LibTorch => "LIBTORCH"@,
        Backend::TensorFlow => "TENSORFLOW_ROOT"@,
    }
}

/// The directory name a managed installation of a backend gets.
pub open spec fn backend_install_dir(b: Backend) -> Seq<char> {
    match b {
        Backend::LibTorch => "libtorch"@,
        Backend::TensorFlow => "libtensorflow"@,
    }
}

/// The repository-local vendor path of a backend.
pub open spec fn backend_vendor_path(b: Backend) -> Seq<char> {
    match b {
        Backend::LibTorch => "deps/libtorch"@,
        Backend::TensorFlow => "deps/libtensorflow"@,
    }
}

impl Default for Backend {
    fn default() -> (r: Backend)
        ensures
            r == Backend::LibTorch,
    {
        Backend::LibTorch
    }
}

impl Backend {
    /// The backend's display name.
    pub fn name(&self) -> (r: &'static str)
        ensures
            r@ == backend_name(*self),
    {
        match self {
            Backend::LibTorch => "LibTorch",
            Backend::TensorFlow => "TensorFlow",
        }
    }

    /// Whether the backend can be used; both are linked into every build.
    pub fn is_available(&self) -> (r: bool)
        ensures
            r,
    {
        match self {
            Backend::LibTorch => true,
            Backend::TensorFlow => true,
        }
    }

    /// The environment variable that holds an explicit installation prefix.
    pub fn root_var(&self) -> (r: &'static str)
        ensures
            r@ == backend_root_var(*self),
    {
        match self {
            Backend::LibTorch => "LIBTORCH",
            Backend::TensorFlow => "TENSORFLOW_ROOT",
        }
    }

    /// The directory name of a managed installation.
    pub fn install_dir_name(&self) -> (r: &'static str)
        ensures
            r@ == backend_install_dir(*self),
    {
        match self {
            Backend::LibTorch => "libtorch",
            Backend::TensorFlow => "libtensorflow",
        }
    }

    /// The repository-local vendor path, relative to the package root.
    pub fn vendor_path(&self) -> (r: &'static str)
        ensures
            r@ == backend_vendor_path(*self),
    {
        match self {
            Backend::LibTorch => "deps/libtorch",
            Backend::TensorFlow => "deps/libtensorflow",
        }
    }
}

/// Where a tensor's computation runs.
#[derive(Debug, Clone, Copy, PartialEq, Eq, Structural)]
pub enum Device {
    CPU,
    CUDA,
    ROCm,
    TPU,
}

/// The short lower-case name of a device.
pub open spec fn device_name(d: Device) -> Seq<char> {
    match d {
        Device::CPU => "cpu"@,
        Device::CUDA => "cuda"@,
        Device::ROCm => "rocm"@,
        Device::TPU => "tpu"@,
    }
}

impl Default for Device {
    fn default() -> (r: Device)
        ensures
            r == Device::CPU,
    {
        Device::CPU
    }
}

impl Device {
    /// Whether the device can run computations: only the CPU is supported.
    pub fn is_available(&self) -> (r: bool)
        ensures
            r == (*self == Device::CPU),
    {
        match self {
            Device::CPU => true,
            Device::CUDA => false,
            Device::ROCm => false,
            Device::TPU => false,
        }
    }

    /// The device's short lower-case name.
    pub fn as_str(&self) -> (r: &'static str)
        ensures
            r@ == device_name(*self),
    {
        match self {
            Device::CPU => "cpu",
            Device::CUDA => "cuda",
            Device::ROCm => "rocm",
            Device::TPU => "tpu",
        }
    }
}

} // verus!
