use ai_copper::platform::{TargetArch, TargetOs};
use ai_copper::{Backend, Device};

#[test]
fn backend_names() {
    assert_eq!(Backend::LibTorch.name(), "LibTorch");
    assert_eq!(Backend::TensorFlow.name(), "TensorFlow");
}

#[test]
fn backends_are_available() {
    assert!(Backend::LibTorch.is_available());
    assert!(Backend::TensorFlow.is_available());
}

#[test]
fn backend_default_is_libtorch() {
    assert_eq!(Backend::default(), Backend::LibTorch);
}

#[test]
fn backend_tables() {
    assert_eq!(Backend::LibTorch.root_var(), "LIBTORCH");
    assert_eq!(Backend::TensorFlow.root_var(), "TENSORFLOW_ROOT");
    assert_eq!(Backend::LibTorch.install_dir_name(), "libtorch");
    assert_eq!(Backend::TensorFlow.install_dir_name(), "libtensorflow");
    assert_eq!(Backend::LibTorch.vendor_path(), "deps/libtorch");
    assert_eq!(Backend::TensorFlow.vendor_path(), "deps/libtensorflow");
}

#[test]
fn device_names_and_availability() {
    assert_eq!(Device::CPU.as_str(), "cpu");
    assert_eq!(Device::CUDA.as_str(), "cuda");
    assert_eq!(Device::ROCm.as_str(), "rocm");
    assert_eq!(Device::TPU.as_str(), "tpu");
    assert!(Device::CPU.is_available());
    assert!(!Device::CUDA.is_available());
    assert!(!Device::ROCm.is_available());
    assert!(!Device::TPU.is_available());
    assert_eq!(Device::default(), Device::CPU);
}

#[test]
fn os_and_arch_names() {
    assert_eq!(TargetOs::from_name("windows"), TargetOs::Windows);
    assert_eq!(TargetOs::from_name("macos"), TargetOs::MacOs);
    assert_eq!(TargetOs::from_name("linux"), TargetOs::Linux);
    assert_eq!(TargetOs::from_name("freebsd"), TargetOs::Linux);
    assert_eq!(TargetArch::from_name("aarch64"), TargetArch::Arm64);
    assert_eq!(TargetArch::from_name("arm64"), TargetArch::Arm64);
    assert_eq!(TargetArch::from_name("x86_64"), TargetArch::Other);
    assert_eq!(TargetArch::from_name(""), TargetArch::Other);
}

#[test]
fn library_extensions() {
    assert_eq!(TargetOs::Windows.link_extension(), "lib");
    assert_eq!(TargetOs::MacOs.link_extension(), "dylib");
    assert_eq!(TargetOs::Linux.link_extension(), "so");
    assert_eq!(TargetOs::Windows.runtime_extension(), "dll");
}

#[test]
fn runtime_library_file_names() {
    assert_eq!(TargetOs::Linux.runtime_library_file("torch"), "libtorch.so");
    assert_eq!(TargetOs::MacOs.runtime_library_file("c10"), "libc10.dylib");
    assert_eq!(TargetOs::Windows.runtime_library_file("tensorflow"), "tensorflow.dll");
}

#[test]
fn path_joining() {
    assert_eq!(TargetOs::Linux.join("/home/u", ".local"), "/home/u/.local");
    assert_eq!(TargetOs::Linux.join("/home/u/", ".local"), "/home/u/.local");
    assert_eq!(TargetOs::Linux.join("", "lib"), "lib");
    assert_eq!(TargetOs::Windows.join("C:\\libtorch", "lib"), "C:\\libtorch\\lib");
    assert_eq!(TargetOs::Windows.join("C:\\", "libtorch"), "C:\\libtorch");
}

#[test]
fn system_prefixes() {
    assert_eq!(TargetOs::Windows.system_prefix(Backend::LibTorch, None), "C:\\libtorch");
    assert_eq!(TargetOs::Windows.system_prefix(Backend::TensorFlow, Some("C:\\Users\\u")), "C:\\libtensorflow");
    assert_eq!(TargetOs::Linux.system_prefix(Backend::LibTorch, Some("/home/u")), "/home/u/.local/libtorch");
    assert_eq!(TargetOs::MacOs.system_prefix(Backend::TensorFlow, None), "/tmp/.local/libtensorflow");
}
