use ai_copper::platform::TargetOs;
use ai_copper::validator::{is_listed, is_valid_prefix, probe_paths};
use ai_copper::Backend;

fn listing(paths: &[&str]) -> Vec<String> {
    paths.iter().map(|p| p.to_string()).collect()
}

#[test]
fn probe_paths_put_the_marker_first() {
    assert_eq!(
        probe_paths(Backend::LibTorch, TargetOs::Linux),
        vec!["share/cmake/Torch/TorchConfig.cmake", "lib/libtorch.so", "lib/libtorch.a"]
    );
    assert_eq!(
        probe_paths(Backend::TensorFlow, TargetOs::Windows),
        vec!["include/tensorflow/c/c_api.h", "lib/tensorflow.dll", "lib/tensorflow.lib"]
    );
    assert_eq!(
        probe_paths(Backend::TensorFlow, TargetOs::MacOs),
        vec!["include/tensorflow/c/c_api.h", "lib/libtensorflow.dylib"]
    );
}

#[test]
fn empty_or_absent_directory_is_invalid() {
    for os in [TargetOs::Windows, TargetOs::MacOs, TargetOs::Linux] {
        assert!(!is_valid_prefix(Backend::LibTorch, os, &Vec::new()));
        assert!(!is_valid_prefix(Backend::TensorFlow, os, &Vec::new()));
    }
}

#[test]
fn libtorch_descriptor_alone_is_valid() {
    let present = listing(&["share/cmake/Torch/TorchConfig.cmake"]);
    assert!(is_valid_prefix(Backend::LibTorch, TargetOs::Linux, &present));
    assert!(is_valid_prefix(Backend::LibTorch, TargetOs::Windows, &present));
}

#[test]
fn libtorch_library_alone_is_valid() {
    assert!(is_valid_prefix(Backend::LibTorch, TargetOs::Linux, &listing(&["lib/libtorch.so"])));
    assert!(is_valid_prefix(Backend::LibTorch, TargetOs::Linux, &listing(&["lib/libtorch.a"])));
    assert!(is_valid_prefix(Backend::LibTorch, TargetOs::Windows, &listing(&["lib/torch.dll"])));
    assert!(is_valid_prefix(Backend::LibTorch, TargetOs::MacOs, &listing(&["lib/libtorch.dylib"])));
}

#[test]
fn libtorch_other_platform_library_is_invalid() {
    assert!(!is_valid_prefix(Backend::LibTorch, TargetOs::Linux, &listing(&["lib/torch.dll"])));
    assert!(!is_valid_prefix(Backend::LibTorch, TargetOs::Linux, &listing(&["include/torch/torch.h"])));
}

#[test]
fn tensorflow_needs_header_and_library() {
    let both = listing(&["include/tensorflow/c/c_api.h", "lib/libtensorflow.so"]);
    assert!(is_valid_prefix(Backend::TensorFlow, TargetOs::Linux, &both));
    let header_only = listing(&["include/tensorflow/c/c_api.h"]);
    assert!(!is_valid_prefix(Backend::TensorFlow, TargetOs::Linux, &header_only));
    let library_only = listing(&["lib/libtensorflow.so"]);
    assert!(!is_valid_prefix(Backend::TensorFlow, TargetOs::Linux, &library_only));
    let windows = listing(&["lib/tensorflow.lib", "include/tensorflow/c/c_api.h"]);
    assert!(is_valid_prefix(Backend::TensorFlow, TargetOs::Windows, &windows));
}

#[test]
fn listed_paths_are_matched_exactly() {
    let present = listing(&["lib/libtorch.so", "lib"]);
    assert!(is_listed(&present, "lib/libtorch.so"));
    assert!(is_listed(&present, "lib"));
    assert!(!is_listed(&present, "lib/libtorch.s"));
    assert!(!is_listed(&present, ""));
}
