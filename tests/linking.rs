use ai_copper::link::{contains_name, import_library_aliases, library_link_names, link_name};
use ai_copper::platform::TargetOs;

fn names(files: &[&str]) -> Vec<String> {
    files.iter().map(|f| f.to_string()).collect()
}

#[test]
fn link_name_strips_lib_prefix() {
    assert_eq!(link_name("libtorch.so", "so"), Some("torch".to_string()));
    assert_eq!(link_name("torch.lib", "lib"), Some("torch".to_string()));
    assert_eq!(link_name("libc10.dylib", "dylib"), Some("c10".to_string()));
    assert_eq!(link_name("lib.so", "so"), Some("lib".to_string()));
    assert_eq!(link_name("libx.so", "so"), Some("x".to_string()));
}

#[test]
fn link_name_needs_the_extension() {
    assert_eq!(link_name("libtorch.so.1", "so"), None);
    assert_eq!(link_name("libtorch.a", "so"), None);
    assert_eq!(link_name(".so", "so"), None);
    assert_eq!(link_name("libtorch", "so"), None);
    assert_eq!(link_name("a.b.so", "so"), Some("a.b".to_string()));
}

#[test]
fn link_names_deduplicate_stems() {
    let files = names(&["libc10.so", "c10.so", "libtorch.so", "libtorch_cpu.so", "libtorch.so.2", "torch.so"]);
    assert_eq!(library_link_names(&files, "so"), names(&["c10", "torch", "torch_cpu"]));
}

#[test]
fn link_names_of_windows_import_libraries() {
    let files = names(&["torch.lib", "torch.dll", "c10.lib", "libprotobuf.lib", "protobuf.lib"]);
    assert_eq!(library_link_names(&files, "lib"), names(&["torch", "c10", "protobuf"]));
}

#[test]
fn link_names_of_empty_directory() {
    assert!(library_link_names(&Vec::new(), "so").is_empty());
}

#[test]
fn contains_name_is_exact() {
    let v = names(&["torch", "c10"]);
    assert!(contains_name(&v, "c10"));
    assert!(!contains_name(&v, "c1"));
    assert!(!contains_name(&Vec::new(), "c10"));
}

#[test]
fn import_aliases_only_on_windows() {
    let aliases = import_library_aliases(TargetOs::Windows);
    assert_eq!(aliases.len(), 4);
    assert_eq!(aliases[0], ("libprotobuf.lib", "protobuf.lib"));
    assert_eq!(aliases[3], ("libprotobuf-lite.lib", "protobuf-lite.lib"));
    assert!(import_library_aliases(TargetOs::Linux).is_empty());
    assert!(import_library_aliases(TargetOs::MacOs).is_empty());
}
