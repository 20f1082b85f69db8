use ai_copper::env_config::{append_search_path, contains_entry, environment_plan, search_path_separator, EnvAction};
use ai_copper::install::{install_plan, payload_dir, InstallOp};
use ai_copper::orchestrate::{
    after_configure, build_args, configure_args, critical_runtime_libraries, glue_output_dir,
    mentions_missing_dependency, missing_dependency_signatures, missing_runtime_files, BackendSet, ConfigureAction,
};
use ai_copper::platform::TargetOs;
use ai_copper::text::{concat_str, contains_str, last_index_of_exec, starts_with_str, str_eq, substring};
use ai_copper::Backend;

fn strings(v: &[&str]) -> Vec<String> {
    v.iter().map(|s| s.to_string()).collect()
}

fn both() -> BackendSet {
    BackendSet { torch: true, tensorflow: true }
}

#[test]
fn text_helpers() {
    assert!(str_eq("abc", "abc"));
    assert!(!str_eq("abc", "abd"));
    assert!(!str_eq("abc", "ab"));
    assert!(contains_str("could not find TF_LIBRARY here", "TF_LIBRARY"));
    assert!(contains_str("abc", ""));
    assert!(!contains_str("ab", "abc"));
    assert!(starts_with_str("libtorch", "lib"));
    assert!(!starts_with_str("li", "lib"));
    assert_eq!(last_index_of_exec("a.b.c", '.'), Some(3));
    assert_eq!(last_index_of_exec("abc", '.'), None);
    assert_eq!(substring("libtorch", 3, 8), "torch");
    assert_eq!(concat_str("ab", "cd"), "abcd");
}

#[test]
fn missing_dependency_detection() {
    assert_eq!(missing_dependency_signatures(Backend::TensorFlow), vec!["TF_LIBRARY", "TensorFlow library", "TENSORFLOW_ROOT"]);
    assert!(missing_dependency_signatures(Backend::LibTorch).is_empty());
    assert!(mentions_missing_dependency(Backend::TensorFlow, "CMake Error: TF_LIBRARY-NOTFOUND"));
    assert!(mentions_missing_dependency(Backend::TensorFlow, "Could not find TensorFlow library"));
    assert!(mentions_missing_dependency(Backend::TensorFlow, "set TENSORFLOW_ROOT"));
    assert!(!mentions_missing_dependency(Backend::TensorFlow, "syntax error in CMakeLists.txt"));
    assert!(!mentions_missing_dependency(Backend::LibTorch, "TF_LIBRARY"));
}

#[test]
fn configure_recovers_once() {
    let stderr = "CMake Error: TF_LIBRARY not found";
    assert_eq!(after_configure(true, true, "", both()), ConfigureAction::Build);
    assert_eq!(after_configure(true, false, stderr, both()), ConfigureAction::Reacquire(Backend::TensorFlow));
    assert_eq!(after_configure(false, false, stderr, both()), ConfigureAction::Abort);
    assert_eq!(after_configure(false, true, stderr, both()), ConfigureAction::Build);
}

#[test]
fn configure_aborts_on_unrecognised_failure() {
    assert_eq!(after_configure(true, false, "compiler not found", both()), ConfigureAction::Abort);
    let torch_only = BackendSet { torch: true, tensorflow: false };
    assert_eq!(after_configure(true, false, "TF_LIBRARY", torch_only), ConfigureAction::Abort);
    assert!(torch_only.contains(Backend::LibTorch));
    assert!(!torch_only.contains(Backend::TensorFlow));
}

#[test]
fn configure_arguments() {
    assert_eq!(
        configure_args(TargetOs::Linux, "cpp/build", Some("/opt/torch")),
        strings(&[
            "-S",
            "cpp",
            "-B",
            "cpp/build",
            "-DCMAKE_BUILD_TYPE=Release",
            "-DCMAKE_PREFIX_PATH=/opt/torch",
            "-G",
            "Unix Makefiles"
        ])
    );
    assert_eq!(
        configure_args(TargetOs::Windows, "cpp/build", None),
        strings(&["-S", "cpp", "-B", "cpp/build", "-DCMAKE_BUILD_TYPE=Release", "-G", "Visual Studio 17 2022", "-A", "x64"])
    );
    assert_eq!(build_args("cpp/build"), strings(&["--build", "cpp/build", "--config", "Release"]));
}

#[test]
fn glue_library_output_directory() {
    assert_eq!(glue_output_dir(TargetOs::Windows, "C:\\p\\cpp\\build"), "C:\\p\\cpp\\build\\Release\\Release");
    assert_eq!(glue_output_dir(TargetOs::Linux, "/p/cpp/build"), "/p/cpp/build");
}

#[test]
fn critical_runtime_file_names() {
    assert_eq!(
        critical_runtime_libraries(TargetOs::Linux, both()),
        strings(&["libai_copper.so", "libtorch.so", "libtorch_cpu.so", "libc10.so", "libtensorflow.so"])
    );
    assert_eq!(
        critical_runtime_libraries(TargetOs::Windows, BackendSet { torch: true, tensorflow: false }),
        strings(&["ai_copper.dll", "torch.dll", "torch_cpu.dll", "c10.dll"])
    );
    assert_eq!(
        critical_runtime_libraries(TargetOs::MacOs, BackendSet { torch: false, tensorflow: true }),
        strings(&["libai_copper.dylib", "libtensorflow.dylib"])
    );
}

#[test]
fn missing_runtime_files_in_order() {
    let present = strings(&["libtorch.so", "other.txt"]);
    let expected = strings(&["libai_copper.so", "libtorch.so", "libc10.so"]);
    assert_eq!(missing_runtime_files(&present, &expected), strings(&["libai_copper.so", "libc10.so"]));
    assert!(missing_runtime_files(&expected, &expected).is_empty());
}

#[test]
fn search_path_append_is_idempotent() {
    let os = TargetOs::Windows;
    let once = append_search_path(os, "C:\\Windows;C:\\bin", "C:\\libtorch\\lib").unwrap();
    assert_eq!(once, "C:\\Windows;C:\\bin;C:\\libtorch\\lib");
    assert_eq!(append_search_path(os, &once, "C:\\libtorch\\lib"), None);
    assert_eq!(append_search_path(TargetOs::Linux, "", "/opt/lib"), Some("/opt/lib".to_string()));
    assert_eq!(append_search_path(TargetOs::Linux, "/usr/bin:/bin", "/bin"), None);
    assert_eq!(append_search_path(TargetOs::Linux, "/usr/bin:/bin2", "/bin"), Some("/usr/bin:/bin2:/bin".to_string()));
}

#[test]
fn search_path_entries_are_whole() {
    assert_eq!(search_path_separator(TargetOs::Windows), ';');
    assert_eq!(search_path_separator(TargetOs::MacOs), ':');
    assert!(contains_entry("a;b;c", "b", ';'));
    assert!(contains_entry("a;b;c", "a", ';'));
    assert!(contains_entry("a;b;c", "c", ';'));
    assert!(!contains_entry("a;bb;c", "b", ';'));
    assert!(!contains_entry("", "b", ';'));
}

#[test]
fn environment_plans() {
    assert_eq!(
        environment_plan(Backend::LibTorch, TargetOs::Windows, "C:\\libtorch"),
        vec![
            EnvAction::PersistVariable { name: "LIBTORCH".to_string(), value: "C:\\libtorch".to_string() },
            EnvAction::AppendToSearchPath("C:\\libtorch\\lib".to_string()),
            EnvAction::AppendToSearchPath("C:\\libtorch\\bin".to_string()),
        ]
    );
    assert_eq!(
        environment_plan(Backend::TensorFlow, TargetOs::Linux, "/home/u/.local/libtensorflow"),
        vec![EnvAction::SuggestExport {
            name: "TENSORFLOW_ROOT".to_string(),
            value: "/home/u/.local/libtensorflow".to_string()
        }]
    );
}

#[test]
fn installation_replaces_existing_prefix() {
    assert_eq!(
        install_plan("/tmp/x/libtorch", "/home/u/.local/libtorch", true),
        vec![
            InstallOp::RemoveTree("/home/u/.local/libtorch".to_string()),
            InstallOp::MoveTree { from: "/tmp/x/libtorch".to_string(), to: "/home/u/.local/libtorch".to_string() },
        ]
    );
}

#[test]
fn installation_unwraps_nested_payload() {
    assert_eq!(payload_dir(TargetOs::Linux, "/tmp/x", Some("libtorch"), true), "/tmp/x/libtorch");
    assert_eq!(payload_dir(TargetOs::Linux, "/tmp/x", Some("libtorch"), false), "/tmp/x");
    assert_eq!(payload_dir(TargetOs::Windows, "C:\\t\\x", Some("libtorch"), true), "C:\\t\\x\\libtorch");
    assert_eq!(payload_dir(TargetOs::Linux, "/tmp/x", None, true), "/tmp/x");
}
