use vstd::prelude::*;
use vstd::string::*;

use crate::backend::Backend;
use crate::link::{contains_name, views};
use crate::platform::{path_join, runtime_file_name, TargetOs};
use crate::text::{concat_str, contains_str, seq_contains};

verus! {

/// Which backends the build links.
#[derive(Debug, Clone, Copy, PartialEq, Eq, Structural)]
pub struct BackendSet {
    pub torch: bool,
    pub tensorflow: bool,
}

impl BackendSet {
    pub open spec fn has(&self, kind: Backend) -> bool {
        match kind {
            Backend::LibTorch => self.torch,
            Backend::TensorFlow => self.tensorflow,
        }
    }

    /// Whether `kind` is linked.
    pub fn contains(&self, kind: Backend) -> (r: bool)
        ensures
            r == self.has(kind),
    {
        match kind {
            Backend::LibTorch => self.torch,
            Backend::TensorFlow => self.tensorflow,
        }
    }
}

/// The texts in the native build tool's diagnostics that say it could not find `kind`.
pub open spec fn missing_signatures(kind: Backend) -> Seq<Seq<char>> {
    match kind {
        Backend::LibTorch => seq![],
        Backend::TensorFlow => seq!["TF_LIBRARY"@, "TensorFlow library"@, "TENSORFLOW_ROOT"@],
    }
}

/// The diagnostics `text` say that `kind` was not found.
pub open spec fn signals_missing(kind: Backend, text: Seq<char>) -> bool {
    exists|i: int| 0 <= i < missing_signatures(kind).len() && seq_contains(text, #[trigger] missing_signatures(kind)[i])
}

/// The recognised "dependency not found" texts of `kind`.
pub fn missing_dependency_signatures(kind: Backend) -> (r: Vec<&'static str>)
    ensures
        r@.len() == missing_signatures(kind).len(),
        forall|i: int| 0 <= i < r@.len() ==> r@[i]@ == missing_signatures(kind)[i],
{
    let mut r: Vec<&'static str> = Vec::new();
    match kind {
        Backend::LibTorch => {},
        Backend::TensorFlow => {
            r.push("TF_LIBRARY");
            r.push("TensorFlow library");
            r.push("TENSORFLOW_ROOT");
        },
    }
    r
}

/// Whether the diagnostics `text` hold one of the signatures of a missing `kind`.
pub fn mentions_missing_dependency(kind: Backend, text: &str) -> (r: bool)
    ensures
        r == signals_missing(kind, text@),
{
    let sigs = missing_dependency_signatures(kind);
    let mut i: usize = 0;
    while i < sigs.len()
        invariant
            sigs@.len() == missing_signatures(kind).len(),
            forall|k: int| 0 <= k < sigs@.len() ==> sigs@[k]@ == missing_signatures(kind)[k],
            i <= sigs@.len(),
            forall|k: int| 0 <= k < i ==> !seq_contains(text@, #[trigger] missing_signatures(kind)[k]),
        decreases sigs@.len() - i,
    {
        if contains_str(text, sigs[i]) {
            assert(seq_contains(text@, missing_signatures(kind)[i as int]));
            return true;
        }
        i += 1;
    }
    false
}

/// What follows a run of the native configure step.
#[derive(Debug, Clone, Copy, PartialEq, Eq, Structural)]
pub enum ConfigureAction {
    /// Configuration succeeded: run the build step.
    Build,
    /// Install this backend afresh, record it in the environment, and configure once more.
    Reacquire(Backend),
    /// Configuration failed for good.
    Abort,
}

/// The action after a configure run: on failure, the first run may recover once by
/// reinstalling a linked backend whose absence the diagnostics report (TensorFlow checked
/// first); a failure after that recovery is final.
pub open spec fn configure_action(first_run: bool, success: bool, stderr: Seq<char>, linked: BackendSet) -> ConfigureAction {
    if success {
        ConfigureAction::Build
    } else if first_run && linked.tensorflow && signals_missing(Backend::TensorFlow, stderr) {
        ConfigureAction::Reacquire(Backend::TensorFlow)
    } else if first_run && linked.torch && signals_missing(Backend::LibTorch, stderr) {
        ConfigureAction::Reacquire(Backend::LibTorch)
    } else {
        ConfigureAction::Abort
    }
}

/// Decides what follows a configure run that ended with `success` and diagnostics `stderr`.
pub fn after_configure(first_run: bool, success: bool, stderr: &str, linked: BackendSet) -> (r: ConfigureAction)
    ensures
        r == configure_action(first_run, success, stderr@, linked),
{
    if success {
        ConfigureAction::Build
    } else if first_run && linked.tensorflow && mentions_missing_dependency(Backend::TensorFlow, stderr) {
        ConfigureAction::Reacquire(Backend::TensorFlow)
    } else if first_run && linked.torch && mentions_missing_dependency(Backend::LibTorch, stderr) {
        ConfigureAction::Reacquire(Backend::LibTorch)
    } else {
        ConfigureAction::Abort
    }
}

/// Configuration recovers at most once: a failure of the run after a recovery aborts.
pub proof fn lemma_single_recovery(success: bool, stderr: Seq<char>, linked: BackendSet)
    ensures
        configure_action(false, success, stderr, linked) != ConfigureAction::Abort ==> success,
        configure_action(true, false, stderr, linked) matches ConfigureAction::Reacquire(k) ==> linked.has(k) && signals_missing(k, stderr),
{
}

/// The source tree of the glue library, relative to the package root.
pub const GLUE_SOURCE_DIR: &'static str = "cpp";

/// The build directory of the glue library, relative to the package root.
pub const GLUE_BUILD_DIR: &'static str = "cpp/build";

/// The name of the glue library the consuming program links.
pub const GLUE_LIBRARY: &'static str = "ai_copper";

/// The arguments of the native configure step.
pub open spec fn configure_args_spec(os: TargetOs, build_dir: Seq<char>, torch_prefix: Option<Seq<char>>) -> Seq<Seq<char>> {
    let base = seq!["-S"@, GLUE_SOURCE_DIR@, "-B"@, build_dir, "-DCMAKE_BUILD_TYPE=Release"@];
    let with_prefix = match torch_prefix {
        Some(p) => base.push("-DCMAKE_PREFIX_PATH="@ + p),
        None => base,
    };
    match os {
        TargetOs::Windows => with_prefix + seq!["-G"@, "Visual Studio 17 2022"@, "-A"@, "x64"@],
        _ => with_prefix + seq!["-G"@, "Unix Makefiles"@],
    }
}

/// The arguments of the native configure step; `torch_prefix` is LibTorch's prefix where
/// LibTorch is linked.
pub fn configure_args(os: TargetOs, build_dir: &str, torch_prefix: Option<&str>) -> (r: Vec<String>)
    ensures
        views(r@) == configure_args_spec(os, build_dir@, match torch_prefix {
            Some(p) => Some(p@),
            None => None,
        }),
{
    let mut r: Vec<String> = Vec::new();
    r.push(String::from_str("-S"));
    r.push(String::from_str(GLUE_SOURCE_DIR));
    r.push(String::from_str("-B"));
    r.push(String::from_str(build_dir));
    r.push(String::from_str("-DCMAKE_BUILD_TYPE=Release"));
    match torch_prefix {
        Some(p) => r.push(concat_str("-DCMAKE_PREFIX_PATH=", p)),
        None => {},
    }
    r.push(String::from_str("-G"));
    match os {
        TargetOs::Windows => {
            r.push(String::from_str("Visual Studio 17 2022"));
            r.push(String::from_str("-A"));
            r.push(String::from_str("x64"));
        },
        _ => {
            r.push(String::from_str("Unix Makefiles"));
        },
    }
    assert(views(r@) =~= configure_args_spec(os, build_dir@, match torch_prefix {
        Some(p) => Some(p@),
        None => None,
    }));
    r
}

/// The arguments of the native build step.
pub fn build_args(build_dir: &str) -> (r: Vec<String>)
    ensures
        views(r@) == seq!["--build"@, build_dir@, "--config"@, "Release"@],
{
    let mut r: Vec<String> = Vec::new();
    r.push(String::from_str("--build"));
    r.push(String::from_str(build_dir));
    r.push(String::from_str("--config"));
    r.push(String::from_str("Release"));
    assert(views(r@) =~= seq!["--build"@, build_dir@, "--config"@, "Release"@]);
    r
}

/// Where the native build puts the glue library: a nested release directory with the
/// Windows toolchain, the build directory itself elsewhere.
pub fn glue_output_dir(os: TargetOs, build_dir: &str) -> (r: String)
    ensures
        r@ == match os {
            TargetOs::Windows => path_join(os, path_join(os, build_dir@, "Release"@), "Release"@),
            _ => build_dir@,
        },
{
    match os {
        TargetOs::Windows => {
            let once = os.join(build_dir, "Release");
            os.join(once.as_str(), "Release")
        },
        _ => String::from_str(build_dir),
    }
}

/// The stems of the runtime libraries of `kind` that the program cannot start without.
pub open spec fn critical_stems(kind: Backend) -> Seq<Seq<char>> {
    match kind {
        Backend::LibTorch => seq!["torch"@, "torch_cpu"@, "c10"@],
        Backend::TensorFlow => seq!["tensorflow"@],
    }
}

/// The runtime files that must sit beside the program: the glue library first, then the
/// critical libraries of each linked backend.
pub open spec fn critical_runtime_files(os: TargetOs, linked: BackendSet) -> Seq<Seq<char>> {
    let glue = seq![runtime_file_name(os, GLUE_LIBRARY@)];
    let torch = if linked.torch {
        critical_stems(Backend::LibTorch).map_values(|s: Seq<char>| runtime_file_name(os, s))
    } else {
        seq![]
    };
    let tf = if linked.tensorflow {
        critical_stems(Backend::TensorFlow).map_values(|s: Seq<char>| runtime_file_name(os, s))
    } else {
        seq![]
    };
    glue + torch + tf
}

/// The file names of the runtime libraries the program needs at load time.
pub fn critical_runtime_libraries(os: TargetOs, linked: BackendSet) -> (r: Vec<String>)
    ensures
        views(r@) == critical_runtime_files(os, linked),
{
    let mut r: Vec<String> = Vec::new();
    r.push(os.runtime_library_file(GLUE_LIBRARY));
    if linked.torch {
        r.push(os.runtime_library_file("torch"));
        r.push(os.runtime_library_file("torch_cpu"));
        r.push(os.runtime_library_file("c10"));
    }
    if linked.tensorflow {
        r.push(os.runtime_library_file("tensorflow"));
    }
    assert(views(r@) =~= critical_runtime_files(os, linked));
    r
}

/// The entries of `expected` that are not in `present`, in order.
pub open spec fn missing_entries(present: Seq<Seq<char>>, expected: Seq<Seq<char>>) -> Seq<Seq<char>>
    decreases expected.len(),
{
    if expected.len() == 0 {
        seq![]
    } else {
        let prev = missing_entries(present, expected.drop_last());
        if present.contains(expected.last()) {
            prev
        } else {
            prev.push(expected.last())
        }
    }
}

/// The expected runtime files that the runtime directory, holding `present`, lacks.
pub fn missing_runtime_files(present: &Vec<String>, expected: &Vec<String>) -> (r: Vec<String>)
    ensures
        views(r@) == missing_entries(views(present@), views(expected@)),
{
    let mut out: Vec<String> = Vec::new();
    let mut i: usize = 0;
    assert(views(expected@).subrange(0, 0) =~= Seq::<Seq<char>>::empty());
    assert(views(out@) =~= Seq::<Seq<char>>::empty());
    while i < expected.len()
        invariant
            i <= expected@.len(),
            views(out@) == missing_entries(views(present@), views(expected@).subrange(0, i as int)),
        decreases expected@.len() - i,
    {
        let ghost e = views(expected@);
        assert(e.subrange(0, i + 1).drop_last() =~= e.subrange(0, i as int));
        assert(e.subrange(0, i + 1).last() == expected@[i as int]@);
        if !contains_name(present, expected[i].as_str()) {
            let ghost old_out = out@;
            out.push(expected[i].clone());
            assert(views(out@) =~= views(old_out).push(expected@[i as int]@));
        }
        i += 1;
    }
    assert(views(expected@).subrange(0, expected@.len() as int) =~= views(expected@));
    out
}

} // verus!
