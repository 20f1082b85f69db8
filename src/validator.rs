use vstd::prelude::*;

use crate::backend::Backend;
use crate::platform::TargetOs;
use crate::text::str_eq;

verus! {

/// The package descriptor whose presence marks a complete LibTorch installation.
pub open spec fn torch_descriptor() -> Seq<char> {
    "share/cmake/Torch/TorchConfig.cmake"@
}

/// The header that a TensorFlow installation must hold.
pub open spec fn tensorflow_header() -> Seq<char> {
    "include/tensorflow/c/c_api.h"@
}

/// The library files under `lib/`, one of which a valid prefix holds.
pub open spec fn library_files(kind: Backend, os: TargetOs) -> Seq<Seq<char>> {
    match (kind, os) {
        (Backend::LibTorch, TargetOs::Windows) => seq!["lib/torch.lib"@, "lib/torch.dll"@],
        (Backend::LibTorch, TargetOs::MacOs) => seq!["lib/libtorch.dylib"@, "lib/libtorch.a"@],
        (Backend::LibTorch, TargetOs::Linux) => seq!["lib/libtorch.so"@, "lib/libtorch.a"@],
        (Backend::TensorFlow, TargetOs::Windows) => seq!["lib/tensorflow.dll"@, "lib/tensorflow.lib"@],
        (Backend::TensorFlow, TargetOs::MacOs) => seq!["lib/libtensorflow.dylib"@],
        (Backend::TensorFlow, TargetOs::Linux) => seq!["lib/libtensorflow.so"@],
    }
}

/// The marker file other than the libraries: the descriptor or the header.
pub open spec fn marker_file(kind: Backend) -> Seq<char> {
    match kind {
        Backend::LibTorch => torch_descriptor(),
        Backend::TensorFlow => tensorflow_header(),
    }
}

/// Every file whose presence the validator asks about, the marker first.
pub open spec fn probe_files(kind: Backend, os: TargetOs) -> Seq<Seq<char>> {
    seq![marker_file(kind)] + library_files(kind, os)
}

/// `f` is one of the relative paths in `present`.
pub open spec fn listed(present: Seq<String>, f: Seq<char>) -> bool {
    exists|i: int| 0 <= i < present.len() && present[i]@ == f
}

/// Some library file of the backend is present.
pub open spec fn has_library(kind: Backend, os: TargetOs, present: Seq<String>) -> bool {
    exists|j: int| 0 <= j < library_files(kind, os).len() && listed(present, library_files(kind, os)[j])
}

/// A prefix whose existing files (relative paths) are `present` is a usable installation:
/// LibTorch needs its descriptor or else a library; TensorFlow needs its header and a library.
pub open spec fn prefix_valid(kind: Backend, os: TargetOs, present: Seq<String>) -> bool {
    match kind {
        Backend::LibTorch => listed(present, torch_descriptor()) || has_library(kind, os, present),
        Backend::TensorFlow => listed(present, tensorflow_header()) && has_library(kind, os, present),
    }
}

/// The relative paths the validator needs to know about, the marker file first.
pub fn probe_paths(kind: Backend, os: TargetOs) -> (r: Vec<&'static str>)
    ensures
        r@.len() == probe_files(kind, os).len(),
        forall|i: int| 0 <= i < r@.len() ==> r@[i]@ == probe_files(kind, os)[i],
{
    let mut r: Vec<&'static str> = Vec::new();
    match kind {
        Backend::LibTorch => r.push("share/cmake/Torch/TorchConfig.cmake"),
        Backend::TensorFlow => r.push("include/tensorflow/c/c_api.h"),
    }
    match (kind, os) {
        (Backend::LibTorch, TargetOs::Windows) => {
            r.push("lib/torch.lib");
            r.push("lib/torch.dll");
        },
        (Backend::LibTorch, TargetOs::MacOs) => {
            r.push("lib/libtorch.dylib");
            r.push("lib/libtorch.a");
        },
        (Backend::LibTorch, TargetOs::Linux) => {
            r.push("lib/libtorch.so");
            r.push("lib/libtorch.a");
        },
        (Backend::TensorFlow, TargetOs::Windows) => {
            r.push("lib/tensorflow.dll");
            r.push("lib/tensorflow.lib");
        },
        (Backend::TensorFlow, TargetOs::MacOs) => {
            r.push("lib/libtensorflow.dylib");
        },
        (Backend::TensorFlow, TargetOs::Linux) => {
            r.push("lib/libtensorflow.so");
        },
    }
    r
}

/// Whether `f` is among the paths in `present`.
pub fn is_listed(present: &Vec<String>, f: &str) -> (r: bool)
    ensures
        r == listed(present@, f@),
{
    let mut i: usize = 0;
    while i < present.len()
        invariant
            i <= present@.len(),
            forall|k: int| 0 <= k < i ==> present@[k]@ != f@,
        decreases present@.len() - i,
    {
        if str_eq(present[i].as_str(), f) {
            return true;
        }
        i += 1;
    }
    false
}

/// Decides whether a directory is a complete installation of `kind`, given the relative
/// paths among [`probe_paths`] that exist under it (none where the directory is absent).
pub fn is_valid_prefix(kind: Backend, os: TargetOs, present: &Vec<String>) -> (r: bool)
    ensures
        r == prefix_valid(kind, os, present@),
{
    let probes = probe_paths(kind, os);
    let marker = is_listed(present, probes[0]);
    assert(probe_files(kind, os)[0] == marker_file(kind));
    let mut lib = false;
    let mut j: usize = 1;
    while j < probes.len()
        invariant
            probes@.len() == probe_files(kind, os).len(),
            forall|i: int| 0 <= i < probes@.len() ==> probes@[i]@ == probe_files(kind, os)[i],
            1 <= j <= probes@.len(),
            lib == exists|k: int| 1 <= k < j && listed(present@, probe_files(kind, os)[k]),
        decreases probes@.len() - j,
    {
        let found = is_listed(present, probes[j]);
        proof {
            if !found {
                assert forall|k: int| 1 <= k < j + 1 && listed(present@, probe_files(kind, os)[k]) implies k < j by {}
            } else {
                assert(listed(present@, probe_files(kind, os)[j as int]));
            }
        }
        if found {
            lib = true;
        }
        j += 1;
    }
    assert(lib == has_library(kind, os, present@)) by {
        let libs = library_files(kind, os);
        if lib {
            let k = choose|k: int| 1 <= k < j && listed(present@, probe_files(kind, os)[k]);
            assert(listed(present@, libs[k - 1]));
        }
        if has_library(kind, os, present@) {
            let k = choose|k: int| 0 <= k < libs.len() && listed(present@, libs[k]);
            assert(probe_files(kind, os)[k + 1] == libs[k]);
        }
    }
    match kind {
        Backend::LibTorch => marker || lib,
        Backend::TensorFlow => marker && lib,
    }
}

/// A directory holding none of a backend's marker or library files is never a valid prefix;
/// nor is a TensorFlow directory with headers but no library, or a library but no headers.
pub proof fn lemma_missing_files_invalid(kind: Backend, os: TargetOs, present: Seq<String>)
    ensures
        (forall|i: int| 0 <= i < probe_files(kind, os).len() ==> !listed(present, #[trigger] probe_files(kind, os)[i]))
            ==> !prefix_valid(kind, os, present),
        kind == Backend::TensorFlow && !listed(present, tensorflow_header()) ==> !prefix_valid(kind, os, present),
        kind == Backend::TensorFlow && !has_library(kind, os, present) ==> !prefix_valid(kind, os, present),
{
    if forall|i: int| 0 <= i < probe_files(kind, os).len() ==> !listed(present, #[trigger] probe_files(kind, os)[i]) {
        assert(probe_files(kind, os)[0] == marker_file(kind));
        assert forall|j: int| 0 <= j < library_files(kind, os).len() implies !listed(present, library_files(kind, os)[j]) by {
            assert(probe_files(kind, os)[j + 1] == library_files(kind, os)[j]);
        }
    }
}

/// A directory holding the required files is a valid prefix: for LibTorch the descriptor
/// alone, or any one library alone; for TensorFlow the header together with a library.
pub proof fn lemma_required_files_valid(kind: Backend, os: TargetOs, present: Seq<String>, j: int)
    requires
        0 <= j < library_files(kind, os).len(),
    ensures
        kind == Backend::LibTorch && listed(present, torch_descriptor()) ==> prefix_valid(kind, os, present),
        kind == Backend::LibTorch && listed(present, library_files(kind, os)[j]) ==> prefix_valid(kind, os, present),
        kind == Backend::TensorFlow && listed(present, tensorflow_header()) && listed(present, library_files(kind, os)[j])
            ==> prefix_valid(kind, os, present),
{
}

} // verus!
