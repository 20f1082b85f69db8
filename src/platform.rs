use vstd::prelude::*;
use vstd::string::*;

use crate::backend::{Backend, backend_install_dir};
use crate::text::{concat_str, str_eq};

verus! {

/// The operating-system family the native libraries are built for.
#[derive(Debug, Clone, Copy, PartialEq, Eq, Structural)]
pub enum TargetOs {
    Windows,
    MacOs,
    /// Linux and the other Unix-like systems.
    Linux,
}

/// The architecture family, as far as acquisition cares.
#[derive(Debug, Clone, Copy, PartialEq, Eq, Structural)]
pub enum TargetArch {
    /// 64-bit ARM (`aarch64`, also spelled `arm64`).
    Arm64,
    Other,
}

pub open spec fn os_of_name(s: Seq<char>) -> TargetOs {
    if s == "windows"@ {
        TargetOs::Windows
    } else if s == "macos"@ {
        TargetOs::MacOs
    } else {
        TargetOs::Linux
    }
}

pub open spec fn arch_of_name(s: Seq<char>) -> TargetArch {
    if s == "aarch64"@ || s == "arm64"@ {
        TargetArch::Arm64
    } else {
        TargetArch::Other
    }
}

/// Extension of the files the linker is pointed at.
pub open spec fn link_ext(os: TargetOs) -> Seq<char> {
    match os {
        TargetOs::Windows => "lib"@,
        TargetOs::MacOs => "dylib"@,
        TargetOs::Linux => "so"@,
    }
}

/// Extension of the shared libraries loaded at run time.
pub open spec fn runtime_ext(os: TargetOs) -> Seq<char> {
    match os {
        TargetOs::Windows => "dll"@,
        TargetOs::MacOs => "dylib"@,
        TargetOs::Linux => "so"@,
    }
}

/// File name of the runtime shared library called `stem`.
pub open spec fn runtime_file_name(os: TargetOs, stem: Seq<char>) -> Seq<char> {
    match os {
        TargetOs::Windows => stem + "."@ + runtime_ext(os),
        _ => "lib"@ + stem + "."@ + runtime_ext(os),
    }
}

pub open spec fn is_separator(os: TargetOs, c: char) -> bool {
    c == '/' || (os == TargetOs::Windows && c == '\\')
}

/// `name` appended to `base` with one separator between them.
pub open spec fn path_join(os: TargetOs, base: Seq<char>, name: Seq<char>) -> Seq<char> {
    if base.len() == 0 || is_separator(os, base.last()) {
        base + name
    } else if os == TargetOs::Windows {
        base + "\\"@ + name
    } else {
        base + "/"@ + name
    }
}

/// The conventional system-wide prefix of a backend.
pub open spec fn system_prefix_of(kind: Backend, os: TargetOs, home: Option<Seq<char>>) -> Seq<char> {
    match os {
        TargetOs::Windows => "C:\\"@ + backend_install_dir(kind),
        _ => {
            let h = match home {
                Some(h) => h,
                None => "/tmp"@,
            };
            path_join(os, path_join(os, h, ".local"@), backend_install_dir(kind))
        },
    }
}

impl TargetOs {
    /// Reads a target-OS name such as `windows`, `macos` or `linux`.
    pub fn from_name(s: &str) -> (r: TargetOs)
        ensures
            r == os_of_name(s@),
    {
        if str_eq(s, "windows") {
            TargetOs::Windows
        } else if str_eq(s, "macos") {
            TargetOs::MacOs
        } else {
            TargetOs::Linux
        }
    }

    /// Extension of the libraries handed to the linker.
    pub fn link_extension(&self) -> (r: &'static str)
        ensures
            r@ == link_ext(*self),
    {
        match self {
            TargetOs::Windows => "lib",
            TargetOs::MacOs => "dylib",
            TargetOs::Linux => "so",
        }
    }

    /// Extension of the shared libraries loaded at run time.
    pub fn runtime_extension(&self) -> (r: &'static str)
        ensures
            r@ == runtime_ext(*self),
    {
        match self {
            TargetOs::Windows => "dll",
            TargetOs::MacOs => "dylib",
            TargetOs::Linux => "so",
        }
    }

    /// File name of the runtime library called `stem` (`torch` gives `libtorch.so` on Linux).
    pub fn runtime_library_file(&self, stem: &str) -> (r: String)
        ensures
            r@ == runtime_file_name(*self, stem@),
    {
        let with_dot = match self {
            TargetOs::Windows => concat_str(stem, "."),
            _ => concat_str("lib", stem).concat("."),
        };
        with_dot.concat(self.runtime_extension())
    }

    /// Joins `name` onto `base` as the platform's paths do.
    pub fn join(&self, base: &str, name: &str) -> (r: String)
        ensures
            r@ == path_join(*self, base@, name@),
    {
        let n = base.unicode_len();
        if n == 0 {
            return String::from_str(name);
        }
        let c = base.get_char(n - 1);
        if c == '/' || (*self == TargetOs::Windows && c == '\\') {
            concat_str(base, name)
        } else if *self == TargetOs::Windows {
            concat_str(base, "\\").concat(name)
        } else {
            concat_str(base, "/").concat(name)
        }
    }

    /// The system-wide prefix where `kind` is looked for and installed; `home` is the user's
    /// home directory where one is known.
    pub fn system_prefix(&self, kind: Backend, home: Option<&str>) -> (r: String)
        ensures
            r@ == system_prefix_of(kind, *self, match home {
                Some(h) => Some(h@),
                None => None,
            }),
    {
        match self {
            TargetOs::Windows => concat_str("C:\\", kind.install_dir_name()),
            _ => {
                let h = match home {
                    Some(h) => h,
                    None => "/tmp",
                };
                let local = self.join(h, ".local");
                self.join(local.as_str(), kind.install_dir_name())
            },
        }
    }
}

impl TargetArch {
    /// Reads a target-architecture name such as `aarch64` or `x86_64`.
    pub fn from_name(s: &str) -> (r: TargetArch)
        ensures
            r == arch_of_name(s@),
    {
        if str_eq(s, "aarch64") || str_eq(s, "arm64") {
            TargetArch::Arm64
        } else {
            TargetArch::Other
        }
    }
}

} // verus!
