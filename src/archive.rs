use vstd::prelude::*;

use crate::backend::Backend;
use crate::platform::{TargetArch, TargetOs};

verus! {

/// What the first bytes of a file show it to be.
#[derive(Debug, Clone, Copy, PartialEq, Eq, Structural)]
pub enum ArchiveFamily {
    Zip,
    Gzip,
    Tar,
    Unknown,
}

/// The archive format a download is expected to have.
#[derive(Debug, Clone, Copy, PartialEq, Eq, Structural)]
pub enum ArchiveFormat {
    Zip,
    /// A gzip-compressed tar stream (a plain tar stream is accepted too).
    TarGz,
}

/// The offset of the ustar magic in a tar header.
pub const USTAR_OFFSET: usize = 257;

/// How many leading bytes of a file [`detect_archive_type`] looks at.
pub const SNIFF_LEN: usize = 262;

/// The magic bytes `ustar`.
pub open spec fn ustar_magic() -> Seq<u8> {
    seq![0x75u8, 0x73u8, 0x74u8, 0x61u8, 0x72u8]
}

/// The family that the leading bytes `buf` of a file reveal.
pub open spec fn sniff(buf: Seq<u8>) -> ArchiveFamily {
    if buf.len() >= 3 && buf[0] == 0x50u8 && buf[1] == 0x4Bu8 && buf[2] == 0x03u8 {
        ArchiveFamily::Zip
    } else if buf.len() >= 2 && buf[0] == 0x1Fu8 && buf[1] == 0x8Bu8 {
        ArchiveFamily::Gzip
    } else if buf.len() >= 262 && buf.subrange(257, 262) == ustar_magic() {
        ArchiveFamily::Tar
    } else {
        ArchiveFamily::Unknown
    }
}

/// Whether content of family `found` may be unpacked as `expected`.
pub open spec fn family_matches(expected: ArchiveFormat, found: ArchiveFamily) -> bool {
    match expected {
        ArchiveFormat::Zip => found == ArchiveFamily::Zip,
        ArchiveFormat::TarGz => found == ArchiveFamily::Gzip || found == ArchiveFamily::Tar,
    }
}

/// Whether `header` carries the ustar magic at [`USTAR_OFFSET`].
fn has_ustar_magic(header: &[u8]) -> (r: bool)
    ensures
        r == (header@.len() >= 262 && header@.subrange(257, 262) == ustar_magic()),
{
    if header.len() < SNIFF_LEN {
        return false;
    }
    let magic: [u8; 5] = [0x75u8, 0x73u8, 0x74u8, 0x61u8, 0x72u8];
    let mut k: usize = 0;
    while k < 5
        invariant
            header@.len() >= 262,
            magic@ == ustar_magic(),
            k <= 5,
            forall|i: int| 0 <= i < k ==> header@[257 + i] == ustar_magic()[i],
        decreases 5 - k,
    {
        if header[USTAR_OFFSET + k] != magic[k] {
            assert(header@.subrange(257, 262)[k as int] != ustar_magic()[k as int]);
            return false;
        }
        k += 1;
    }
    assert(header@.subrange(257, 262) =~= ustar_magic());
    true
}

/// Classifies a file by its leading bytes (at least [`SNIFF_LEN`] of them where the file
/// is that long): a ZIP local-file record, a gzip stream, or a ustar header.
pub fn detect_archive_type(header: &[u8]) -> (r: ArchiveFamily)
    ensures
        r == sniff(header@),
{
    let n = header.len();
    if n >= 3 && header[0] == 0x50u8 && header[1] == 0x4Bu8 && header[2] == 0x03u8 {
        return ArchiveFamily::Zip;
    }
    if n >= 2 && header[0] == 0x1Fu8 && header[1] == 0x8Bu8 {
        return ArchiveFamily::Gzip;
    }
    if has_ustar_magic(header) {
        return ArchiveFamily::Tar;
    }
    ArchiveFamily::Unknown
}

/// An error raised when a downloaded file is not the archive it should be.
#[derive(Debug, Clone, Copy, PartialEq, Eq, Structural)]
pub struct FormatMismatch {
    pub expected: ArchiveFormat,
    pub found: ArchiveFamily,
}

/// Sniffs `header` and accepts it only where it is of the `expected` format; anything
/// else, unrecognised content included, is refused rather than guessed at.
pub fn check_archive(expected: ArchiveFormat, header: &[u8]) -> (r: Result<ArchiveFamily, FormatMismatch>)
    ensures
        match r {
            Ok(f) => f == sniff(header@) && family_matches(expected, f),
            Err(e) => e.expected == expected && e.found == sniff(header@) && !family_matches(expected, e.found),
        },
{
    let found = detect_archive_type(header);
    let ok = match expected {
        ArchiveFormat::Zip => found == ArchiveFamily::Zip,
        ArchiveFormat::TarGz => found == ArchiveFamily::Gzip || found == ArchiveFamily::Tar,
    };
    if ok {
        Ok(found)
    } else {
        Err(FormatMismatch { expected, found })
    }
}

pub const LIBTORCH_WINDOWS_URL: &'static str =
    "https://download.pytorch.org/libtorch/cpu/libtorch-win-shared-with-deps-2.1.0%2Bcpu.zip";
pub const LIBTORCH_LINUX_URL: &'static str =
    "https://download.pytorch.org/libtorch/cpu/libtorch-cxx11-abi-shared-with-deps-2.1.0%2Bcpu.zip";
pub const LIBTORCH_MAC_ARM64_URL: &'static str =
    "https://download.pytorch.org/libtorch/cpu/libtorch-macos-arm64-2.9.0.zip";
pub const TENSORFLOW_WINDOWS_URL: &'static str =
    "https://storage.googleapis.com/tensorflow/libtensorflow/libtensorflow-cpu-windows-x86_64-2.10.0.zip";
pub const TENSORFLOW_LINUX_URL: &'static str =
    "https://storage.googleapis.com/tensorflow/libtensorflow/libtensorflow-cpu-linux-x86_64-2.10.0.tar.gz";
pub const TENSORFLOW_MAC_ARM64_URL: &'static str =
    "https://storage.googleapis.com/tensorflow/versions/2.18.0/libtensorflow-cpu-darwin-arm64.tar.gz";

/// Managed acquisition exists for every platform but macOS on a non-ARM architecture.
pub open spec fn download_supported(os: TargetOs, arch: TargetArch) -> bool {
    !(os == TargetOs::MacOs && arch != TargetArch::Arm64)
}

pub open spec fn job_url(kind: Backend, os: TargetOs) -> Seq<char> {
    match (kind, os) {
        (Backend::LibTorch, TargetOs::Windows) => LIBTORCH_WINDOWS_URL@,
        (Backend::LibTorch, TargetOs::MacOs) => LIBTORCH_MAC_ARM64_URL@,
        (Backend::LibTorch, TargetOs::Linux) => LIBTORCH_LINUX_URL@,
        (Backend::TensorFlow, TargetOs::Windows) => TENSORFLOW_WINDOWS_URL@,
        (Backend::TensorFlow, TargetOs::MacOs) => TENSORFLOW_MAC_ARM64_URL@,
        (Backend::TensorFlow, TargetOs::Linux) => TENSORFLOW_LINUX_URL@,
    }
}

pub open spec fn job_format(kind: Backend, os: TargetOs) -> ArchiveFormat {
    match (kind, os) {
        (Backend::TensorFlow, TargetOs::MacOs) => ArchiveFormat::TarGz,
        (Backend::TensorFlow, TargetOs::Linux) => ArchiveFormat::TarGz,
        _ => ArchiveFormat::Zip,
    }
}

pub open spec fn format_file_name(kind: Backend, format: ArchiveFormat) -> Seq<char> {
    match (kind, format) {
        (Backend::LibTorch, ArchiveFormat::Zip) => "libtorch.zip"@,
        (Backend::LibTorch, ArchiveFormat::TarGz) => "libtorch.tar.gz"@,
        (Backend::TensorFlow, ArchiveFormat::Zip) => "tensorflow.zip"@,
        (Backend::TensorFlow, ArchiveFormat::TarGz) => "tensorflow.tar.gz"@,
    }
}

/// A download target: where to fetch, what to expect, and how the payload is laid out.
#[derive(Debug, Clone, Copy)]
pub struct ArchiveJob {
    pub url: &'static str,
    pub format: ArchiveFormat,
    /// The file name the download is saved under.
    pub file_name: &'static str,
    /// The directory, one level below the extraction root, that holds the payload in
    /// archives that nest it.
    pub nested_dir: Option<&'static str>,
}

/// The archive that installs `kind` on the platform, or `None` where managed acquisition
/// is not offered there.
pub fn archive_job(kind: Backend, os: TargetOs, arch: TargetArch) -> (r: Option<ArchiveJob>)
    ensures
        r.is_some() == download_supported(os, arch),
        r matches Some(j) ==> {
            &&& j.url@ == job_url(kind, os)
            &&& j.format == job_format(kind, os)
            &&& j.file_name@ == format_file_name(kind, j.format)
            &&& match kind {
                Backend::LibTorch => j.nested_dir matches Some(d) && d@ == "libtorch"@,
                Backend::TensorFlow => j.nested_dir is None,
            }
        },
{
    if os == TargetOs::MacOs && arch != TargetArch::Arm64 {
        return None;
    }
    let job = match (kind, os) {
        (Backend::LibTorch, TargetOs::Windows) => ArchiveJob {
            url: LIBTORCH_WINDOWS_URL,
            format: ArchiveFormat::Zip,
            file_name: "libtorch.zip",
            nested_dir: Some("libtorch"),
        },
        (Backend::LibTorch, TargetOs::MacOs) => ArchiveJob {
            url: LIBTORCH_MAC_ARM64_URL,
            format: ArchiveFormat::Zip,
            file_name: "libtorch.zip",
            nested_dir: Some("libtorch"),
        },
        (Backend::LibTorch, TargetOs::Linux) => ArchiveJob {
            url: LIBTORCH_LINUX_URL,
            format: ArchiveFormat::Zip,
            file_name: "libtorch.zip",
            nested_dir: Some("libtorch"),
        },
        (Backend::TensorFlow, TargetOs::Windows) => ArchiveJob {
            url: TENSORFLOW_WINDOWS_URL,
            format: ArchiveFormat::Zip,
            file_name: "tensorflow.zip",
            nested_dir: None,
        },
        (Backend::TensorFlow, TargetOs::MacOs) => ArchiveJob {
            url: TENSORFLOW_MAC_ARM64_URL,
            format: ArchiveFormat::TarGz,
            file_name: "tensorflow.tar.gz",
            nested_dir: None,
        },
        (Backend::TensorFlow, TargetOs::Linux) => ArchiveJob {
            url: TENSORFLOW_LINUX_URL,
            format: ArchiveFormat::TarGz,
            file_name: "tensorflow.tar.gz",
            nested_dir: None,
        },
    };
    Some(job)
}

} // verus!
