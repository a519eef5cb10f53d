//! Where the guest kernel is cached and how its integrity is checked.

use vstd::prelude::*;
use crate::error::QckerError;
use crate::paths::{join, join_path, path_exists};
use crate::text::{owned, concat2, str_chars, chars_eq};
use crate::digest::{sha256, sha256_hex, hex_lower};

verus! {

/// The text of the error when no kernel is cached.
pub open spec fn kernel_missing_text() -> Seq<char> {
    "Kernel not found. Download from https://github.com/farhanturu/qcker/releases"@
}

/// Finds the guest kernel under a data directory.
pub struct KernelManager {
    data_dir: String,
    arch: String,
}

/// Where the kernel for `arch` lies under `data_dir`:
/// `<data_dir>/kernel/vmlinuz-<arch>`.
pub open spec fn kernel_path_spec(data_dir: Seq<char>, arch: Seq<char>) -> Seq<char> {
    join_path(join_path(data_dir, "kernel"@), "vmlinuz-"@ + arch)
}

/// The result of looking the kernel up at `path`: the path when something
/// exists there, else the error that tells where to download a kernel.
pub fn kernel_lookup(path: String, exists: bool) -> (r: Result<String, QckerError>)
    ensures
        exists ==> (r matches Ok(p) && p@ == path@),
        !exists ==> (r matches Err(QckerError::Internal(m)) && m@ == kernel_missing_text()),
{
    if exists {
        Ok(path)
    } else {
        Err(
            QckerError::Internal(
                owned("Kernel not found. Download from https://github.com/farhanturu/qcker/releases"),
            ),
        )
    }
}

impl KernelManager {
    /// The data directory this manager looks under.
    pub closed spec fn data_dir_view(&self) -> Seq<char> {
        self.data_dir@
    }

    /// The machine architecture whose kernel this manager looks for.
    pub closed spec fn arch_view(&self) -> Seq<char> {
        self.arch@
    }

    /// A manager for the kernel of machine architecture `arch` (as
    /// `std::env::consts::ARCH` names it) under `data_dir`.
    pub fn new(data_dir: String, arch: String) -> (r: Self)
        ensures
            r.data_dir_view() == data_dir@,
            r.arch_view() == arch@,
    {
        KernelManager { data_dir, arch }
    }

    /// `<data_dir>/kernel/vmlinuz-<arch>`.
    pub fn kernel_path(&self) -> (r: String)
        ensures
            r@ == kernel_path_spec(self.data_dir_view(), self.arch_view()),
    {
        let dir = join(self.data_dir.as_str(), "kernel");
        let name = concat2("vmlinuz-", self.arch.as_str());
        join(dir.as_str(), name.as_str())
    }

    /// Whether a kernel is cached; this depends on the file system.
    pub fn is_cached(&self) -> bool {
        let p = self.kernel_path();
        path_exists(p.as_str())
    }

    /// The cached kernel's path, or the error that tells where to download
    /// one when none is cached (which depends on the file system).
    pub fn get_or_download(&self) -> (r: Result<String, QckerError>)
        ensures
            r matches Ok(p) ==> p@ == kernel_path_spec(self.data_dir_view(), self.arch_view()),
            r matches Err(e) ==> (e matches QckerError::Internal(m) && m@ == kernel_missing_text()),
    {
        let path = self.kernel_path();
        let exists = path_exists(path.as_str());
        kernel_lookup(path, exists)
    }
}

/// Whether `data` has the SHA-256 digest whose lowercase hex text is
/// `expected`.
pub fn checksum_matches(data: &[u8], expected: &str) -> (r: bool)
    ensures
        r == (hex_lower(sha256(data@)) == expected@),
{
    let actual = sha256_hex(data);
    let a = str_chars(actual.as_str());
    let e = str_chars(expected);
    chars_eq(&a, &e)
}

} // verus!
