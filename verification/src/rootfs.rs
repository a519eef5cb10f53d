//! Where the guest's initial root file system is cached.

use vstd::prelude::*;
use crate::error::QckerError;
use crate::paths::{join, join_path, path_exists};
use crate::text::owned;

verus! {

/// The text of the error when no rootfs is cached.
pub open spec fn rootfs_missing_text() -> Seq<char> {
    "Rootfs not found. Build with: cargo build --release --target x86_64-unknown-linux-musl"@
}

/// Where the rootfs lies under `data_dir`: `<data_dir>/kernel/initramfs.cpio.gz`.
pub open spec fn rootfs_path_spec(data_dir: Seq<char>) -> Seq<char> {
    join_path(join_path(data_dir, "kernel"@), "initramfs.cpio.gz"@)
}

/// Finds the guest rootfs under a data directory.
pub struct RootfsManager {
    data_dir: String,
}

/// The result of looking the rootfs up at `path`: the path when something
/// exists there, else the error that tells how to build one.
pub fn rootfs_lookup(path: String, exists: bool) -> (r: Result<String, QckerError>)
    ensures
        exists ==> (r matches Ok(p) && p@ == path@),
        !exists ==> (r matches Err(QckerError::Internal(m)) && m@ == rootfs_missing_text()),
{
    if exists {
        Ok(path)
    } else {
        Err(
            QckerError::Internal(
                owned(
                    "Rootfs not found. Build with: cargo build --release --target x86_64-unknown-linux-musl",
                ),
            ),
        )
    }
}

impl RootfsManager {
    /// The data directory this manager looks under.
    pub closed spec fn data_dir_view(&self) -> Seq<char> {
        self.data_dir@
    }

    /// A manager for the rootfs under `data_dir`.
    pub fn new(data_dir: String) -> (r: Self)
        ensures
            r.data_dir_view() == data_dir@,
    {
        RootfsManager { data_dir }
    }

    /// `<data_dir>/kernel/initramfs.cpio.gz`.
    pub fn rootfs_path(&self) -> (r: String)
        ensures
            r@ == rootfs_path_spec(self.data_dir_view()),
    {
        let dir = join(self.data_dir.as_str(), "kernel");
        join(dir.as_str(), "initramfs.cpio.gz")
    }

    /// Whether a rootfs is cached; this depends on the file system.
    pub fn is_cached(&self) -> bool {
        let p = self.rootfs_path();
        path_exists(p.as_str())
    }

    /// The cached rootfs's path, or the error that tells how to build one
    /// when none is cached (which depends on the file system).
    pub fn get_or_build(&self) -> (r: Result<String, QckerError>)
        ensures
            r matches Ok(p) ==> p@ == rootfs_path_spec(self.data_dir_view()),
            r matches Err(e) ==> (e matches QckerError::Internal(m) && m@ == rootfs_missing_text()),
    {
        let path = self.rootfs_path();
        let exists = path_exists(path.as_str());
        rootfs_lookup(path, exists)
    }
}

} // verus!
