//! Where a backend keeps its state and how large a virtual machine it
//! starts.

use vstd::prelude::*;
use crate::paths::{join, join_path};
use crate::text::owned;

verus! {

/// Settings of a runtime backend.
#[derive(Debug, Clone)]
pub struct BackendConfig {
    pub kernel_path: Option<String>,
    pub rootfs_path: Option<String>,
    pub vcpu_count: u32,
    pub memory_mb: u32,
    pub use_acceleration: bool,
    pub idle_timeout_secs: u64,
    pub kernel_cmdline_extra: Vec<String>,
    /// The directory under which every other directory lies.
    pub data_dir: String,
}

/// The user's data directory (`dirs::data_dir`), as text. It depends on the
/// platform and the environment of the process, so nothing is stated of it.
#[verifier::external_body]
fn user_data_dir() -> Option<String> {
    dirs::data_dir().map(|p| p.to_string_lossy().into_owned())
}

/// The data directory used when the user's data directory is `root`:
/// `qcker` under it, or under `/tmp` when there is none.
pub open spec fn default_data_dir(root: Option<Seq<char>>) -> Seq<char> {
    match root {
        Some(r) => join_path(r, "qcker"@),
        None => join_path("/tmp"@, "qcker"@),
    }
}

impl BackendConfig {
    /// The default settings given the user's data directory `root`: 2
    /// virtual CPUs, 512 MB, acceleration on, a 60 s idle timeout, no extra
    /// kernel arguments, no kernel or rootfs override, and the data
    /// directory `qcker` under `root` (under `/tmp` when `root` is absent).
    pub fn with_data_root(root: Option<String>) -> (r: Self)
        ensures
            r.kernel_path is None,
            r.rootfs_path is None,
            r.vcpu_count == 2,
            r.memory_mb == 512,
            r.use_acceleration,
            r.idle_timeout_secs == 60,
            r.kernel_cmdline_extra@.len() == 0,
            r.data_dir@ == default_data_dir(match root {
                Some(s) => Some(s@),
                None => None,
            }),
    {
        let base = match root {
            Some(s) => s,
            None => owned("/tmp"),
        };
        BackendConfig {
            kernel_path: None,
            rootfs_path: None,
            vcpu_count: 2,
            memory_mb: 512,
            use_acceleration: true,
            idle_timeout_secs: 60,
            kernel_cmdline_extra: Vec::new(),
            data_dir: join(base.as_str(), "qcker"),
        }
    }

    /// `kernel` under the data directory.
    pub fn kernel_dir(&self) -> (r: String)
        ensures
            r@ == join_path(self.data_dir@, "kernel"@),
    {
        join(self.data_dir.as_str(), "kernel")
    }

    /// `images` under the data directory.
    pub fn images_dir(&self) -> (r: String)
        ensures
            r@ == join_path(self.data_dir@, "images"@),
    {
        join(self.data_dir.as_str(), "images")
    }

    /// `containers` under the data directory.
    pub fn containers_dir(&self) -> (r: String)
        ensures
            r@ == join_path(self.data_dir@, "containers"@),
    {
        join(self.data_dir.as_str(), "containers")
    }

    /// `volumes` under the data directory.
    pub fn volumes_dir(&self) -> (r: String)
        ensures
            r@ == join_path(self.data_dir@, "volumes"@),
    {
        join(self.data_dir.as_str(), "volumes")
    }

    /// `networks` under the data directory.
    pub fn networks_dir(&self) -> (r: String)
        ensures
            r@ == join_path(self.data_dir@, "networks"@),
    {
        join(self.data_dir.as_str(), "networks")
    }

    /// `extensions` under the data directory.
    pub fn extensions_dir(&self) -> (r: String)
        ensures
            r@ == join_path(self.data_dir@, "extensions"@),
    {
        join(self.data_dir.as_str(), "extensions")
    }

    /// `run` under the data directory.
    pub fn run_dir(&self) -> (r: String)
        ensures
            r@ == join_path(self.data_dir@, "run"@),
    {
        join(self.data_dir.as_str(), "run")
    }

    /// `logs` under the data directory.
    pub fn logs_dir(&self) -> (r: String)
        ensures
            r@ == join_path(self.data_dir@, "logs"@),
    {
        join(self.data_dir.as_str(), "logs")
    }
}

impl Default for BackendConfig {
    /// The default settings, with the data directory `qcker` under the
    /// user's data directory (or under `/tmp` when there is none).
    fn default() -> (r: Self)
        ensures
            r.kernel_path is None,
            r.rootfs_path is None,
            r.vcpu_count == 2,
            r.memory_mb == 512,
            r.use_acceleration,
            r.idle_timeout_secs == 60,
            r.kernel_cmdline_extra@.len() == 0,
            exists|root: Option<Seq<char>>| r.data_dir@ == default_data_dir(root),
    {
        let root = user_data_dir();
        let r = Self::with_data_root(root);
        assert(r.data_dir@ == default_data_dir(match root {
            Some(s) => Some(s@),
            None => None,
        }));
        r
    }
}

} // verus!
