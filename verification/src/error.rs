//! The engine's error type and the text each error displays.

use vstd::prelude::*;
use crate::text::push_str;

verus! {

/// An error of the engine, each kind with the detail it reports.
#[derive(Debug, Clone, PartialEq, Eq)]
pub enum QckerError {
    ContainerNotFound(String),
    ImageNotFound(String),
    Namespace(String),
    Cgroup(String),
    Mount(String),
    Seccomp(String),
    Capability(String),
    Process(String),
    /// An I/O failure, holding the text of the underlying error.
    Io(String),
    /// A JSON failure, holding the text of the underlying error.
    Json(String),
    OciSpec(String),
    Tar(String),
    Hash(String),
    InvalidArgument(String),
    PermissionDenied(String),
    NotSupported(String),
    Network(String),
    Internal(String),
}

/// The text an error displays.
pub open spec fn error_text(e: QckerError) -> Seq<char> {
    match e {
        QckerError::ContainerNotFound(s) => "Container not found: "@ + s@,
        QckerError::ImageNotFound(s) => "Image not found: "@ + s@ + ". Try 'qcker pull "@ + s@
            + "' first"@,
        QckerError::Namespace(s) => "Namespace error: "@ + s@,
        QckerError::Cgroup(s) => "Cgroup error: "@ + s@,
        QckerError::Mount(s) => "Mount error: "@ + s@,
        QckerError::Seccomp(s) => "Seccomp error: "@ + s@,
        QckerError::Capability(s) => "Capability error: "@ + s@,
        QckerError::Process(s) => "Process error: "@ + s@,
        QckerError::Io(s) => "IO error: "@ + s@,
        QckerError::Json(s) => "JSON error: "@ + s@,
        QckerError::OciSpec(s) => "OCI spec error: "@ + s@,
        QckerError::Tar(s) => "Tar error: "@ + s@,
        QckerError::Hash(s) => "Hash error: "@ + s@,
        QckerError::InvalidArgument(s) => "Invalid argument: "@ + s@,
        QckerError::PermissionDenied(s) => "Permission denied: "@ + s@,
        QckerError::NotSupported(s) => "Not supported: "@ + s@,
        QckerError::Network(s) => "Network error: "@ + s@,
        QckerError::Internal(s) => "Internal error: "@ + s@,
    }
}

impl QckerError {
    /// The text this error displays.
    pub fn message(&self) -> (r: String)
        ensures
            r@ == error_text(*self),
    {
        let mut r = String::new();
        match self {
            QckerError::ContainerNotFound(s) => {
                push_str(&mut r, "Container not found: ");
                push_str(&mut r, s.as_str());
            },
            QckerError::ImageNotFound(s) => {
                push_str(&mut r, "Image not found: ");
                push_str(&mut r, s.as_str());
                push_str(&mut r, ". Try 'qcker pull ");
                push_str(&mut r, s.as_str());
                push_str(&mut r, "' first");
            },
            QckerError::Namespace(s) => {
                push_str(&mut r, "Namespace error: ");
                push_str(&mut r, s.as_str());
            },
            QckerError::Cgroup(s) => {
                push_str(&mut r, "Cgroup error: ");
                push_str(&mut r, s.as_str());
            },
            QckerError::Mount(s) => {
                push_str(&mut r, "Mount error: ");
                push_str(&mut r, s.as_str());
            },
            QckerError::Seccomp(s) => {
                push_str(&mut r, "Seccomp error: ");
                push_str(&mut r, s.as_str());
            },
            QckerError::Capability(s) => {
                push_str(&mut r, "Capability error: ");
                push_str(&mut r, s.as_str());
            },
            QckerError::Process(s) => {
                push_str(&mut r, "Process error: ");
                push_str(&mut r, s.as_str());
            },
            QckerError::Io(s) => {
                push_str(&mut r, "IO error: ");
                push_str(&mut r, s.as_str());
            },
            QckerError::Json(s) => {
                push_str(&mut r, "JSON error: ");
                push_str(&mut r, s.as_str());
            },
            QckerError::OciSpec(s) => {
                push_str(&mut r, "OCI spec error: ");
                push_str(&mut r, s.as_str());
            },
            QckerError::Tar(s) => {
                push_str(&mut r, "Tar error: ");
                push_str(&mut r, s.as_str());
            },
            QckerError::Hash(s) => {
                push_str(&mut r, "Hash error: ");
                push_str(&mut r, s.as_str());
            },
            QckerError::InvalidArgument(s) => {
                push_str(&mut r, "Invalid argument: ");
                push_str(&mut r, s.as_str());
            },
            QckerError::PermissionDenied(s) => {
                push_str(&mut r, "Permission denied: ");
                push_str(&mut r, s.as_str());
            },
            QckerError::NotSupported(s) => {
                push_str(&mut r, "Not supported: ");
                push_str(&mut r, s.as_str());
            },
            QckerError::Network(s) => {
                push_str(&mut r, "Network error: ");
                push_str(&mut r, s.as_str());
            },
            QckerError::Internal(s) => {
                push_str(&mut r, "Internal error: ");
                push_str(&mut r, s.as_str());
            },
        }
        assert(r@ =~= error_text(*self));
        r
    }
}

} // verus!
