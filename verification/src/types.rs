//! The values that describe containers: what to run, what is running, and
//! what a backend reports back.

use vstd::prelude::*;
use std::collections::HashMap;
use crate::text::owned;

verus! {

/// What a container mount is backed by.
#[derive(Debug, Clone, Copy, PartialEq, Eq, Structural)]
pub enum MountType {
    Bind,
    Volume,
    Tmpfs,
}

/// A mount of `source` at `target` inside a container.
#[derive(Debug, Clone)]
pub struct MountSpec {
    pub source: String,
    pub target: String,
    pub mount_type: MountType,
    pub read_only: bool,
}

/// Transport protocol of a forwarded port.
#[derive(Debug, Clone, Copy, PartialEq, Eq, Structural)]
pub enum Protocol {
    Tcp,
    Udp,
}

/// A host port forwarded to a port of the container.
#[derive(Debug, Clone)]
pub struct PortForwardSpec {
    pub host_port: u16,
    pub guest_port: u16,
    pub protocol: Protocol,
}

/// Resource limits of a container; `None` means unlimited.
#[derive(Debug, Clone)]
pub struct ResourceSpec {
    pub cpu_shares: Option<u64>,
    pub memory_mb: Option<u64>,
    pub pids_limit: Option<i64>,
}

/// How a container is attached to the network.
#[derive(Debug, Clone)]
pub enum NetworkMode {
    Bridge,
    Host,
    /// No network at all (`none` on the command line).
    Disabled,
    Custom(String),
}

/// Everything a backend needs to create a container.
#[derive(Debug, Clone)]
pub struct ContainerSpec {
    pub image: String,
    pub layers: Vec<String>,
    pub command: Vec<String>,
    pub env: HashMap<String, String>,
    pub working_dir: Option<String>,
    pub user: Option<String>,
    pub group: Option<String>,
    pub mounts: Vec<MountSpec>,
    pub port_forwards: Vec<PortForwardSpec>,
    pub resources: ResourceSpec,
    pub rootful: bool,
    pub seccomp_profile: Option<String>,
    pub capabilities: Vec<String>,
    pub network_mode: NetworkMode,
    pub hostname: String,
    pub dns: Vec<String>,
    pub labels: HashMap<String, String>,
}

/// The lifecycle state of a container.
#[derive(Debug, Clone, Copy, PartialEq, Eq, Structural)]
pub enum ContainerStatus {
    Created,
    Running,
    Stopped,
    Paused,
    Dead,
}

/// The name of a status as `Debug` prints it.
pub open spec fn status_name(s: ContainerStatus) -> Seq<char> {
    match s {
        ContainerStatus::Created => "Created"@,
        ContainerStatus::Running => "Running"@,
        ContainerStatus::Stopped => "Stopped"@,
        ContainerStatus::Paused => "Paused"@,
        ContainerStatus::Dead => "Dead"@,
    }
}

impl ContainerStatus {
    /// The name of this status as `Debug` prints it.
    pub fn name(&self) -> (r: String)
        ensures
            r@ == status_name(*self),
    {
        match self {
            ContainerStatus::Created => owned("Created"),
            ContainerStatus::Running => owned("Running"),
            ContainerStatus::Stopped => owned("Stopped"),
            ContainerStatus::Paused => owned("Paused"),
            ContainerStatus::Dead => owned("Dead"),
        }
    }
}

/// What a backend records of a container.
#[derive(Debug, Clone)]
pub struct ContainerInfo {
    pub id: String,
    pub name: Option<String>,
    pub image: String,
    pub status: ContainerStatus,
    pub pid: Option<u32>,
    pub exit_code: Option<i32>,
    pub created_at: String,
    pub labels: HashMap<String, String>,
}

/// Resource usage of a container.
#[derive(Debug, Clone, Copy, PartialEq, Eq, Structural)]
pub struct ContainerStats {
    pub cpu_usage_ns: u64,
    pub memory_usage_bytes: u64,
    pub memory_limit_bytes: u64,
    pub network_rx_bytes: u64,
    pub network_tx_bytes: u64,
    pub block_read_bytes: u64,
    pub block_write_bytes: u64,
    pub pids: u64,
}

/// The outcome of running a command inside a container.
#[derive(Debug)]
pub struct ExecResult {
    pub exit_code: i32,
    pub stdout: Vec<u8>,
    pub stderr: Vec<u8>,
}

/// Which part of a container log to read.
#[derive(Debug, Clone)]
pub struct LogReadOpts {
    pub follow: bool,
    pub tail: Option<usize>,
    pub since: Option<String>,
    pub until: Option<String>,
    pub timestamps: bool,
}

/// The stream a log line was written to.
#[derive(Debug, Clone, Copy, PartialEq, Eq, Structural)]
pub enum LogStream {
    Stdout,
    Stderr,
}

/// One line of a container log.
#[derive(Debug, Clone)]
pub struct LogEntry {
    pub timestamp: String,
    pub stream: LogStream,
    pub message: String,
}

/// An entry of a directory inside a container.
#[derive(Debug, Clone)]
pub struct FileInfo {
    pub name: String,
    pub path: String,
    pub is_dir: bool,
    pub size: u64,
    pub permissions: String,
    pub modified: String,
}

impl Default for ContainerSpec {
    /// A spec that runs `/bin/sh` as root in `/`, on the bridge network,
    /// with hostname `container` and Google's public DNS servers.
    fn default() -> (r: Self)
        ensures
            r.image@ == Seq::<char>::empty(),
            r.layers@.len() == 0,
            r.command@.len() == 1,
            r.command@[0]@ == "/bin/sh"@,
            r.env@ == Map::<String, String>::empty(),
            r.working_dir matches Some(w) && w@ == "/"@,
            r.user matches Some(u) && u@ == "root"@,
            r.group is None,
            r.mounts@.len() == 0,
            r.port_forwards@.len() == 0,
            r.resources.cpu_shares is None,
            r.resources.memory_mb is None,
            r.resources.pids_limit is None,
            !r.rootful,
            r.seccomp_profile is None,
            r.capabilities@.len() == 0,
            r.network_mode is Bridge,
            r.hostname@ == "container"@,
            r.dns@.len() == 2,
            r.dns@[0]@ == "8.8.8.8"@,
            r.dns@[1]@ == "8.8.4.4"@,
            r.labels@ == Map::<String, String>::empty(),
    {
        ContainerSpec {
            image: String::new(),
            layers: Vec::new(),
            command: vec![owned("/bin/sh")],
            env: HashMap::new(),
            working_dir: Some(owned("/")),
            user: Some(owned("root")),
            group: None,
            mounts: Vec::new(),
            port_forwards: Vec::new(),
            resources: ResourceSpec { cpu_shares: None, memory_mb: None, pids_limit: None },
            rootful: false,
            seccomp_profile: None,
            capabilities: Vec::new(),
            network_mode: NetworkMode::Bridge,
            hostname: owned("container"),
            dns: vec![owned("8.8.8.8"), owned("8.8.4.4")],
            labels: HashMap::new(),
        }
    }
}

} // verus!
