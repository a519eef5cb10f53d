//! The command line that starts the QEMU micro-VM, and the checks of what
//! the host offers for it.

use vstd::prelude::*;
use crate::paths::path_exists;
use crate::text::{owned, push_str, push_decimal, decimal, views, push_string, push_owned};
use crate::text::{join_words, join_with_spaces};

verus! {

/// The operating system the engine runs on.
#[derive(Debug, Clone, Copy, PartialEq, Eq, Structural)]
pub enum HostOs {
    Linux,
    MacOs,
    Windows,
    Other,
}

/// Where the guest's serial console goes.
#[derive(Debug, Clone)]
pub enum SerialTarget {
    /// The VMM's standard output.
    Stdio,
    /// A log file at the given path.
    File(String),
}

/// A host directory shared with the guest under a mount tag.
#[derive(Debug, Clone)]
pub struct FsShareConfig {
    pub host_path: String,
    pub mount_tag: String,
}

/// What the micro-VM is started with.
#[derive(Debug, Clone)]
pub struct VmmConfig {
    pub kernel_path: String,
    pub rootfs_path: String,
    pub vcpu_count: u32,
    pub memory_mb: u32,
    pub use_acceleration: bool,
    pub kernel_cmdline_extra: Vec<String>,
    pub vsock_cid: u32,
    pub fs_shares: Vec<FsShareConfig>,
}

/// The program that runs the micro-VM.
pub open spec fn qemu_program() -> Seq<char> {
    "qemu-system-x86_64"@
}

/// The acceleration arguments: KVM on Linux, HVF on macOS, none elsewhere
/// or when acceleration is off.
pub open spec fn accel_args(use_acceleration: bool, os: HostOs) -> Seq<Seq<char>> {
    if use_acceleration && os == HostOs::Linux {
        seq!["-accel"@, "kvm"@]
    } else if use_acceleration && os == HostOs::MacOs {
        seq!["-accel"@, "hvf"@]
    } else {
        Seq::empty()
    }
}

/// The kernel command line: the fixed console and panic settings followed
/// by the extra words, separated by spaces.
pub open spec fn kernel_cmdline(extra: Seq<Seq<char>>) -> Seq<char> {
    join_words(seq!["console=hvc0"@, "quiet"@, "panic=1"@, "pci=off"@] + extra)
}

/// The `-serial` value of a serial target.
pub open spec fn serial_arg(target: SerialTarget) -> Seq<char> {
    match target {
        SerialTarget::Stdio => "stdio"@,
        SerialTarget::File(p) => "file:"@ + p@,
    }
}

/// The arguments that export the shares, in order: for each, `-fsdev` with
/// the local backend and `-device` with a virtio-9p device.
pub open spec fn share_args(shares: Seq<FsShareConfig>) -> Seq<Seq<char>>
    decreases shares.len(),
{
    if shares.len() == 0 {
        Seq::empty()
    } else {
        let s = shares.last();
        share_args(shares.drop_last()) + seq![
            "-fsdev"@,
            "local,id="@ + s.mount_tag@ + ",path="@ + s.host_path@ + ",security_model=mapped-xattr"@,
            "-device"@,
            "virtio-9p-pci,fsdev="@ + s.mount_tag@ + ",mount_tag="@ + s.mount_tag@,
        ]
    }
}

/// The arguments QEMU is started with.
pub open spec fn qemu_args(config: VmmConfig, os: HostOs, serial: SerialTarget) -> Seq<Seq<char>> {
    seq!["-machine"@, "microvm"@] + accel_args(config.use_acceleration, os) + seq![
        "-kernel"@,
        config.kernel_path@,
        "-initrd"@,
        config.rootfs_path@,
        "-append"@,
        kernel_cmdline(views(config.kernel_cmdline_extra@)),
        "-m"@,
        decimal(config.memory_mb as nat),
        "-smp"@,
        decimal(config.vcpu_count as nat),
        "-nodefaults"@,
        "-no-reboot"@,
        "-display"@,
        "none"@,
        "-device"@,
        "vhost-vsock-pci,guest-cid="@ + decimal(config.vsock_cid as nat),
        "-serial"@,
        serial_arg(serial),
    ] + share_args(config.fs_shares@)
}

/// The program that runs the micro-VM (`qemu-system-x86_64`).
pub fn qemu_program_name() -> (r: String)
    ensures
        r@ == qemu_program(),
{
    owned("qemu-system-x86_64")
}

/// The kernel command line for the extra words.
pub fn kernel_cmdline_text(extra: &Vec<String>) -> (r: String)
    ensures
        r@ == kernel_cmdline(views(extra@)),
{
    let mut words: Vec<String> = Vec::new();
    push_owned(&mut words, "console=hvc0");
    push_owned(&mut words, "quiet");
    push_owned(&mut words, "panic=1");
    push_owned(&mut words, "pci=off");
    let ghost base = views(words@);
    assert(base =~= seq!["console=hvc0"@, "quiet"@, "panic=1"@, "pci=off"@]);
    let mut i: usize = 0;
    while i < extra.len()
        invariant
            i <= extra.len(),
            views(words@) == base + views(extra@).take(i as int),
        decreases extra.len() - i,
    {
        push_string(&mut words, extra[i].clone());
        i += 1;
        assert(views(words@) =~= base + views(extra@).take(i as int));
    }
    assert(views(extra@).take(extra.len() as int) =~= views(extra@));
    join_with_spaces(&words)
}

/// The QEMU arguments for `config` on `os`, with the serial console sent to
/// `serial`, in the order QEMU is given them.
pub fn build_qemu_args(config: &VmmConfig, os: HostOs, serial: &SerialTarget) -> (r: Vec<String>)
    ensures
        views(r@) == qemu_args(*config, os, *serial),
{
    let mut out: Vec<String> = Vec::new();
    push_owned(&mut out, "-machine");
    push_owned(&mut out, "microvm");
    if config.use_acceleration {
        match os {
            HostOs::Linux => {
                push_owned(&mut out, "-accel");
                push_owned(&mut out, "kvm");
            },
            HostOs::MacOs => {
                push_owned(&mut out, "-accel");
                push_owned(&mut out, "hvf");
            },
            _ => {},
        }
    }
    push_owned(&mut out, "-kernel");
    push_string(&mut out, config.kernel_path.clone());
    push_owned(&mut out, "-initrd");
    push_string(&mut out, config.rootfs_path.clone());
    push_owned(&mut out, "-append");
    push_string(&mut out, kernel_cmdline_text(&config.kernel_cmdline_extra));
    push_owned(&mut out, "-m");
    let mut m = String::new();
    push_decimal(&mut m, config.memory_mb as u64);
    push_string(&mut out, m);
    push_owned(&mut out, "-smp");
    let mut c = String::new();
    push_decimal(&mut c, config.vcpu_count as u64);
    push_string(&mut out, c);
    push_owned(&mut out, "-nodefaults");
    push_owned(&mut out, "-no-reboot");
    push_owned(&mut out, "-display");
    push_owned(&mut out, "none");
    push_owned(&mut out, "-device");
    let mut dev = owned("vhost-vsock-pci,guest-cid=");
    push_decimal(&mut dev, config.vsock_cid as u64);
    push_string(&mut out, dev);
    push_owned(&mut out, "-serial");
    let ser = match serial {
        SerialTarget::Stdio => owned("stdio"),
        SerialTarget::File(p) => {
            let mut t = owned("file:");
            push_str(&mut t, p.as_str());
            t
        },
    };
    push_string(&mut out, ser);
    let ghost head = views(out@);
    assert(head =~= seq!["-machine"@, "microvm"@] + accel_args(config.use_acceleration, os) + seq![
        "-kernel"@,
        config.kernel_path@,
        "-initrd"@,
        config.rootfs_path@,
        "-append"@,
        kernel_cmdline(views(config.kernel_cmdline_extra@)),
        "-m"@,
        decimal(config.memory_mb as nat),
        "-smp"@,
        decimal(config.vcpu_count as nat),
        "-nodefaults"@,
        "-no-reboot"@,
        "-display"@,
        "none"@,
        "-device"@,
        "vhost-vsock-pci,guest-cid="@ + decimal(config.vsock_cid as nat),
        "-serial"@,
        serial_arg(*serial),
    ]);
    let shares = &config.fs_shares;
    let mut i: usize = 0;
    while i < shares.len()
        invariant
            i <= shares.len(),
            views(out@) == head + share_args(shares@.take(i as int)),
        decreases shares.len() - i,
    {
        let s = &shares[i];
        push_owned(&mut out, "-fsdev");
        let mut fsdev = owned("local,id=");
        push_str(&mut fsdev, s.mount_tag.as_str());
        push_str(&mut fsdev, ",path=");
        push_str(&mut fsdev, s.host_path.as_str());
        push_str(&mut fsdev, ",security_model=mapped-xattr");
        push_string(&mut out, fsdev);
        push_owned(&mut out, "-device");
        let mut dev9p = owned("virtio-9p-pci,fsdev=");
        push_str(&mut dev9p, s.mount_tag.as_str());
        push_str(&mut dev9p, ",mount_tag=");
        push_str(&mut dev9p, s.mount_tag.as_str());
        push_string(&mut out, dev9p);
        assert(shares@.take(i + 1).drop_last() =~= shares@.take(i as int));
        i += 1;
        assert(views(out@) =~= head + share_args(shares@.take(i as int)));
    }
    assert(shares@.take(shares.len() as int) =~= shares@);
    out
}

/// The device node through which the host offers KVM.
pub fn kvm_device_path() -> (r: String)
    ensures
        r@ == "/dev/kvm"@,
{
    owned("/dev/kvm")
}

/// Whether the host exposes KVM: whether something exists at
/// [`kvm_device_path`]. The answer depends on the machine, so it is not
/// stated; the path asked about is.
pub fn check_kvm_available() -> bool {
    let p = kvm_device_path();
    path_exists(p.as_str())
}

} // verus!
