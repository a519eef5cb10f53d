use qcker::config::BackendConfig;
use qcker::digest::{hex_encode, sha256_hex};
use qcker::error::QckerError;
use qcker::fs_share::{create_bind_mount_spec, FsShareConfig};
use qcker::id::{
    container_id_from_entropy, generate_image_id, generate_unique_container_id,
    network_id_from_entropy, pick_unique, short_id, IdPicker,
};
use qcker::kernel::{checksum_matches, kernel_lookup, KernelManager};
use qcker::microvm::{
    boot_step, cid_from_secs, command_outcome, created_pid, delete_reply, exec_reply,
    write_command, BootError, BootStep, Probe, ReplyError, MAX_BOOT_ATTEMPTS,
};
use qcker::port_forward::PortForwarder;
use qcker::protocol::{frame_message, parse_length_prefix, VmToHost, MAX_MESSAGE_SIZE};
use qcker::rootfs::RootfsManager;
use qcker::selector::{select_backend, BackendKind};
use qcker::tar_path::{entry_check, entry_parent, tar_gz_digest, validate_entry_path};
use qcker::types::{ExecResult, LogStream, PortForwardSpec, Protocol};
use qcker::vmm::{build_qemu_args, check_kvm_available, kvm_device_path, HostOs, SerialTarget, VmmConfig};
use qcker::vsock::{incoming_length, RecvTimeoutError};
use std::collections::HashSet;

#[test]
fn test_kernel_path() {
    let manager = KernelManager::new("/tmp/qcker".to_string(), "x86_64".to_string());
    let path = manager.kernel_path();
    assert!(path.contains("vmlinuz"));
}

#[test]
fn test_not_cached() {
    let manager = KernelManager::new("/nonexistent".to_string(), "x86_64".to_string());
    assert!(!manager.is_cached());
}

#[test]
fn test_check_kvm() {
    let available = check_kvm_available();
    println!("KVM available: {}", available);
}

#[test]
fn test_vmm_config() {
    let config = VmmConfig {
        kernel_path: "/tmp/vmlinuz".to_string(),
        rootfs_path: "/tmp/initramfs.cpio.gz".to_string(),
        vcpu_count: 2,
        memory_mb: 512,
        use_acceleration: true,
        kernel_cmdline_extra: vec![],
        vsock_cid: 42,
        fs_shares: vec![],
    };
    assert_eq!(config.vsock_cid, 42);
    assert_eq!(config.vcpu_count, 2);
}

#[test]
fn test_recv_timeout_error_display() {
    let err = RecvTimeoutError::Timeout;
    assert_eq!(err.message(), "vsock receive timed out");
}

#[test]
fn test_allocate_cid() {
    let secs = std::time::SystemTime::now()
        .duration_since(std::time::UNIX_EPOCH)
        .map(|d| d.as_secs())
        .unwrap_or(0);
    let cid = cid_from_secs(secs);
    assert!(cid >= 3);
}

#[test]
fn test_validate_rejects_dotdot() {
    let result = validate_entry_path("../../etc/passwd", "/tmp/qcker-test-dest");
    assert!(result.is_err());
}

#[test]
fn test_validate_rejects_absolute() {
    let result = validate_entry_path("/etc/passwd", "/tmp/qcker-test-dest");
    assert!(result.is_err());
}

#[test]
fn kernel_path_is_under_kernel_dir() {
    let manager = KernelManager::new("/data".to_string(), "aarch64".to_string());
    assert_eq!(manager.kernel_path(), "/data/kernel/vmlinuz-aarch64");
}

#[test]
fn kernel_lookup_reports_missing_kernel() {
    let found = kernel_lookup("/k/vmlinuz".to_string(), true);
    assert_eq!(found.ok(), Some("/k/vmlinuz".to_string()));
    let missing = kernel_lookup("/k/vmlinuz".to_string(), false);
    assert!(matches!(missing, Err(QckerError::Internal(_))));
}

#[test]
fn checksum_matches_sha256_hex() {
    assert!(checksum_matches(b"abc", "ba7816bf8f01cfea414140de5dae2223b00361a396177a9cb410ff61f20015ad"));
    assert!(!checksum_matches(b"abd", "ba7816bf8f01cfea414140de5dae2223b00361a396177a9cb410ff61f20015ad"));
}

#[test]
fn sha256_hex_known_values() {
    assert_eq!(sha256_hex(b"abc"), "ba7816bf8f01cfea414140de5dae2223b00361a396177a9cb410ff61f20015ad");
    assert_eq!(sha256_hex(b""), "e3b0c44298fc1c149afbf4c8996fb92427ae41e4649b934ca495991b7852b855");
    assert_eq!(hex_encode(&[0x00, 0xab, 0x10, 0xff]), "00ab10ff");
}

#[test]
fn identifiers_from_entropy() {
    let zero = [0u8; 32];
    assert_eq!(
        container_id_from_entropy(&zero),
        "21a743ff34c308e516400975a5116db341b69fe26f1740b83e7b375f1227a415"
    );
    assert_eq!(network_id_from_entropy(&zero), "125d055762660129065a44e11fcf8ed7");
    assert_eq!(
        generate_image_id(b"hello"),
        "2cf24dba5fb0a30e26e83b2ac5b9e29e1b161e5c1fa7425e73043362938b9824"
    );
    assert_eq!(
        tar_gz_digest(b"hello"),
        "2cf24dba5fb0a30e26e83b2ac5b9e29e1b161e5c1fa7425e73043362938b9824"
    );
}

#[test]
fn short_id_takes_twelve_bytes() {
    assert_eq!(short_id("0123456789abcdef"), "0123456789ab");
    assert_eq!(short_id("abc"), "abc");
    assert_eq!(short_id("0123456789ab"), "0123456789ab");
}

#[test]
fn id_picker_gives_up_after_thirty_two_refusals() {
    let mut picker = IdPicker::new();
    for _ in 0..32 {
        assert_eq!(picker.offer("taken".to_string(), true), None);
    }
    assert_eq!(picker.offer("taken".to_string(), true), Some("taken".to_string()));
    let mut fresh = IdPicker::new();
    assert_eq!(fresh.offer("free".to_string(), false), Some("free".to_string()));
}

#[test]
fn unique_container_id_skips_taken_ones() {
    let mut existing = HashSet::new();
    existing.insert("a".to_string());
    let draws = std::cell::Cell::new(0u32);
    let id = generate_unique_container_id(&existing, || {
        draws.set(draws.get() + 1);
        if draws.get() < 3 { "a".to_string() } else { "b".to_string() }
    });
    assert_eq!(id, "b");
    assert_eq!(draws.get(), 3);
}

#[test]
fn frame_and_length_prefix_round_trip() {
    let framed = frame_message(b"hello").unwrap();
    assert_eq!(framed, vec![0, 0, 0, 5, b'h', b'e', b'l', b'l', b'o']);
    assert_eq!(parse_length_prefix(&framed), Some((4, 5)));
    assert_eq!(parse_length_prefix(&framed[..6]), None);
    assert_eq!(parse_length_prefix(&[0, 0]), None);
    assert_eq!(MAX_MESSAGE_SIZE, 64 * 1024 * 1024);
}

#[test]
fn incoming_length_refuses_oversized_frames() {
    assert_eq!(incoming_length([0, 0, 1, 0]), Ok(256));
    assert!(incoming_length([0x10, 0, 0, 1]).is_err());
}

#[test]
fn backend_config_directories() {
    let config = BackendConfig::with_data_root(Some("/home/u/.local/share".to_string()));
    assert_eq!(config.data_dir, "/home/u/.local/share/qcker");
    assert_eq!(config.kernel_dir(), "/home/u/.local/share/qcker/kernel");
    assert_eq!(config.containers_dir(), "/home/u/.local/share/qcker/containers");
    assert_eq!(config.logs_dir(), "/home/u/.local/share/qcker/logs");
    assert_eq!(config.vcpu_count, 2);
    assert_eq!(config.memory_mb, 512);
    let fallback = BackendConfig::with_data_root(None);
    assert_eq!(fallback.data_dir, "/tmp/qcker");
}

#[test]
fn rootfs_path_under_data_dir() {
    let manager = RootfsManager::new("/data".to_string());
    assert!(manager.rootfs_path().starts_with("/data/"));
    assert!(!RootfsManager::new("/nonexistent".to_string()).is_cached());
}

#[test]
fn fs_share_qemu_arguments() {
    let share = FsShareConfig::new("/srv/data".to_string(), "share0".to_string(), true);
    let args = share.to_qemu_args();
    assert_eq!(args[0], "-fsdev");
    assert_eq!(args[1], "local,id=share0,path=/srv/data,security_model=mapped-xattr,readonly");
    assert_eq!(args[2], "-device");
    assert_eq!(args[3], "virtio-9p-pci,fsdev=share0,mount_tag=share0");
}

#[test]
fn bind_mount_of_missing_path_is_refused() {
    assert!(create_bind_mount_spec("/nonexistent/qcker/path", "/mnt", false).is_err());
}

#[test]
fn qemu_arguments_carry_the_config() {
    let config = VmmConfig {
        kernel_path: "/k".to_string(),
        rootfs_path: "/r".to_string(),
        vcpu_count: 4,
        memory_mb: 1024,
        use_acceleration: true,
        kernel_cmdline_extra: vec!["quiet".to_string()],
        vsock_cid: 7,
        fs_shares: vec![],
    };
    let args = build_qemu_args(&config, HostOs::Linux, &SerialTarget::Stdio);
    assert!(args.contains(&"-kernel".to_string()));
    assert!(args.contains(&"/k".to_string()));
    assert!(args.contains(&"kvm".to_string()));
    assert!(args.contains(&"1024".to_string()));
    assert!(args.contains(&"4".to_string()));
    assert!(args.iter().any(|a| a.contains("guest-cid=7")));
    let plain = build_qemu_args(
        &VmmConfig { use_acceleration: false, ..config.clone() },
        HostOs::Linux,
        &SerialTarget::Stdio,
    );
    assert!(!plain.contains(&"kvm".to_string()));
}

#[test]
fn backend_selection() {
    assert_eq!(select_backend(None, HostOs::Linux, true, true), Ok(BackendKind::Native));
    assert_eq!(select_backend(None, HostOs::MacOs, true, true), Ok(BackendKind::MicroVm));
    assert_eq!(select_backend(Some("microvm"), HostOs::Linux, true, true), Ok(BackendKind::MicroVm));
    assert!(select_backend(Some("wasm"), HostOs::Linux, true, true).is_err());
    assert_eq!(
        select_backend(None, HostOs::Windows, false, false),
        Err("No runtime backend available".to_string())
    );
}

#[test]
fn port_forward_table() {
    let mut pf = PortForwarder::new();
    assert!(pf.add_forward(8080, [10, 0, 2, 15], 80, "tcp").is_ok());
    assert!(pf.add_forward(8080, [10, 0, 2, 15], 81, "tcp").is_ok());
    let list = pf.list_forwards();
    assert_eq!(list.len(), 1);
    assert_eq!(list[0].2, 81);
    pf.remove_forward(8080);
    assert!(pf.list_forwards().is_empty());
}

#[test]
fn boot_wait_decisions() {
    assert_eq!(boot_step(1, Probe::Replied), BootStep::Ready);
    assert_eq!(boot_step(1, Probe::NoReply), BootStep::Retry);
    assert_eq!(boot_step(5, Probe::VmExited), BootStep::Fail(BootError::VmExited));
    assert_eq!(boot_step(MAX_BOOT_ATTEMPTS, Probe::ConnectFailed), BootStep::Fail(BootError::AgentTimeout));
    assert_eq!(BootError::AgentTimeout.message(), "Timed out waiting for guest agent to be ready");
    assert_eq!(cid_from_secs(0), 3);
    assert_eq!(cid_from_secs(4294967291), 3);
    assert_eq!(cid_from_secs(4294967290), 4294967293);
}

#[test]
fn agent_replies() {
    assert!(matches!(created_pid(VmToHost::ContainerCreated { id: "c".to_string(), pid: 7 }), Ok(7)));
    let err = created_pid(VmToHost::Error {
        request_type: "create".to_string(),
        message: "boom".to_string(),
        code: "E1".to_string(),
    });
    match err {
        Err(e) => assert_eq!(e.agent_text(), Some("Guest agent error (E1): boom".to_string())),
        Ok(_) => panic!("an error reply must fail"),
    }
    assert!(matches!(created_pid(VmToHost::Pong), Err(ReplyError::Unexpected(VmToHost::Pong))));
    assert!(delete_reply(VmToHost::Error {
        request_type: "delete".to_string(),
        message: "gone".to_string(),
        code: "CONTAINER_NOT_FOUND".to_string(),
    })
    .is_ok());
    assert!(delete_reply(VmToHost::Error {
        request_type: "delete".to_string(),
        message: "busy".to_string(),
        code: "BUSY".to_string(),
    })
    .is_err());
    let out = exec_reply(VmToHost::ContainerLog {
        id: "c".to_string(),
        stream: LogStream::Stderr,
        data: "oops".to_string(),
        timestamp: "t".to_string(),
    });
    match out {
        Ok(r) => {
            assert_eq!(r.exit_code, 0);
            assert_eq!(r.stderr, b"oops".to_vec());
            assert!(r.stdout.is_empty());
        },
        Err(_) => panic!("a log reply carries the output"),
    }
}

#[test]
fn file_commands_in_the_vm() {
    let cmd = write_command(&[0xde, 0xad], "/tmp/x");
    assert_eq!(cmd, vec!["/bin/sh", "-c", "echo 'dead' | xxd -r -p > /tmp/x"]);
    let failed = ExecResult { exit_code: 1, stdout: vec![], stderr: b"denied".to_vec() };
    assert_eq!(command_outcome(&failed, "Failed to write file"), Err("Failed to write file: denied".to_string()));
    let fine = ExecResult { exit_code: 0, stdout: vec![], stderr: vec![] };
    assert_eq!(command_outcome(&fine, "Failed to write file"), Ok(()));
}

#[test]
fn entry_parent_is_destination_plus_leading_components() {
    let named = entry_check("./a//b/c.txt").unwrap();
    assert_eq!(named.len(), 3);
    assert_eq!(entry_parent("dest", &named), "dest/a/b");
    assert_eq!(entry_parent("dest/", &entry_check("top.txt").unwrap()), "dest/");
    assert_eq!(entry_parent("/d", &entry_check("x/y").unwrap()), "/d/x");
}

#[test]
fn kvm_is_looked_for_at_dev_kvm() {
    assert_eq!(kvm_device_path(), "/dev/kvm");
    assert_eq!(check_kvm_available(), std::path::Path::new("/dev/kvm").exists());
}

#[test]
fn pick_unique_takes_the_first_free_candidate() {
    let existing: std::collections::HashSet<String> =
        ["a", "b"].iter().map(|s| s.to_string()).collect();
    let mut cs: Vec<String> = vec!["a".to_string(), "b".to_string(), "c".to_string(), "d".to_string()];
    cs.extend((0..29).map(|i| format!("x{}", i)));
    assert_eq!(cs.len(), 33);
    assert_eq!(pick_unique(&existing, &cs), 2);
    let all_taken: Vec<String> = vec!["a".to_string(); 33];
    assert_eq!(pick_unique(&existing, &all_taken), 32);
    let none_taken: Vec<String> = vec!["z".to_string(); 33];
    assert_eq!(pick_unique(&existing, &none_taken), 0);
}

#[test]
fn unique_id_is_the_first_free_draw() {
    let existing: std::collections::HashSet<String> =
        ["a", "b"].iter().map(|s| s.to_string()).collect();
    let seq = ["a", "b", "c", "d"];
    let n = std::cell::Cell::new(0usize);
    let id = generate_unique_container_id(&existing, || {
        let i = n.get();
        n.set(i + 1);
        seq[i].to_string()
    });
    assert_eq!(id, "c");
    assert_eq!(n.get(), 3);
    let m = std::cell::Cell::new(0usize);
    let id = generate_unique_container_id(&existing, || {
        m.set(m.get() + 1);
        "a".to_string()
    });
    assert_eq!(id, "a");
    assert_eq!(m.get(), 33);
}

#[test]
fn container_ports_are_forwarded_to_the_guest() {
    let mut f = PortForwarder::new();
    let ports = vec![
        PortForwardSpec { host_port: 8080, guest_port: 80, protocol: Protocol::Tcp },
        PortForwardSpec { host_port: 5353, guest_port: 53, protocol: Protocol::Udp },
        PortForwardSpec { host_port: 8080, guest_port: 8000, protocol: Protocol::Tcp },
    ];
    assert!(f.forward_container_ports(&ports).is_ok());
    let mut all = f.list_forwards();
    all.sort();
    assert_eq!(
        all,
        vec![
            (5353, [10, 0, 2, 15], 53, "udp".to_string()),
            (8080, [10, 0, 2, 15], 8000, "tcp".to_string()),
        ]
    );
}

#[test]
fn native_backend_name_and_state() {
    let b = qcker::native::NativeBackend::new();
    assert_eq!(b.backend_name(), "native");
    assert!(!b.is_running());
}

#[test]
fn short_hash_is_eight_hex_digits() {
    assert_eq!(qcker::fs_share::md5_short(""), "e3b0c442");
    assert_eq!(qcker::fs_share::md5_short("/home/user/data").len(), 8);
}
