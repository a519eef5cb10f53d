use qcker::cli::{
    container_list_lines, container_state_lines, delete_kills_first, exec_check, info_lines,
    kill_signal, killed_message, network_driver, padded, prunes, ps_lists, shown_log_lines,
    stamped_line, stats_header_line, stats_row_line, stats_target, CreateNetworkArgs, DeleteArgs,
    ExecArgs, KillArgs, KillSignal, NetworkDriver, PsArgs, StatsArgs, StatsTarget,
};
use qcker::file_list::{child_path_of, ls_command, ls_listing_of, order_files};
use qcker::microvm::log_entries;
use qcker::migrate::{
    details_from_output, migration_command, migration_instructions, output_format, target_name,
    MigrateArgs,
};
use qcker::run_plan::{plan_run, root_source, ImageDefaults, NamespaceKind, RootSource, RunOptions};
use qcker::types::{FileInfo, MountType, Protocol};

fn options() -> RunOptions {
    RunOptions {
        command: vec![],
        terminal: false,
        workdir: "/".to_string(),
        env: vec!["FOO=1".to_string(), "HOME=/root".to_string()],
        hostname: None,
        publish: vec!["8080:80".to_string(), "bad".to_string(), "99999:1".to_string(), "+53:53".to_string()],
        volume: vec!["/src:/dst:ro".to_string(), "novol".to_string()],
        network: "bridge".to_string(),
        dns: vec![],
        read_only: true,
        privileged: false,
        init: false,
        cap_add: vec!["CAP_NET_ADMIN".to_string()],
        cap_drop: vec!["CAP_KILL".to_string(), "CAP_MKNOD".to_string()],
        user: Some("1000:abc".to_string()),
    }
}

#[test]
fn run_plan_from_options_and_image() {
    let image = ImageDefaults {
        env: vec!["FOO=2".to_string(), "LANG=C".to_string()],
        cmd: vec!["nginx".to_string()],
        workdir: Some("/app".to_string()),
    };
    let plan = plan_run(&options(), &image, "0123456789abcdef0123");
    assert_eq!(plan.args, vec!["nginx"]);
    assert_eq!(
        plan.env,
        vec![
            "FOO=1",
            "HOME=/root",
            "LANG=C",
            "PATH=/usr/local/sbin:/usr/local/bin:/usr/sbin:/usr/bin:/sbin:/bin",
            "DNS_SERVERS=8.8.8.8,8.8.4.4",
        ]
    );
    assert_eq!(plan.cwd, "/app");
    assert_eq!(plan.hostname, "0123456789ab");
    assert_eq!((plan.uid, plan.gid), (1000, 0));
    assert_eq!(
        plan.namespaces,
        vec![
            NamespaceKind::Pid,
            NamespaceKind::Mount,
            NamespaceKind::Uts,
            NamespaceKind::Ipc,
            NamespaceKind::Cgroup,
            NamespaceKind::Network,
            NamespaceKind::User,
        ]
    );
    let caps = plan.capabilities.clone().unwrap();
    assert!(caps.contains(&"CAP_NET_ADMIN".to_string()));
    assert!(!caps.contains(&"CAP_KILL".to_string()));
    assert!(!caps.contains(&"CAP_MKNOD".to_string()));
    assert!(caps.contains(&"CAP_CHOWN".to_string()));
    assert_eq!(caps.len(), 11);
    assert_eq!(plan.port_mappings.len(), 2);
    assert_eq!((plan.port_mappings[0].host_port, plan.port_mappings[0].guest_port), (8080, 80));
    assert_eq!((plan.port_mappings[1].host_port, plan.port_mappings[1].guest_port), (53, 53));
    assert_eq!(plan.port_mappings[0].protocol, Protocol::Tcp);
    assert_eq!(plan.volume_mounts.len(), 1);
    assert_eq!(plan.volume_mounts[0].source, "/src");
    assert_eq!(plan.volume_mounts[0].target, "/dst:ro");
    assert_eq!(plan.volume_mounts[0].mount_type, MountType::Bind);
    assert_eq!(plan.dns_servers, vec!["8.8.8.8", "8.8.4.4"]);
    assert!(plan.read_only_root);
    assert!(plan.no_new_privileges);
}

#[test]
fn run_plan_defaults() {
    let mut opts = options();
    opts.init = true;
    opts.command = vec!["sleep".to_string(), "1".to_string()];
    opts.cap_add = vec![];
    opts.cap_drop = vec![];
    opts.user = None;
    opts.network = "host".to_string();
    opts.hostname = Some("box".to_string());
    opts.workdir = "/work".to_string();
    opts.dns = vec!["1.1.1.1".to_string()];
    let image = ImageDefaults { env: vec![], cmd: vec![], workdir: None };
    let plan = plan_run(&opts, &image, "x");
    assert_eq!(plan.args, vec!["/sbin/init", "sleep", "1"]);
    assert!(plan.capabilities.is_none());
    assert_eq!(plan.namespaces.len(), 5);
    assert_eq!(plan.hostname, "box");
    assert_eq!(plan.cwd, "/work");
    assert_eq!(plan.env.last().unwrap(), "DNS_SERVERS=1.1.1.1");
    assert_eq!((plan.uid, plan.gid), (0, 0));
    let mut bare = options();
    bare.command = vec![];
    bare.privileged = true;
    let shell = plan_run(&bare, &image, "x");
    assert_eq!(shell.args, vec!["/bin/sh"]);
    assert_eq!(shell.cwd, "/");
    assert_eq!(shell.capabilities.unwrap(), vec!["ALL", "CAP_NET_ADMIN"]);
    assert!(!shell.no_new_privileges);
}

#[test]
fn migrate_reads_details_and_builds_command() {
    let out = "IMAGE:nginx:1.25\nCMD:nginx -g daemon off;\nHOSTNAME:web1\nENV:A=1\nENV:B=2\nMOUNT:/data:/srv:rw\nPORT:8080:80\nnoise\n";
    let d = details_from_output(out);
    assert_eq!(d.image, "nginx:1.25");
    assert_eq!(d.command, "nginx -g daemon off;");
    assert_eq!(d.hostname, "web1");
    assert_eq!(d.env_vars, vec!["A=1", "B=2"]);
    assert_eq!(d.mounts, vec!["/data:/srv:rw"]);
    assert_eq!(d.ports, vec!["8080:80"]);
    let cmd = migration_command(&Some("new".to_string()), &d);
    assert_eq!(
        cmd,
        vec![
            "run", "--name", "new", "-e", "A=1", "-e", "B=2", "-v", "/data:/srv:rw", "-p", "8080:80",
            "--hostname", "web1", "nginx:1.25", "nginx", "-g", "daemon", "off;",
        ]
    );
    let steps = migration_instructions("nginx:1.25", &cmd, "new");
    assert_eq!(steps[0], "Run: qcker pull nginx:1.25");
    assert!(steps[1].starts_with("Run: qcker --name new -e A=1"));
    assert_eq!(steps[2], "Verify: qcker ps");
    assert_eq!(steps[3], "Check logs: qcker logs new");
    let empty = details_from_output("");
    let bare = migration_command(&None, &empty);
    assert_eq!(bare, vec!["run", "", "/bin/sh"]);
}

#[test]
fn migrate_names_and_format() {
    let args = MigrateArgs { container_id: "abc".to_string(), name: None, format: None };
    assert_eq!(target_name(&args), "migrated-abc");
    assert_eq!(output_format(&args, "text"), "text");
    let named = MigrateArgs { container_id: "abc".to_string(), name: Some("x".to_string()), format: Some("json".to_string()) };
    assert_eq!(target_name(&named), "x");
    assert_eq!(output_format(&named, "text"), "json");
}

#[test]
fn tables_are_padded() {
    assert_eq!(padded("ab", 5), "ab   ");
    assert_eq!(padded("abcdef", 3), "abcdef");
    let lines = container_list_lines(&vec![("abc".to_string(), "running".to_string(), Some(42))]);
    assert_eq!(lines[0], "CONTAINER ID    STATUS          PID       ");
    assert_eq!(lines[1], "abc             running         42        ");
    assert_eq!(stats_header_line(), "CONTAINER       STATUS       PID      CPU (ns)        MEMORY (B)     ");
    assert_eq!(stats_row_line("c1", "running", None, 0, 4096), "c1              running      -        0               4096           ");
    assert_eq!(
        container_state_lines("abc", "running", Some(-7)),
        vec!["Container: abc", "Status:    running", "PID:       -7"]
    );
    assert_eq!(container_state_lines("abc", "created", None).len(), 2);
}

#[test]
fn kill_signals() {
    let args = KillArgs { container_id: "c1".to_string(), signal: "SIGTERM".to_string() };
    assert_eq!(kill_signal(&args), Ok(KillSignal::Term));
    let named = |n: &str| kill_signal(&KillArgs { container_id: "c".to_string(), signal: n.to_string() });
    assert_eq!(named("SIGKILL"), Ok(KillSignal::Kill));
    assert_eq!(named("SIGINT"), Ok(KillSignal::Int));
    assert_eq!(named("SIGHUP"), Ok(KillSignal::Hup));
    assert_eq!(named("SIGSTOP"), Ok(KillSignal::Stop));
    assert_eq!(named("SIGCONT"), Ok(KillSignal::Cont));
    assert!(named("sigkill").is_err());
    assert_eq!(killed_message(&args), "Container c1 killed with SIGTERM");
    let bad = KillArgs { container_id: "c1".to_string(), signal: "SIGFOO".to_string() };
    assert_eq!(kill_signal(&bad), Err("Unknown signal: SIGFOO".to_string()));
}

#[test]
fn command_decisions() {
    assert!(ps_lists(&PsArgs { all: false }, "running"));
    assert!(!ps_lists(&PsArgs { all: false }, "stopped"));
    assert!(ps_lists(&PsArgs { all: true }, "stopped"));
    assert!(prunes("Stopped", false));
    assert!(!prunes("Running", false));
    assert!(prunes("Running", true));
    assert!(matches!(
        stats_target(&StatsArgs { container_id: Some("c".to_string()), all: true }),
        Ok(StatsTarget::One(ref id)) if id == "c"
    ));
    assert!(matches!(stats_target(&StatsArgs { container_id: None, all: true }), Ok(StatsTarget::All)));
    assert_eq!(
        stats_target(&StatsArgs { container_id: None, all: false }).err(),
        Some("Specify container ID or use --all".to_string())
    );
    let no_cmd = ExecArgs { container_id: "c".to_string(), command: vec![], terminal: false, interactive: false };
    assert_eq!(exec_check(&no_cmd), Err("No command specified".to_string()));
    assert!(delete_kills_first(&DeleteArgs { container_id: "c".to_string(), force: true }, true));
    assert!(!delete_kills_first(&DeleteArgs { container_id: "c".to_string(), force: false }, true));
}

#[test]
fn network_drivers() {
    let bridge = CreateNetworkArgs { name: "n".to_string(), driver: "bridge".to_string(), subnet: None };
    assert!(matches!(network_driver(&bridge), Ok(NetworkDriver::Bridge(ref s)) if s == "172.20.0.0/16"));
    let host = CreateNetworkArgs { name: "n".to_string(), driver: "host".to_string(), subnet: None };
    assert!(matches!(network_driver(&host), Ok(NetworkDriver::Host)));
    let none = CreateNetworkArgs { name: "n".to_string(), driver: "none".to_string(), subnet: None };
    assert!(matches!(network_driver(&none), Ok(NetworkDriver::Isolated)));
    let odd = CreateNetworkArgs { name: "n".to_string(), driver: "overlay".to_string(), subnet: None };
    assert_eq!(network_driver(&odd).err(), Some("Unknown driver: overlay".to_string()));
}

#[test]
fn system_info_lines() {
    let lines = info_lines("0.1.0", "/data", "linux", "x86_64", 3, 2, 0);
    assert_eq!(lines.len(), 9);
    assert_eq!(lines[0], "Qcker System Information");
    assert_eq!(lines[6], "Containers: 3");
    assert_eq!(lines[8], "Volumes:    0");
}

#[test]
fn log_tail_and_entries() {
    let content = "one\ntwo\r\nthree\n";
    assert_eq!(shown_log_lines(content, None), vec!["one", "two", "three"]);
    assert_eq!(shown_log_lines(content, Some(2)), vec!["two", "three"]);
    assert_eq!(shown_log_lines(content, Some(10)).len(), 3);
    assert_eq!(stamped_line("12:00", "hi"), "[12:00] hi");
    let entries = log_entries(content, &"T".to_string(), Some(1));
    assert_eq!(entries.len(), 1);
    assert_eq!(entries[0].message, "three");
    assert_eq!(entries[0].timestamp, "T");
}

#[test]
fn ls_output_is_read_and_ordered() {
    let out = "total 12\n\
        drwxr-xr-x 2 root root 4096 1700000000 x y .\n\
        -rw-r--r-- 1 root root 12 1700000001 x y zeta.txt\n\
        drwxr-xr-x 2 root root 4096 1700000002 x y bin\n\
        -rw-r--r-- 1 root root 5x 1700000003 x y alpha.txt\n\
        short line\n";
    let files = ls_listing_of(out, "/home/");
    let names: Vec<&str> = files.iter().map(|f| f.name.as_str()).collect();
    assert_eq!(names, vec!["bin", "alpha.txt", "zeta.txt"]);
    assert!(files[0].is_dir);
    assert_eq!(files[0].path, "/home/bin");
    assert_eq!(files[1].size, 0);
    assert_eq!(files[2].size, 12);
    assert_eq!(files[2].modified, "1700000001");
    assert_eq!(files[2].permissions, "-rw-r--r--");
    assert_eq!(ls_command("/etc"), vec!["/bin/sh", "-c", "ls -la --time-style=+%s /etc"]);
    assert_eq!(child_path_of("/a//", &vec!['b']), "/a/b");
}

#[test]
fn ordering_keeps_ties_in_place() {
    let f = |name: &str, dir: bool, size: u64| FileInfo {
        name: name.to_string(),
        path: String::new(),
        is_dir: dir,
        size,
        permissions: String::new(),
        modified: String::new(),
    };
    let files = vec![f("b", false, 1), f("a", false, 2), f("b", false, 3), f("z", true, 4), f("B", false, 5)];
    let ordered = order_files(&files);
    let seen: Vec<(String, u64)> = ordered.iter().map(|x| (x.name.clone(), x.size)).collect();
    assert_eq!(
        seen,
        vec![
            ("z".to_string(), 4),
            ("B".to_string(), 5),
            ("a".to_string(), 2),
            ("b".to_string(), 1),
            ("b".to_string(), 3),
        ]
    );
}

#[test]
fn run_needs_a_rootfs_or_an_image() {
    match root_source(Some("/r".to_string()), Some("alpine".to_string())) {
        Ok(RootSource::Rootfs(p)) => assert_eq!(p, "/r"),
        _ => panic!("rootfs expected"),
    }
    match root_source::<String>(None, Some("alpine".to_string())) {
        Ok(RootSource::Image(i)) => assert_eq!(i, "alpine"),
        _ => panic!("image expected"),
    }
    match root_source::<String>(None, None) {
        Err(m) => assert_eq!(m, "Either --rootfs or --image must be specified"),
        _ => panic!("refusal expected"),
    }
}
