use qcker::benchmark::{run_settings, status_label, BenchmarkResult, BenchmarkSuite, Elapsed};
use qcker::host_stats::{
    cpu_counters, memory_reading, memory_totals, resident_kib, thread_count, MemField,
};

fn run(name: &str, ms: u64, status: &str) -> BenchmarkResult {
    BenchmarkResult {
        name: name.to_string(),
        duration: Elapsed::from_millis(ms),
        status: status.to_string(),
    }
}

#[test]
fn elapsed_new_carries_whole_seconds() {
    let d = Elapsed::new(1, 2_500_000_000);
    assert_eq!(d, Elapsed { secs: 3, nanos: 500_000_000 });
    assert_eq!(d.as_millis(), 3500);
}

#[test]
fn elapsed_from_millis_splits_seconds() {
    let d = Elapsed::from_millis(1234);
    assert_eq!(d, Elapsed { secs: 1, nanos: 234_000_000 });
    assert_eq!(d.as_millis(), 1234);
    assert_eq!(Elapsed { secs: 0, nanos: 999_999 }.as_millis(), 0);
}

#[test]
fn elapsed_order_is_seconds_then_nanos() {
    let a = Elapsed { secs: 1, nanos: 900 };
    let b = Elapsed { secs: 2, nanos: 0 };
    assert!(a.no_longer_than(&b));
    assert!(!b.no_longer_than(&a));
    assert!(a.no_longer_than(&a));
}

#[test]
fn empty_suite_has_no_extremes_and_zero_average() {
    let s = BenchmarkSuite::new("Container Startup");
    assert_eq!(s.name, "Container Startup");
    assert_eq!(s.min_duration(), None);
    assert_eq!(s.max_duration(), None);
    assert_eq!(s.avg_duration(), Elapsed { secs: 0, nanos: 0 });
    assert_eq!(s.success_count(), 0);
}

#[test]
fn suite_statistics() {
    let mut s = BenchmarkSuite::new("qcker");
    s.add_result(run("qcker-1", 120, "success"));
    s.add_result(run("qcker-2", 80, "failed"));
    s.add_result(run("qcker-3", 101, "success"));
    s.add_result(run("qcker-4", 95, "odd"));
    assert_eq!(s.results.len(), 4);
    assert_eq!(s.results[1].name, "qcker-2");
    assert_eq!(s.min_duration(), Some(Elapsed::from_millis(80)));
    assert_eq!(s.max_duration(), Some(Elapsed::from_millis(120)));
    // (120 + 80 + 101 + 95) / 4 = 99, whole milliseconds
    assert_eq!(s.avg_duration(), Elapsed::from_millis(99));
    assert_eq!(s.success_count(), 2);
}

#[test]
fn average_counts_whole_milliseconds_only() {
    let mut s = BenchmarkSuite::new("fine");
    s.add_result(BenchmarkResult {
        name: "a".to_string(),
        duration: Elapsed { secs: 0, nanos: 1_999_999 },
        status: "success".to_string(),
    });
    s.add_result(BenchmarkResult {
        name: "b".to_string(),
        duration: Elapsed { secs: 0, nanos: 2_000_000 },
        status: "success".to_string(),
    });
    // 1 ms + 2 ms over two runs
    assert_eq!(s.avg_duration(), Elapsed::from_millis(1));
    assert_eq!(s.min_duration(), Some(Elapsed { secs: 0, nanos: 1_999_999 }));
}

#[test]
fn average_cuts_each_run_to_64_bits() {
    let mut s = BenchmarkSuite::new("long");
    s.add_result(BenchmarkResult {
        name: "forever".to_string(),
        duration: Elapsed { secs: u64::MAX, nanos: 0 },
        status: "success".to_string(),
    });
    let ms = (u64::MAX as u128) * 1000;
    assert_eq!(s.avg_duration(), Elapsed::from_millis(ms as u64));
    assert_eq!(s.avg_duration(), Elapsed::from_millis(18446744073709550616));
}

#[test]
fn average_lies_between_shortest_and_longest() {
    let mut s = BenchmarkSuite::new("spread");
    for ms in [7u64, 300, 45, 45, 1999] {
        s.add_result(run("r", ms, "success"));
    }
    let lo = s.min_duration().unwrap().as_millis();
    let hi = s.max_duration().unwrap().as_millis();
    let avg = s.avg_duration().as_millis();
    assert_eq!((lo, avg, hi), (7, 479, 1999));
    assert!(lo <= avg && avg <= hi);
}

#[test]
fn status_labels() {
    assert_eq!(status_label("success"), "OK");
    assert_eq!(status_label("failed"), "FAIL");
    assert_eq!(status_label("skipped"), "WARN");
    assert_eq!(status_label(""), "WARN");
}

#[test]
fn cpu_counters_from_proc_stat() {
    let stat = "cpu  10 20 30 40 50 60\ncpu0 1 2 3 4\nintr 5\n";
    assert_eq!(cpu_counters(stat), Some((10, 20, 30, 40)));
    assert_eq!(cpu_counters("cpu  1 x 3 4\n"), Some((1, 0, 3, 4)));
    assert_eq!(cpu_counters("cpu  1 2 3\nintr 5\n"), None);
    assert_eq!(cpu_counters("cpu0 1 2 3 4\n"), None);
    assert_eq!(cpu_counters(""), None);
}

#[test]
fn memory_reading_stops_at_first_figure() {
    let meminfo = "MemTotal:       16384000 kB\nMemFree:  100 kB\nMemAvailable:    8192000 kB\n";
    assert_eq!(memory_reading(meminfo), Some((MemField::Total, Some(16384000))));
    let avail_first = "Foo: 1\nMemAvailable: 2048 kB\nMemTotal: 4096 kB\n";
    assert_eq!(memory_reading(avail_first), Some((MemField::Available, Some(2048))));
    assert_eq!(memory_reading("MemTotal:\n"), Some((MemField::Total, None)));
    assert_eq!(memory_reading("MemTotal: lots kB\n"), Some((MemField::Total, Some(0))));
    assert_eq!(memory_reading("SwapTotal: 5 kB\n"), None);
}

#[test]
fn bench_run_defaults() {
    let s = run_settings(None, None, None, "text");
    assert_eq!(s.iterations, 10);
    assert_eq!(s.format, "text");
    assert_eq!(s.output_dir, "/tmp/qcker-benchmark");
    let s = run_settings(Some(3), Some("json".to_string()), Some("/out".to_string()), "text");
    assert_eq!(s.iterations, 3);
    assert_eq!(s.format, "json");
    assert_eq!(s.output_dir, "/out");
}

#[test]
fn memory_totals_take_the_last_line_of_each_kind() {
    let meminfo = "MemTotal: 1000 kB\nMemFree: 5 kB\nMemAvailable: 250 kB\n";
    assert_eq!(memory_totals(meminfo), (1000, 250));
    assert_eq!(memory_totals("MemTotal: 10\nMemTotal: 20\nMemAvailable:\n"), (20, 0));
    assert_eq!(memory_totals("MemTotal: x kB\n"), (0, 0));
    assert_eq!(memory_totals(""), (0, 0));
}

#[test]
fn thread_count_is_the_twentieth_field() {
    let stat = "42 (sh) S 1 42 42 0 -1 4194560 100 0 0 0 3 4 0 0 20 0 7 0 100 200";
    assert_eq!(thread_count(stat), Some(7));
    assert_eq!(thread_count("1 2 3"), None);
    let bad = "42 (sh) S 1 42 42 0 -1 4194560 100 0 0 0 3 4 0 0 20 0 many 0";
    assert_eq!(thread_count(bad), None);
}

#[test]
fn resident_size_from_last_vmrss_line() {
    assert_eq!(resident_kib("Name: sh\nVmRSS:\t  2048 kB\nThreads: 1\n"), Some(2048));
    assert_eq!(resident_kib("VmRSS: 10 kB\nVmRSS: bad kB\n"), Some(10));
    assert_eq!(resident_kib("VmRSS: 10 kB\nVmRSS: 30 kB\n"), Some(30));
    assert_eq!(resident_kib("VmRSS:\n"), None);
    assert_eq!(resident_kib("Name: sh\n"), None);
}
