use croutond::host_metrics::{
    kib_to_bytes, nth_field, parse_cpu_ticks, parse_meminfo_kib, read_cpu_metrics,
    read_loadavg_and_processes, read_memory_metrics, read_process_metrics, read_uptime_seconds,
    required_field, required_meminfo_kib, total_ticks, CpuMetrics, MemoryMetrics, ProcessMetrics,
};
use croutond::io_error::{IoError, IoErrorKind};
use croutond::vm_metrics::{
    collect_vm_process_metrics, parse_proc_stat, parse_status_kib, parse_u32, parse_u64, ProcStat,
};

fn message<T>(r: Result<T, IoError>) -> String {
    match r {
        Ok(_) => panic!("expected an error"),
        Err(e) => {
            assert_eq!(e.kind, IoErrorKind::InvalidData);
            e.message
        }
    }
}

#[test]
fn parse_meminfo_extracts_numeric_values() {
    let raw = "MemTotal:       16384 kB\nMemAvailable:   8192 kB\nSwapTotal:      4096 kB\n";
    let parsed = parse_meminfo_kib(raw).expect("parse should succeed");

    assert_eq!(parsed.get("MemTotal"), Some(&16384));
    assert_eq!(parsed.get("MemAvailable"), Some(&8192));
    assert_eq!(parsed.get("SwapTotal"), Some(&4096));
}

#[test]
fn parse_proc_stat_handles_name_with_spaces() {
    let raw = "42 (demo vm) S 1 2 3 4 5 6 7 8 9 10 120 80 13 14 15 16 8 18 19";
    let parsed = parse_proc_stat(raw).expect("parse should succeed");

    assert_eq!(parsed.state, 'S');
    assert_eq!(parsed.utime, 120);
    assert_eq!(parsed.stime, 80);
    assert_eq!(parsed.num_threads, 8);
}

#[test]
fn process_name_does_not_matter() {
    let fields = " S 1 2 3 4 5 6 7 8 9 10 120 80 13 14 15 16 8 18 19";
    for name in ["vm", "a) R (b", ")))", ""] {
        let parsed = parse_proc_stat(&format!("42 ({name}){fields}")).expect("a full line");
        assert_eq!(parsed, ProcStat { state: 'S', utime: 120, stime: 80, num_threads: 8 });
    }
}

#[test]
fn malformed_proc_stat_is_refused() {
    assert_eq!(message(parse_proc_stat("42 vm S")), "invalid /proc stat format: missing ')'");
    assert_eq!(
        message(parse_proc_stat("42 (vm) S 1 2 3 4 5 6 7 8 9 10 120 80 13 14 15 16")),
        "invalid /proc stat format: too few fields"
    );
    assert_eq!(
        message(parse_proc_stat("42 (vm) S 1 2 3 4 5 6 7 8 9 10 -1 80 13 14 15 16 8")),
        "invalid utime: invalid digit found in string"
    );
    assert_eq!(
        message(parse_proc_stat(
            "42 (vm) S 1 2 3 4 5 6 7 8 9 10 1 18446744073709551616 13 14 15 16 8"
        )),
        "invalid stime: number too large to fit in target type"
    );
    assert_eq!(
        message(parse_proc_stat("42 (vm) S 1 2 3 4 5 6 7 8 9 10 1 2 13 14 15 16 4294967296")),
        "invalid num_threads: number too large to fit in target type"
    );
}

#[test]
fn numbers_of_both_widths() {
    assert_eq!(parse_u64("18446744073709551615", "x").expect("fits"), u64::MAX);
    assert_eq!(parse_u64("+7", "x").expect("a sign is taken"), 7);
    assert_eq!(message(parse_u64("", "x")), "invalid x: cannot parse integer from empty string");
    assert_eq!(parse_u32("4294967295", "x").expect("fits"), u32::MAX);
    assert_eq!(message(parse_u32("+", "y")), "invalid y: invalid digit found in string");
    assert_eq!(
        message(parse_u32("4294967296", "y")),
        "invalid y: number too large to fit in target type"
    );
}

#[test]
fn numbers_fail_as_in_the_standard_library() {
    let texts = [
        "", "+", "-", "-1", "0", "007", "1 ", "1a", "99999999999999999999999a", "4294967296a",
        "42949672950", "18446744073709551616", "+18446744073709551615", "++1", "é", "１",
    ];
    for text in texts {
        match text.parse::<u64>() {
            Ok(n) => assert_eq!(parse_u64(text, "n").expect("a number"), n, "{text}"),
            Err(e) => assert_eq!(message(parse_u64(text, "n")), format!("invalid n: {e}")),
        }
        match text.parse::<u32>() {
            Ok(n) => assert_eq!(parse_u32(text, "n").expect("a number"), n, "{text}"),
            Err(e) => assert_eq!(message(parse_u32(text, "n")), format!("invalid n: {e}")),
        }
    }
}

#[test]
fn status_keeps_the_lines_that_hold_numbers() {
    let status = parse_status_kib("Name:\tvm 1\nVmRSS:\t  12 kB\r\nVmSize: 34\nEmpty:\nno colon\n VmRSS : 56");
    assert_eq!(status.get("VmRSS"), Some(&56));
    assert_eq!(status.get("VmSize"), Some(&34));
    assert_eq!(status.get("Name"), None);
    assert_eq!(status.get("Empty"), None);
}

#[test]
fn process_metrics_are_put_together() {
    let status = parse_status_kib("VmRSS: 2 kB\nVmSize: 18014398509481984 kB\n");
    let stat = ProcStat { state: 'R', utime: u64::MAX, stime: 5, num_threads: 3 };
    let m = collect_vm_process_metrics("now".to_string(), 9, stat, &status);
    assert_eq!(m.collected_at, "now");
    assert_eq!(m.pid, 9);
    assert_eq!(m.state, "R");
    assert_eq!(m.rss_bytes, 2048);
    assert_eq!(m.virtual_memory_bytes, u64::MAX);
    assert_eq!(m.cpu_user_ticks, u64::MAX);
    assert_eq!(m.cpu_system_ticks, 5);
    assert_eq!(m.cpu_total_ticks, u64::MAX);
    assert_eq!(m.thread_count, 3);

    let empty = parse_status_kib("");
    let m = collect_vm_process_metrics("now".to_string(), 9, stat, &empty);
    assert_eq!((m.rss_bytes, m.virtual_memory_bytes), (0, 0));
}

#[test]
fn meminfo_with_a_word_for_a_number_is_refused() {
    assert_eq!(
        message(parse_meminfo_kib("A: 1\n B : x\nC: y")),
        "invalid meminfo value for B: invalid digit found in string"
    );
    let parsed = parse_meminfo_kib("A:\nno colon\nB: 3").expect("lines without values are passed over");
    assert_eq!(parsed.get("A"), None);
    assert_eq!(required_meminfo_kib(&parsed, "B").expect("there"), 3);
    assert_eq!(message(required_meminfo_kib(&parsed, "A")), "missing meminfo key: A");
}

#[test]
fn memory_metrics_are_read() {
    let raw = "MemTotal: 100 kB\nMemFree: 10 kB\nMemAvailable: 40 kB\nBuffers: 1 kB\nCached: 2 kB\nSwapTotal: 8 kB\nSwapFree: 3 kB\n";
    assert_eq!(
        read_memory_metrics(raw).expect("a full report"),
        MemoryMetrics {
            total_bytes: 102_400,
            available_bytes: 40_960,
            used_bytes: 61_440,
            free_bytes: 10_240,
            buffers_bytes: 1_024,
            cached_bytes: 2_048,
            swap_total_bytes: 8_192,
            swap_free_bytes: 3_072,
            swap_used_bytes: 5_120,
        }
    );
}

#[test]
fn used_memory_is_never_more_than_there_is() {
    let raw = "MemTotal: 10\nMemFree: 1\nMemAvailable: 40\nSwapTotal: 1\nSwapFree: 3";
    let m = read_memory_metrics(raw).expect("a full report");
    assert_eq!((m.used_bytes, m.swap_used_bytes), (0, 0));
    assert!(m.used_bytes <= m.total_bytes && m.swap_used_bytes <= m.swap_total_bytes);
}

#[test]
fn missing_memory_keys_are_named_in_order() {
    assert_eq!(message(read_memory_metrics("")), "missing meminfo key: MemTotal");
    assert_eq!(message(read_memory_metrics("MemTotal: 1")), "missing meminfo key: MemAvailable");
    assert_eq!(
        message(read_memory_metrics("MemTotal: 1\nMemAvailable: 1")),
        "missing meminfo key: MemFree"
    );
    assert_eq!(
        message(read_memory_metrics("MemTotal: ?")),
        "invalid meminfo value for MemTotal: invalid digit found in string"
    );
}

#[test]
fn kibibytes_saturate() {
    assert_eq!(kib_to_bytes(3), 3072);
    assert_eq!(kib_to_bytes(u64::MAX / 1024), (u64::MAX / 1024) * 1024);
    assert_eq!(kib_to_bytes(u64::MAX / 1024 + 1), u64::MAX);
    assert_eq!(croutond::vm_metrics::kib_to_bytes(u64::MAX), u64::MAX);
}

#[test]
fn cpu_metrics_are_read() {
    let raw = "intr 1\ncpu  10 20 30 40 5 6\ncpu0 1 2 3 4\n";
    let m = read_cpu_metrics(raw, 8).expect("a full line");
    assert_eq!(m, CpuMetrics { logical_cores: 8, total_ticks: 111, idle_ticks: 45, busy_ticks: 66 });
    assert_eq!(m.busy_ticks + m.idle_ticks, m.total_ticks);
    let m = read_cpu_metrics("cpu 1 2 3 4", 1).expect("four counts are enough");
    assert_eq!(m, CpuMetrics { logical_cores: 1, total_ticks: 10, idle_ticks: 4, busy_ticks: 6 });
}

#[test]
fn malformed_cpu_lines_are_refused() {
    assert_eq!(message(read_cpu_metrics("cpu0 1 2 3 4", 1)), "missing cpu stat line");
    assert_eq!(message(read_cpu_metrics("", 1)), "missing cpu stat line");
    assert_eq!(
        message(read_cpu_metrics("cpu 1 2 3", 1)),
        "cpu stat line has fewer than 4 fields"
    );
    assert_eq!(
        message(read_cpu_metrics("cpu 1 x 3", 1)),
        "invalid cpu tick value: invalid digit found in string"
    );
}

#[test]
fn ticks_that_do_not_fit_are_reported() {
    let ticks = parse_cpu_ticks("cpu 18446744073709551615 0 0 1").expect("each fits");
    assert_eq!(ticks, vec![u64::MAX, 0, 0, 1]);
    assert_eq!(total_ticks(&ticks), None);
    assert_eq!(total_ticks(&vec![1, 2, 3]), Some(6));
    assert_eq!(total_ticks(&Vec::new()), Some(0));
}

#[test]
fn process_counts_are_read() {
    assert_eq!(
        read_process_metrics("0.1 0.2 0.3 2/345 6789\n").expect("a full line"),
        ProcessMetrics { running: 2, total: 345 }
    );
    assert_eq!(message(read_process_metrics("0.1 0.2 0.3")), "missing loadavg proc field");
    assert_eq!(
        message(read_process_metrics("0.1 0.2 0.3 2-3")),
        "invalid loadavg process field format"
    );
    assert_eq!(
        message(read_process_metrics("0.1 0.2 0.3 a/3")),
        "invalid running process count: invalid digit found in string"
    );
    assert_eq!(
        message(read_process_metrics("0.1 0.2 0.3 2/3/4")),
        "invalid total process count: invalid digit found in string"
    );
}

#[test]
fn fields_that_have_to_be_there() {
    assert_eq!(required_field(" 12.5 3\n", 0, "uptime").expect("there"), "12.5");
    assert_eq!(message(required_field(" \n", 0, "uptime")), "missing uptime");
    assert_eq!(message(required_field("1 2", 2, "loadavg.fifteen")), "missing loadavg.fifteen");
}

#[test]
fn the_uptime_has_to_read_as_a_number() {
    assert_eq!(nth_field(" 12.5 3", 0).as_deref(), Some("12.5"));
    assert_eq!(nth_field(" 12.5 3", 2), None);
    assert!(read_uptime_seconds("12.5 3", Ok(())).is_ok());
    assert_eq!(message(read_uptime_seconds("", Ok(()))), "missing uptime");
    assert_eq!(
        message(read_uptime_seconds("x", Err("invalid float literal".to_string()))),
        "invalid uptime value: invalid float literal"
    );
}

#[test]
fn the_first_fault_of_the_load_averages_is_reported() {
    let raw = "0.1 0.2 0.3 2/345 6789";
    let bad = || Err("bad".to_string());
    assert_eq!(
        read_loadavg_and_processes(raw, Ok(()), Ok(()), Ok(())).expect("a full line"),
        ProcessMetrics { running: 2, total: 345 }
    );
    assert_eq!(
        message(read_loadavg_and_processes(raw, bad(), bad(), Ok(()))),
        "invalid loadavg.one: bad"
    );
    assert_eq!(
        message(read_loadavg_and_processes(raw, Ok(()), bad(), bad())),
        "invalid loadavg.five: bad"
    );
    assert_eq!(
        message(read_loadavg_and_processes(raw, Ok(()), Ok(()), bad())),
        "invalid loadavg.fifteen: bad"
    );
    assert_eq!(
        message(read_loadavg_and_processes("", Ok(()), Ok(()), Ok(()))),
        "missing loadavg.one"
    );
    assert_eq!(
        message(read_loadavg_and_processes("1", Ok(()), Ok(()), Ok(()))),
        "missing loadavg.five"
    );
    assert_eq!(
        message(read_loadavg_and_processes("x 2", bad(), Ok(()), Ok(()))),
        "invalid loadavg.one: bad"
    );
    assert_eq!(
        message(read_loadavg_and_processes("1 2 3", Ok(()), Ok(()), Ok(()))),
        "missing loadavg proc field"
    );
}
