use sandbox_core::collector::{classify_status, collect_completion, WaitReply};
use sandbox_core::errors::Error;
use sandbox_core::outcome::{ExitStatus, TimeUsage};

fn reply_with_status(pid: i32, status: u32) -> WaitReply {
    WaitReply {
        pid,
        status,
        max_rss_kib: 1536,
        user_time: TimeUsage {
            seconds: 2,
            microseconds: 500_000,
        },
        system_time: TimeUsage {
            seconds: 0,
            microseconds: 250_000,
        },
    }
}

#[test]
fn normal_exits_report_their_code() {
    for code in [0u32, 1, 5, 42, 254, 255] {
        let reply = reply_with_status(100, code << 8);
        let (status, usage) = collect_completion(100, &reply).unwrap();
        assert_eq!(status, ExitStatus::ExitCode(code as i32));
        assert_eq!(usage.memory_usage, 1536 * 1024);
    }
}

#[test]
fn signal_deaths_report_their_signal() {
    // 9 is SIGKILL; 24 is SIGXCPU, the kill a CPU-time rlimit delivers.
    for sig in [1u32, 9, 11, 15, 24] {
        let reply = reply_with_status(7, sig);
        let (status, _) = collect_completion(7, &reply).unwrap();
        assert_eq!(status, ExitStatus::Signal(sig as i32));
    }
}

#[test]
fn core_dump_flag_still_reports_the_signal() {
    // A status word may carry the core-dumped bit (128) above the signal.
    let reply = reply_with_status(7, 128 + 11);
    let (status, _) = collect_completion(7, &reply).unwrap();
    assert_eq!(status, ExitStatus::Signal(11));
}

#[test]
fn stopped_status_is_refused() {
    // A stopped child (low field 127) is not a termination.
    let stopped: u32 = (19 << 8) | 0x7f;
    let reply = reply_with_status(7, stopped);
    assert_eq!(collect_completion(7, &reply), Err(Error::UnknownStatus));
}

#[test]
fn mismatched_pid_is_a_wait_failure() {
    let reply = reply_with_status(100, 0);
    assert_eq!(collect_completion(99, &reply), Err(Error::WaitFailed));
    let failed = reply_with_status(-1, 0);
    assert_eq!(collect_completion(100, &failed), Err(Error::WaitFailed));
}

#[test]
fn usage_carries_cpu_times_and_zero_wall_time() {
    let reply = reply_with_status(3, 0);
    let (_, usage) = collect_completion(3, &reply).unwrap();
    assert_eq!(usage.user_cpu_time.seconds, 2);
    assert_eq!(usage.user_cpu_time.microseconds, 500_000);
    assert_eq!(usage.system_cpu_time.seconds, 0);
    assert_eq!(usage.system_cpu_time.microseconds, 250_000);
    assert_eq!(
        usage.wall_time_usage,
        TimeUsage {
            seconds: 0,
            microseconds: 0,
        }
    );
    // Reconstructed as floating-point seconds, the wall time is exactly 0.0
    // and the CPU times are non-negative.
    let user = usage.user_cpu_time.seconds as f64 + usage.user_cpu_time.microseconds as f64 / 1_000_000.0;
    let wall = usage.wall_time_usage.seconds as f64 + usage.wall_time_usage.microseconds as f64 / 1_000_000.0;
    assert_eq!(wall, 0.0);
    assert!(user >= 0.0);
    assert_eq!(user, 2.5);
}

#[test]
fn classification_matches_collect() {
    assert_eq!(classify_status(5 << 8), Ok(ExitStatus::ExitCode(5)));
    assert_eq!(classify_status(9), Ok(ExitStatus::Signal(9)));
    assert_eq!(classify_status(0x7f), Err(Error::UnknownStatus));
}

#[test]
fn collector_error_message_texts() {
    assert_eq!(Error::WaitFailed.message(), "Error waiting for child completion");
    assert_eq!(Error::UnknownStatus.message(), "Child terminated with unknown status");
}
