use sandbox_core::signals::strsignal;

#[test]
fn known_signals_have_names() {
    let kill = strsignal(9).unwrap();
    assert_eq!(kill, "SIGKILL");
    let hup = strsignal(1).unwrap();
    assert!(!hup.is_empty());
    assert_eq!(hup, "SIGHUP");
    // 24 is SIGXCPU, the signal a CPU-time rlimit delivers.
    let xcpu = strsignal(24).unwrap();
    assert!(!xcpu.is_empty());
    assert_eq!(xcpu, "SIGXCPU");
    let sys = strsignal(31).unwrap();
    assert_eq!(sys, "SIGSYS");
}

#[test]
fn out_of_range_numbers_yield_no_value() {
    assert_eq!(strsignal(0), None);
    assert_eq!(strsignal(-1), None);
    assert_eq!(strsignal(-1000), None);
    assert_eq!(strsignal(32), None);
    assert_eq!(strsignal(1000), None);
    assert_eq!(strsignal(i32::MAX), None);
    assert_eq!(strsignal(i32::MIN), None);
}
