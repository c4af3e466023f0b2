use sigsegv_handler::handler::{respond, Response};
use sigsegv_handler::signals::{FatalSignals, SignalKind};
use sigsegv_handler::text::{crash_report, install_notice, to_decimal, unsupported_notice};
use std::sync::atomic::{AtomicBool, Ordering};

fn expected_report(name: &str, pid: u32) -> String {
    let lines = [
        String::new(),
        "╔══════════════════════════════════════════════════════════╗".to_string(),
        format!("║  CAUGHT {name} - Process paused for debugger attachment"),
        "╠══════════════════════════════════════════════════════════╣".to_string(),
        format!("║  PID: {}", pid),
        "║                                                          ║".to_string(),
        "║  Attach debugger:                                        ║".to_string(),
        format!("║    lldb -p {}                                      ", pid),
        format!("║    gdb -p {}                                       ", pid),
        "║                                                          ║".to_string(),
        "║  Then in debugger:                                       ║".to_string(),
        "║    bt          # backtrace                               ║".to_string(),
        "║    f 0         # select frame                            ║".to_string(),
        "║    di -p       # disassemble at PC                       ║".to_string(),
        "║    reg read    # show registers                          ║".to_string(),
        "╠══════════════════════════════════════════════════════════╣".to_string(),
        "║  Press Enter to continue (will crash)...                 ║".to_string(),
        "╚══════════════════════════════════════════════════════════╝".to_string(),
    ];
    let mut s = lines.join("\n");
    s.push('\n');
    s
}

fn report_of(r: Response) -> String {
    match r {
        Response::Pause { report } => report,
        Response::Abort => panic!("expected a pause, got an abort"),
    }
}

#[test]
fn native_numbers_match_libc() {
    let t = FatalSignals::native();
    assert_eq!(t.segv, libc::SIGSEGV);
    assert_eq!(t.bus, libc::SIGBUS);
    assert_eq!(t.fpe, libc::SIGFPE);
    assert_eq!(t.ill, libc::SIGILL);
    let all = [t.segv, t.bus, t.fpe, t.ill];
    for i in 0..4 {
        assert!(all[i] > 0);
        for j in 0..4 {
            if i != j {
                assert_ne!(all[i], all[j]);
            }
        }
    }
}

#[test]
fn each_registered_kind_is_named() {
    let t = FatalSignals::native();
    assert_eq!(t.signal_name(libc::SIGSEGV), "SIGSEGV");
    assert_eq!(t.signal_name(libc::SIGBUS), "SIGBUS");
    assert_eq!(t.signal_name(libc::SIGFPE), "SIGFPE");
    assert_eq!(t.signal_name(libc::SIGILL), "SIGILL");
    for k in [SignalKind::Segv, SignalKind::Bus, SignalKind::Fpe, SignalKind::Ill] {
        assert_eq!(t.classify(t.number(k)), Some(k));
    }
}

#[test]
fn unknown_signal_is_named_unknown() {
    let t = FatalSignals::native();
    assert_eq!(t.classify(libc::SIGTERM), None);
    assert_eq!(t.signal_name(libc::SIGTERM), "UNKNOWN");
    assert_eq!(t.signal_name(0), "UNKNOWN");
    assert_eq!(t.signal_name(-1), "UNKNOWN");
    let r = respond(false, &t, 9999, 77);
    assert_eq!(report_of(r), expected_report("UNKNOWN", 77));
}

#[test]
fn custom_table_classifies_by_its_numbers() {
    let t = FatalSignals { segv: 11, bus: 10, fpe: 8, ill: 4 };
    assert_eq!(t.classify(10), Some(SignalKind::Bus));
    assert_eq!(t.classify(7), None);
    assert_eq!(t.signal_name(4), "SIGILL");
    assert_eq!(t.number(SignalKind::Fpe), 8);
}

#[test]
fn segv_first_fault_pauses_with_report() {
    let t = FatalSignals::native();
    let pid: u32 = 31337;
    let r = respond(false, &t, libc::SIGSEGV, pid);
    let report = report_of(r);
    assert!(report.contains("SIGSEGV"));
    assert!(report.contains("PID: 31337"));
    assert!(report.contains("lldb -p 31337"));
    assert!(report.contains("gdb -p 31337"));
    assert_eq!(report, expected_report("SIGSEGV", pid));
}

#[test]
fn every_kind_pauses_on_first_fault() {
    let t = FatalSignals::native();
    for (sig, name) in [
        (libc::SIGSEGV, "SIGSEGV"),
        (libc::SIGBUS, "SIGBUS"),
        (libc::SIGFPE, "SIGFPE"),
        (libc::SIGILL, "SIGILL"),
    ] {
        let report = report_of(respond(false, &t, sig, 1234));
        assert_eq!(report, expected_report(name, 1234));
    }
}

#[test]
fn reentry_aborts() {
    let t = FatalSignals::native();
    assert!(matches!(respond(true, &t, libc::SIGSEGV, 5), Response::Abort));
    assert!(matches!(respond(true, &t, 12345, 5), Response::Abort));
}

#[test]
fn second_bus_error_aborts() {
    let caught = AtomicBool::new(false);
    let t = FatalSignals::native();
    let first = respond(caught.swap(true, Ordering::SeqCst), &t, libc::SIGBUS, 900);
    let second = respond(caught.swap(true, Ordering::SeqCst), &t, libc::SIGBUS, 900);
    assert_eq!(report_of(first), expected_report("SIGBUS", 900));
    assert!(matches!(second, Response::Abort));
    assert!(caught.load(Ordering::SeqCst));
}

#[test]
fn only_first_of_many_faults_pauses() {
    let caught = AtomicBool::new(false);
    let t = FatalSignals::native();
    let sigs = [libc::SIGILL, libc::SIGSEGV, libc::SIGFPE, 42, libc::SIGBUS];
    let mut pauses = 0;
    for (i, sig) in sigs.iter().enumerate() {
        match respond(caught.swap(true, Ordering::SeqCst), &t, *sig, 8) {
            Response::Pause { report } => {
                assert_eq!(i, 0);
                assert_eq!(report, expected_report("SIGILL", 8));
                pauses += 1;
            }
            Response::Abort => assert!(i > 0),
        }
    }
    assert_eq!(pauses, 1);
}

#[test]
fn decimal_digits() {
    assert_eq!(to_decimal(0), "0");
    assert_eq!(to_decimal(7), "7");
    assert_eq!(to_decimal(10), "10");
    assert_eq!(to_decimal(305), "305");
    assert_eq!(to_decimal(u32::MAX), "4294967295");
}

#[test]
fn report_for_given_name() {
    assert_eq!(crash_report("SIGFPE", 0), expected_report("SIGFPE", 0));
    assert_eq!(crash_report("X", 4294967295), expected_report("X", 4294967295));
}

#[test]
fn install_notice_shows_pid() {
    assert_eq!(install_notice(42), "[sigsegv_handler] Installed crash handlers for PID 42");
    assert_eq!(install_notice(0), "[sigsegv_handler] Installed crash handlers for PID 0");
}

#[test]
fn unsupported_notice_is_one_line() {
    let n = unsupported_notice();
    assert_eq!(n, "[sigsegv_handler] Not available on this platform, use cdb/WinDbg instead");
    assert_eq!(n.lines().count(), 1);
    assert!(!n.contains('\n'));
}
