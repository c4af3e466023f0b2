use vstd::prelude::*;
use vstd::string::StringExecFns;

verus! {

/// The decimal digit for `d`, which is below ten.
pub open spec fn digit_char(d: nat) -> char {
    if d == 0 {
        '0'
    } else if d == 1 {
        '1'
    } else if d == 2 {
        '2'
    } else if d == 3 {
        '3'
    } else if d == 4 {
        '4'
    } else if d == 5 {
        '5'
    } else if d == 6 {
        '6'
    } else if d == 7 {
        '7'
    } else if d == 8 {
        '8'
    } else {
        '9'
    }
}

/// `n` written in decimal, most significant digit first, without leading zeros.
pub open spec fn decimal(n: nat) -> Seq<char>
    decreases n,
{
    if n < 10 {
        seq![digit_char(n)]
    } else {
        decimal(n / 10).push(digit_char(n % 10))
    }
}

fn digit_str(d: u32) -> (r: &'static str)
    requires
        d < 10,
    ensures
        r@ == seq![digit_char(d as nat)],
{
    proof {
        reveal_strlit("0");
        reveal_strlit("1");
        reveal_strlit("2");
        reveal_strlit("3");
        reveal_strlit("4");
        reveal_strlit("5");
        reveal_strlit("6");
        reveal_strlit("7");
        reveal_strlit("8");
        reveal_strlit("9");
    }
    if d == 0 {
        "0"
    } else if d == 1 {
        "1"
    } else if d == 2 {
        "2"
    } else if d == 3 {
        "3"
    } else if d == 4 {
        "4"
    } else if d == 5 {
        "5"
    } else if d == 6 {
        "6"
    } else if d == 7 {
        "7"
    } else if d == 8 {
        "8"
    } else {
        "9"
    }
}

/// Appends `n` in decimal to `s`.
pub fn push_decimal(s: &mut String, n: u32)
    ensures
        final(s)@ == old(s)@ + decimal(n as nat),
    decreases n,
{
    if n >= 10 {
        push_decimal(s, n / 10);
    }
    s.append(digit_str(n % 10));
    assert(s@ =~= old(s)@ + decimal(n as nat));
}

/// `n` in decimal.
pub fn to_decimal(n: u32) -> (r: String)
    ensures
        r@ == decimal(n as nat),
{
    let mut s = String::new();
    push_decimal(&mut s, n);
    assert(s@ =~= decimal(n as nat));
    s
}

/// Opening of the report, up to the signal name.
pub const REPORT_HEAD: &'static str = "\n\
    ╔══════════════════════════════════════════════════════════╗\n\
    ║  CAUGHT ";

/// Text between the signal name and the first process id.
pub const REPORT_AFTER_NAME: &'static str = " - Process paused for debugger attachment\n\
    ╠══════════════════════════════════════════════════════════╣\n\
    ║  PID: ";

/// Text between the process id and the `lldb` attach command's process id.
pub const REPORT_AFTER_PID: &'static str = "\n\
    ║                                                          ║\n\
    ║  Attach debugger:                                        ║\n\
    ║    lldb -p ";

/// Text between the `lldb` and the `gdb` attach commands' process ids.
pub const REPORT_AFTER_LLDB: &'static str = "                                      \n\
    ║    gdb -p ";

/// The rest of the report: debugger commands and the prompt.
pub const REPORT_TAIL: &'static str = "                                       \n\
    ║                                                          ║\n\
    ║  Then in debugger:                                       ║\n\
    ║    bt          # backtrace                               ║\n\
    ║    f 0         # select frame                            ║\n\
    ║    di -p       # disassemble at PC                       ║\n\
    ║    reg read    # show registers                          ║\n\
    ╠══════════════════════════════════════════════════════════╣\n\
    ║  Press Enter to continue (will crash)...                 ║\n\
    ╚══════════════════════════════════════════════════════════╝\n\
    ";

/// The block printed when the handler pauses for signal name `name` in
/// process `pid`: the name, the process id, and how to attach a debugger.
pub open spec fn report_text(name: Seq<char>, pid: nat) -> Seq<char> {
    REPORT_HEAD@ + name + REPORT_AFTER_NAME@ + decimal(pid) + REPORT_AFTER_PID@ + decimal(pid)
        + REPORT_AFTER_LLDB@ + decimal(pid) + REPORT_TAIL@
}

/// Builds the pause report for signal name `name` in process `pid`.
pub fn crash_report(name: &str, pid: u32) -> (r: String)
    ensures
        r@ == report_text(name@, pid as nat),
{
    let mut s = String::from_str(REPORT_HEAD);
    s.append(name);
    s.append(REPORT_AFTER_NAME);
    push_decimal(&mut s, pid);
    s.append(REPORT_AFTER_PID);
    push_decimal(&mut s, pid);
    s.append(REPORT_AFTER_LLDB);
    push_decimal(&mut s, pid);
    s.append(REPORT_TAIL);
    s
}

/// Printed once the handlers are registered, before the process id.
pub const INSTALL_NOTICE_PREFIX: &'static str = "[sigsegv_handler] Installed crash handlers for PID ";

/// The single guidance line printed where fatal signals cannot be intercepted.
pub const UNSUPPORTED_NOTICE: &'static str =
    "[sigsegv_handler] Not available on this platform, use cdb/WinDbg instead";

/// The line printed after installing the handlers in process `pid`.
pub fn install_notice(pid: u32) -> (r: String)
    ensures
        r@ == INSTALL_NOTICE_PREFIX@ + decimal(pid as nat),
{
    let mut s = String::from_str(INSTALL_NOTICE_PREFIX);
    push_decimal(&mut s, pid);
    s
}

/// The guidance printed instead of installing anything, on a platform
/// without signal delivery: exactly one line, with no line break inside.
pub fn unsupported_notice() -> (r: String)
    ensures
        r@ == UNSUPPORTED_NOTICE@,
        r@.len() > 0,
        forall|i: int| 0 <= i < r@.len() ==> r@[i] != '\n',
{
    proof {
        reveal_strlit("[sigsegv_handler] Not available on this platform, use cdb/WinDbg instead");
    }
    String::from_str(UNSUPPORTED_NOTICE)
}

} // verus!
