use vstd::prelude::*;
use crate::signals::{FatalSignals, SignalKind, kind_name, unknown_name};
use crate::text::{crash_report, decimal, report_text, REPORT_HEAD, REPORT_AFTER_NAME};

verus! {

/// What the signal handler does once it has swapped the process-wide
/// "already caught" flag to true.
pub enum Response {
    /// The flag was already set: terminate at once, printing and reading nothing.
    Abort,
    /// First fault: print `report`, then wait for one byte of input.
    Pause { report: String },
}

impl View for Response {
    /// `None` for an abort, the report's text for a pause.
    type V = Option<Seq<char>>;

    open spec fn view(&self) -> Option<Seq<char>> {
        match self {
            Response::Abort => None,
            Response::Pause { report } => Some(report@),
        }
    }
}

/// The response to signal `sig` in process `pid`, where `caught` is the
/// value the flag held before the handler set it.
pub open spec fn response_for(caught: bool, t: FatalSignals, sig: i32, pid: nat) -> Option<
    Seq<char>,
> {
    if caught {
        None
    } else {
        Some(report_text(t.name_of(sig), pid))
    }
}

/// The responses to a run of signals `sigs`, delivered one after another
/// to a process whose flag starts as `caught`. Every handler entry sets the
/// flag, and nothing clears it.
pub open spec fn responses(caught: bool, t: FatalSignals, sigs: Seq<i32>, pid: nat) -> Seq<
    Option<Seq<char>>,
>
    decreases sigs.len(),
{
    if sigs.len() == 0 {
        Seq::empty()
    } else {
        seq![response_for(caught, t, sigs[0], pid)] + responses(true, t, sigs.drop_first(), pid)
    }
}

/// `t` occurs in `s` starting at position `i`.
pub open spec fn occurs_at(s: Seq<char>, t: Seq<char>, i: int) -> bool {
    &&& 0 <= i
    &&& i + t.len() <= s.len()
    &&& s.subrange(i, i + t.len()) == t
}

/// `t` occurs somewhere in `s`.
pub open spec fn occurs_in(s: Seq<char>, t: Seq<char>) -> bool {
    exists|i: int| occurs_at(s, t, i)
}

/// Decides the handler's response. `already_caught` is what the atomic
/// swap of the process-wide flag to true returned.
pub fn respond(already_caught: bool, signals: &FatalSignals, sig: i32, pid: u32) -> (r: Response)
    ensures
        r@ == response_for(already_caught, *signals, sig, pid as nat),
        already_caught <==> r is Abort,
{
    if already_caught {
        Response::Abort
    } else {
        let name = signals.signal_name(sig);
        Response::Pause { report: crash_report(name, pid) }
    }
}

/// The report for signal name `name` shows that name and the process id.
pub proof fn lemma_report_shows_name_and_pid(name: Seq<char>, pid: nat)
    ensures
        occurs_in(report_text(name, pid), name),
        occurs_in(report_text(name, pid), decimal(pid)),
{
    let s = report_text(name, pid);
    let h: int = REPORT_HEAD@.len() as int;
    let p: int = h + name.len() + REPORT_AFTER_NAME@.len();
    assert(s.subrange(h, h + name.len()) =~= name);
    assert(s.subrange(p, p + decimal(pid).len()) =~= decimal(pid));
    assert(occurs_at(s, name, h));
    assert(occurs_at(s, decimal(pid), p));
}

/// First fault of any of the four registered kinds: the handler pauses,
/// and its report names that kind and shows the process id.
pub proof fn lemma_registered_signal_pauses(t: FatalSignals, k: SignalKind, pid: nat)
    requires
        t.wf(),
    ensures
        response_for(false, t, t.number_of(k), pid) == Some(report_text(kind_name(k), pid)),
        occurs_in(report_text(kind_name(k), pid), kind_name(k)),
        occurs_in(report_text(kind_name(k), pid), decimal(pid)),
{
    crate::signals::lemma_classify_number(t, k);
    lemma_report_shows_name_and_pid(kind_name(k), pid);
}

/// A signal that is none of the four kinds is reported as `UNKNOWN`, on
/// the ordinary pause path.
pub proof fn lemma_unknown_signal_pauses(t: FatalSignals, sig: i32, pid: nat)
    requires
        forall|k: SignalKind| t.number_of(k) != sig,
    ensures
        response_for(false, t, sig, pid) == Some(report_text(unknown_name(), pid)),
{
    crate::signals::lemma_unregistered_is_unknown(t, sig);
}

/// Once the flag is set, every further fault aborts, whatever the signal.
pub proof fn lemma_caught_always_aborts(t: FatalSignals, sigs: Seq<i32>, pid: nat)
    ensures
        responses(true, t, sigs, pid).len() == sigs.len(),
        forall|i: int| 0 <= i < sigs.len() ==> #[trigger] responses(true, t, sigs, pid)[i] is None,
    decreases sigs.len(),
{
    if sigs.len() > 0 {
        lemma_caught_always_aborts(t, sigs.drop_first(), pid);
        let rest = responses(true, t, sigs.drop_first(), pid);
        assert forall|i: int| 0 <= i < sigs.len() implies #[trigger] responses(
            true,
            t,
            sigs,
            pid,
        )[i] is None by {
            if i > 0 {
                assert(responses(true, t, sigs, pid)[i] == rest[i - 1]);
            }
        }
    }
}

/// First wins: from a fresh process, of any run of faults only the first
/// pauses, with the report for its own signal; every later one aborts.
pub proof fn lemma_first_fault_wins(t: FatalSignals, sigs: Seq<i32>, pid: nat)
    requires
        sigs.len() > 0,
    ensures
        responses(false, t, sigs, pid).len() == sigs.len(),
        responses(false, t, sigs, pid)[0] == Some(report_text(t.name_of(sigs[0]), pid)),
        forall|i: int|
            1 <= i < sigs.len() ==> #[trigger] responses(false, t, sigs, pid)[i] is None,
{
    let rest = sigs.drop_first();
    lemma_caught_always_aborts(t, rest, pid);
    assert forall|i: int| 1 <= i < sigs.len() implies #[trigger] responses(
        false,
        t,
        sigs,
        pid,
    )[i] is None by {
        assert(responses(false, t, sigs, pid)[i] == responses(true, t, rest, pid)[i - 1]);
    }
}

} // verus!
