use vstd::prelude::*;

verus! {

/// The four fatal conditions that the handler is registered for.
#[derive(Clone, Copy, Debug, PartialEq, Eq, Structural)]
pub enum SignalKind {
    /// Segmentation violation.
    Segv,
    /// Bus error.
    Bus,
    /// Floating-point exception.
    Fpe,
    /// Illegal instruction.
    Ill,
}

/// The name printed for a signal that is none of the four registered kinds.
pub open spec fn unknown_name() -> Seq<char> {
    seq!['U', 'N', 'K', 'N', 'O', 'W', 'N']
}

/// The display name of each kind.
pub open spec fn kind_name(k: SignalKind) -> Seq<char> {
    match k {
        SignalKind::Segv => seq!['S', 'I', 'G', 'S', 'E', 'G', 'V'],
        SignalKind::Bus => seq!['S', 'I', 'G', 'B', 'U', 'S'],
        SignalKind::Fpe => seq!['S', 'I', 'G', 'F', 'P', 'E'],
        SignalKind::Ill => seq!['S', 'I', 'G', 'I', 'L', 'L'],
    }
}

impl SignalKind {

    /// The display name of this kind.
    pub fn name(&self) -> (r: &'static str)
        ensures
            r@ == kind_name(*self),
    {
        match self {
            SignalKind::Segv => {
                proof {
                    reveal_strlit("SIGSEGV");
                }
                "SIGSEGV"
            },
            SignalKind::Bus => {
                proof {
                    reveal_strlit("SIGBUS");
                }
                "SIGBUS"
            },
            SignalKind::Fpe => {
                proof {
                    reveal_strlit("SIGFPE");
                }
                "SIGFPE"
            },
            SignalKind::Ill => {
                proof {
                    reveal_strlit("SIGILL");
                }
                "SIGILL"
            },
        }
    }
}

/// The platform's numbers for the four fatal signals.
#[derive(Clone, Copy, Debug, PartialEq, Eq, Structural)]
pub struct FatalSignals {
    pub segv: i32,
    pub bus: i32,
    pub fpe: i32,
    pub ill: i32,
}

/// Relies on the constants `libc::SIGSEGV`, `libc::SIGBUS`, `libc::SIGFPE`
/// and `libc::SIGILL`: on every platform that libc defines them for they are
/// positive and pairwise distinct (their values differ between platforms).
#[verifier::external_body]
fn libc_fatal_signals() -> (r: FatalSignals)
    ensures
        r.wf(),
{
    FatalSignals { segv: libc::SIGSEGV, bus: libc::SIGBUS, fpe: libc::SIGFPE, ill: libc::SIGILL }
}

impl FatalSignals {
    /// Signal numbers are positive, and no two kinds share one.
    pub open spec fn wf(&self) -> bool {
        &&& self.segv > 0
        &&& self.bus > 0
        &&& self.fpe > 0
        &&& self.ill > 0
        &&& self.segv != self.bus
        &&& self.segv != self.fpe
        &&& self.segv != self.ill
        &&& self.bus != self.fpe
        &&& self.bus != self.ill
        &&& self.fpe != self.ill
    }

    /// The number that this table gives to kind `k`.
    pub open spec fn number_of(&self, k: SignalKind) -> i32 {
        match k {
            SignalKind::Segv => self.segv,
            SignalKind::Bus => self.bus,
            SignalKind::Fpe => self.fpe,
            SignalKind::Ill => self.ill,
        }
    }

    /// The kind that signal number `sig` stands for, if any.
    pub open spec fn kind_of(&self, sig: i32) -> Option<SignalKind> {
        if sig == self.segv {
            Some(SignalKind::Segv)
        } else if sig == self.bus {
            Some(SignalKind::Bus)
        } else if sig == self.fpe {
            Some(SignalKind::Fpe)
        } else if sig == self.ill {
            Some(SignalKind::Ill)
        } else {
            None
        }
    }

    /// The name shown for signal number `sig`.
    pub open spec fn name_of(&self, sig: i32) -> Seq<char> {
        match self.kind_of(sig) {
            Some(k) => kind_name(k),
            None => unknown_name(),
        }
    }

    /// The numbers of the host platform, as libc defines them.
    pub fn native() -> (r: FatalSignals)
        ensures
            r.wf(),
    {
        libc_fatal_signals()
    }

    /// The number of kind `k` on this table.
    pub fn number(&self, k: SignalKind) -> (r: i32)
        ensures
            r == self.number_of(k),
    {
        match k {
            SignalKind::Segv => self.segv,
            SignalKind::Bus => self.bus,
            SignalKind::Fpe => self.fpe,
            SignalKind::Ill => self.ill,
        }
    }

    /// Which registered kind `sig` is; `None` for any other number.
    pub fn classify(&self, sig: i32) -> (r: Option<SignalKind>)
        ensures
            r == self.kind_of(sig),
    {
        if sig == self.segv {
            Some(SignalKind::Segv)
        } else if sig == self.bus {
            Some(SignalKind::Bus)
        } else if sig == self.fpe {
            Some(SignalKind::Fpe)
        } else if sig == self.ill {
            Some(SignalKind::Ill)
        } else {
            None
        }
    }

    /// The display name of `sig`: the kind's name, or `UNKNOWN`.
    pub fn signal_name(&self, sig: i32) -> (r: &'static str)
        ensures
            r@ == self.name_of(sig),
    {
        match self.classify(sig) {
            Some(k) => k.name(),
            None => {
                proof {
                    reveal_strlit("UNKNOWN");
                }
                "UNKNOWN"
            },
        }
    }
}

/// On a well-formed table, each kind's number is classified as that kind
/// again, so the handler names every registered signal correctly.
pub proof fn lemma_classify_number(t: FatalSignals, k: SignalKind)
    requires
        t.wf(),
    ensures
        t.kind_of(t.number_of(k)) == Some(k),
        t.name_of(t.number_of(k)) == kind_name(k),
{
}

/// A number that belongs to none of the four kinds is named `UNKNOWN`.
pub proof fn lemma_unregistered_is_unknown(t: FatalSignals, sig: i32)
    requires
        forall|k: SignalKind| t.number_of(k) != sig,
    ensures
        t.kind_of(sig) is None,
        t.name_of(sig) == unknown_name(),
{
    assert(t.number_of(SignalKind::Segv) != sig);
    assert(t.number_of(SignalKind::Bus) != sig);
    assert(t.number_of(SignalKind::Fpe) != sig);
    assert(t.number_of(SignalKind::Ill) != sig);
}

} // verus!
