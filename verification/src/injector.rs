//! The retry state machine that governs injecting a payload library into the
//! spawned game process. The machine owns every decision — when to retry,
//! when to escalate to the marker-module heuristic, and when to give up —
//! while the caller performs the OS work an action names and feeds back what
//! happened.

use vstd::prelude::*;
use vstd::string::*;

use crate::constants::INJECTION_MAX_RETRIES;
use crate::errors::LauncherError;

verus! {

/// Where one injection attempt stands.
#[derive(Clone, Copy, PartialEq, Eq, Structural, Debug)]
pub enum InjectorPhase {
    /// Injection attempts are being made.
    Attempting,
    /// Retries are exhausted once; polling the process's module list for the
    /// marker module that signals the process can accept injection.
    WaitingForMarker,
    /// The payload is in; terminal.
    Succeeded,
    /// The policy is exhausted; terminal.
    Failed,
}

/// What the caller must do next.
#[derive(Clone, Copy, PartialEq, Eq, Structural, Debug)]
pub enum InjectorAction {
    /// Attempt the injection now.
    Inject,
    /// Sleep the fixed delay, then attempt the injection again.
    SleepThenInject,
    /// Sleep the fixed delay, then poll the process's loaded modules.
    SleepThenPoll,
    /// Report success to the caller.
    ReportSuccess,
    /// Report an `Injection` failure to the caller.
    ReportFailure,
}

/// One payload's injection into one process: the retry counter of the
/// current cycle and whether the marker-wait escalation has already been
/// spent. The escalation can be spent only once, so the machine cannot
/// alternate between retrying and marker-waiting forever.
pub struct InjectionAttempt {
    pub pid: u32,
    pub payload_path: String,
    pub retries_used: u32,
    pub waiting_for_marker_module: bool,
    pub phase: InjectorPhase,
}

impl InjectionAttempt {
    /// The machine's invariant: while attempts are being made, the counter
    /// has room for the current cycle.
    pub open spec fn wf(self) -> bool {
        self.phase is Attempting ==> self.retries_used < INJECTION_MAX_RETRIES
    }

    /// A fresh attempt for one payload: first cycle, escalation unspent,
    /// ready for the first injection.
    pub fn new(pid: u32, payload_path: String) -> (r: Self)
        ensures
            r.pid == pid,
            r.payload_path == payload_path,
            r.retries_used == 0,
            !r.waiting_for_marker_module,
            r.phase is Attempting,
            r.wf(),
    {
        InjectionAttempt {
            pid,
            payload_path,
            retries_used: 0,
            waiting_for_marker_module: false,
            phase: InjectorPhase::Attempting,
        }
    }

    /// The state after one failed injection attempt: one more retry if the
    /// cycle has room; otherwise escalate to marker-wait if that is still
    /// unspent, else fail terminally.
    pub open spec fn spec_after_failure(s: Self) -> Self {
        if s.retries_used + 1 < INJECTION_MAX_RETRIES {
            Self { retries_used: (s.retries_used + 1) as u32, ..s }
        } else if !s.waiting_for_marker_module {
            Self {
                retries_used: (s.retries_used + 1) as u32,
                phase: InjectorPhase::WaitingForMarker,
                ..s
            }
        } else {
            Self { retries_used: (s.retries_used + 1) as u32, phase: InjectorPhase::Failed, ..s }
        }
    }

    /// The action that follows one failed injection attempt.
    pub open spec fn spec_action_after_failure(s: Self) -> InjectorAction {
        if s.retries_used + 1 < INJECTION_MAX_RETRIES {
            InjectorAction::SleepThenInject
        } else if !s.waiting_for_marker_module {
            InjectorAction::SleepThenPoll
        } else {
            InjectorAction::ReportFailure
        }
    }

    /// Feeds the machine the outcome of one injection attempt. Success is
    /// terminal; a failure sleeps and retries until the cycle's retries are
    /// spent, then either escalates to marker-wait (first cycle) or fails
    /// terminally (the cycle after the marker was seen).
    pub fn on_attempt_result(&mut self, success: bool) -> (a: InjectorAction)
        requires
            old(self).phase is Attempting,
            old(self).wf(),
        ensures
            success ==> *final(self) == (Self {
                phase: InjectorPhase::Succeeded,
                ..*old(self)
            }) && a == InjectorAction::ReportSuccess,
            !success ==> *final(self) == Self::spec_after_failure(*old(self)) && a
                == Self::spec_action_after_failure(*old(self)),
            final(self).wf(),
    {
        if success {
            self.phase = InjectorPhase::Succeeded;
            return InjectorAction::ReportSuccess;
        }
        self.retries_used = self.retries_used + 1;
        if self.retries_used < INJECTION_MAX_RETRIES {
            InjectorAction::SleepThenInject
        } else if !self.waiting_for_marker_module {
            self.phase = InjectorPhase::WaitingForMarker;
            InjectorAction::SleepThenPoll
        } else {
            self.phase = InjectorPhase::Failed;
            InjectorAction::ReportFailure
        }
    }

    /// Feeds the machine one look at the process's loaded modules. Once the
    /// marker module is seen, a single fresh retry cycle begins with the
    /// escalation marked spent; until then the machine keeps polling.
    pub fn on_modules_polled(&mut self, marker_seen: bool) -> (a: InjectorAction)
        requires
            old(self).phase is WaitingForMarker,
        ensures
            marker_seen ==> *final(self) == (Self {
                retries_used: 0,
                waiting_for_marker_module: true,
                phase: InjectorPhase::Attempting,
                ..*old(self)
            }) && a == InjectorAction::Inject,
            !marker_seen ==> *final(self) == *old(self) && a == InjectorAction::SleepThenPoll,
            final(self).wf(),
    {
        if marker_seen {
            self.retries_used = 0;
            self.waiting_for_marker_module = true;
            self.phase = InjectorPhase::Attempting;
            InjectorAction::Inject
        } else {
            InjectorAction::SleepThenPoll
        }
    }
}

/// Whether the marker module's name stands somewhere in a module path.
pub open spec fn spec_has_marker(p: Seq<char>) -> bool {
    exists|j: int| 0 <= j && j + 6 <= p.len() && #[trigger] p.subrange(j, j + 6) == "vorbis"@
}

/// Whether the module path holds the marker module's name.
fn has_marker(s: &str) -> (r: bool)
    ensures
        r == spec_has_marker(s@),
{
    proof {
        reveal_strlit("vorbis");
    }
    let n = s.unicode_len();
    if n < 6 {
        return false;
    }
    let mut j: usize = 0;
    while j <= n - 6
        invariant
            0 <= j <= n - 5,
            n == s@.len(),
            n >= 6,
            "vorbis"@ == seq!['v', 'o', 'r', 'b', 'i', 's'],
            forall|k: int| 0 <= k < j ==> #[trigger] s@.subrange(k, k + 6) != "vorbis"@,
        decreases n - j,
    {
        if s.get_char(j) == 'v' && s.get_char(j + 1) == 'o' && s.get_char(j + 2) == 'r'
            && s.get_char(j + 3) == 'b' && s.get_char(j + 4) == 'i' && s.get_char(j + 5) == 's' {
            proof {
                assert(s@.subrange(j as int, j as int + 6) =~= "vorbis"@);
            }
            return true;
        }
        proof {
            assert(s@.subrange(j as int, j as int + 6) != "vorbis"@) by {
                if s@.subrange(j as int, j as int + 6) == "vorbis"@ {
                    assert(s@.subrange(j as int, j as int + 6)[0] == s@[j as int]);
                    assert(s@.subrange(j as int, j as int + 6)[1] == s@[j as int + 1]);
                    assert(s@.subrange(j as int, j as int + 6)[2] == s@[j as int + 2]);
                    assert(s@.subrange(j as int, j as int + 6)[3] == s@[j as int + 3]);
                    assert(s@.subrange(j as int, j as int + 6)[4] == s@[j as int + 4]);
                    assert(s@.subrange(j as int, j as int + 6)[5] == s@[j as int + 5]);
                }
            }
        }
        j = j + 1;
    }
    false
}

/// Whether any loaded module's path names the marker module: the heuristic
/// sign that the spawned process has started far enough to accept injection.
pub fn marker_module_present(paths: &Vec<String>) -> (r: bool)
    ensures
        r == exists|i: int|
            0 <= i < paths.deep_view().len() && spec_has_marker(#[trigger] paths.deep_view()[i]),
{
    let n = paths.len();
    let mut i: usize = 0;
    while i < n
        invariant
            0 <= i <= n,
            n == paths@.len(),
            forall|k: int| 0 <= k < i ==> !spec_has_marker(#[trigger] paths.deep_view()[k]),
        decreases n - i,
    {
        if has_marker(paths[i].as_str()) {
            proof {
                assert(spec_has_marker(paths.deep_view()[i as int]));
            }
            return true;
        }
        i = i + 1;
    }
    false
}

/// Whether the multiplayer-extension payload is due: only once the base
/// compatibility payload went in — its hooks must already be in place — and
/// only when an extension payload was given at all.
pub fn extension_payload_due(base_succeeded: bool, extension_path: &str) -> (r: bool)
    ensures
        r == (base_succeeded && extension_path@.len() > 0),
{
    base_succeeded && !extension_path.is_empty()
}

/// The error that terminal injection failure surfaces, carrying the OS
/// message of the last failed attempt.
pub fn injection_failure_error(os_message: &str) -> (r: LauncherError)
    ensures
        r is Injection,
        r.spec_message() == "DLL injection failed: "@ + os_message@,
{
    LauncherError::Injection(String::from_str("DLL injection failed: ").concat(os_message))
}

/// The state after `k` consecutive failed attempts.
pub open spec fn spec_run_failures(s: InjectionAttempt, k: nat) -> InjectionAttempt
    decreases k,
{
    if k == 0 {
        s
    } else {
        spec_run_failures(InjectionAttempt::spec_after_failure(s), (k - 1) as nat)
    }
}

/// A retry cycle that starts fresh makes exactly `INJECTION_MAX_RETRIES`
/// attempts against a payload that always fails: each of the first
/// `INJECTION_MAX_RETRIES - 1` failures is answered with a delayed retry,
/// and the last failure of the cycle ends it — escalating into marker-wait
/// when the escalation is unspent, and failing terminally when it was
/// already spent. No attempt beyond the cycle's quota happens.
pub proof fn lemma_retry_cycle(s: InjectionAttempt, k: nat)
    requires
        s.phase is Attempting,
        s.retries_used == 0,
        k <= INJECTION_MAX_RETRIES,
    ensures
        k < INJECTION_MAX_RETRIES ==> spec_run_failures(s, k) == (InjectionAttempt {
            retries_used: k as u32,
            ..s
        }),
        k < INJECTION_MAX_RETRIES ==> InjectionAttempt::spec_action_after_failure(
            spec_run_failures(s, k),
        ) == (if k + 1 < INJECTION_MAX_RETRIES {
            InjectorAction::SleepThenInject
        } else if !s.waiting_for_marker_module {
            InjectorAction::SleepThenPoll
        } else {
            InjectorAction::ReportFailure
        }),
        k == INJECTION_MAX_RETRIES && !s.waiting_for_marker_module ==> spec_run_failures(s, k)
            == (InjectionAttempt {
            retries_used: k as u32,
            phase: InjectorPhase::WaitingForMarker,
            ..s
        }),
        k == INJECTION_MAX_RETRIES && s.waiting_for_marker_module ==> spec_run_failures(s, k)
            == (InjectionAttempt { retries_used: k as u32, phase: InjectorPhase::Failed, ..s }),
{
    if k < INJECTION_MAX_RETRIES {
        lemma_cycle_state(s, k);
    } else {
        lemma_cycle_state(s, (k - 1) as nat);
        lemma_run_failures_shift(s, (k - 1) as nat);
    }
}

/// While a fresh cycle still has room, `k` failures only advance the retry
/// counter to `k`.
proof fn lemma_cycle_state(s: InjectionAttempt, k: nat)
    requires
        s.phase is Attempting,
        s.retries_used == 0,
        k < INJECTION_MAX_RETRIES,
    ensures
        spec_run_failures(s, k) == (InjectionAttempt { retries_used: k as u32, ..s }),
    decreases k,
{
    if k > 0 {
        lemma_cycle_state(s, (k - 1) as nat);
        lemma_run_failures_shift(s, (k - 1) as nat);
    }
}

/// Unrolls one failure off the end of a failure run.
proof fn lemma_run_failures_shift(s: InjectionAttempt, k: nat)
    ensures
        spec_run_failures(s, k + 1) == InjectionAttempt::spec_after_failure(
            spec_run_failures(s, k),
        ),
    decreases k,
{
    if k > 0 {
        lemma_run_failures_shift(InjectionAttempt::spec_after_failure(s), (k - 1) as nat);
        assert(spec_run_failures(s, k + 1) == spec_run_failures(
            InjectionAttempt::spec_after_failure(s),
            k,
        ));
        assert(spec_run_failures(s, k) == spec_run_failures(
            InjectionAttempt::spec_after_failure(s),
            (k - 1) as nat,
        ));
    }
}

/// The full escalation story for a payload that always fails: the first
/// cycle makes exactly `INJECTION_MAX_RETRIES` attempts and enters
/// marker-wait; once the marker module is observed, exactly one more cycle
/// of `INJECTION_MAX_RETRIES` attempts runs; its last failure is terminal,
/// so the machine never alternates back into marker-wait.
pub proof fn lemma_no_infinite_alternation(s0: InjectionAttempt)
    requires
        s0.phase is Attempting,
        s0.retries_used == 0,
        !s0.waiting_for_marker_module,
    ensures
        spec_run_failures(s0, INJECTION_MAX_RETRIES as nat).phase is WaitingForMarker,
        ({
            let resumed = InjectionAttempt {
                retries_used: 0,
                waiting_for_marker_module: true,
                phase: InjectorPhase::Attempting,
                ..spec_run_failures(s0, INJECTION_MAX_RETRIES as nat)
            };
            spec_run_failures(resumed, INJECTION_MAX_RETRIES as nat).phase is Failed
        }),
{
    lemma_retry_cycle(s0, INJECTION_MAX_RETRIES as nat);
    let resumed = InjectionAttempt {
        retries_used: 0,
        waiting_for_marker_module: true,
        phase: InjectorPhase::Attempting,
        ..spec_run_failures(s0, INJECTION_MAX_RETRIES as nat)
    };
    lemma_retry_cycle(resumed, INJECTION_MAX_RETRIES as nat);
}

} // verus!
