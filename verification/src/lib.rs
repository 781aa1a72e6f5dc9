//! Application bootstrap harness: layered configuration, a level-filtered
//! buffered logging pipeline, and cooperative shutdown signalling, wired
//! together by a fixed startup/shutdown sequence.

use vstd::prelude::*;

pub mod config;
pub mod handler;
pub mod logging;

pub use handler::Signal;

verus! {

/// The phases of the bootstrap sequence, in their strict order. The
/// three setup phases can fail, and any failure there is fatal; once the
/// logger exists, the remaining phases always run, so that the guard is
/// released — and the buffered records flushed — before the process
/// returns.
#[derive(Clone, Copy, Debug, PartialEq, Eq, Structural)]
pub enum Phase {
    /// Load the layered configuration.
    LoadConfig,
    /// Build the root logger and its flush guard.
    BuildLogger,
    /// Install the interrupt handler.
    InstallSignal,
    /// Emit the startup record with the loaded configuration.
    LogStartup,
    /// Run the user's entry point.
    RunApp,
    /// Emit the shutdown record.
    LogShutdown,
    /// Release the guard: flush every buffered record.
    ReleaseGuard,
    /// The sequence finished; the user code's result is returned.
    Done,
    /// A setup step failed; the process aborts with a diagnostic.
    Aborted,
}

impl Phase {
    /// The phase that follows `self` when its step succeeded (`ok` true)
    /// or failed. Only the three setup steps consult the outcome: their
    /// failure aborts the bootstrap; every later step always proceeds.
    pub open spec fn next_spec(self, ok: bool) -> Phase {
        match self {
            Phase::LoadConfig => if ok {
                Phase::BuildLogger
            } else {
                Phase::Aborted
            },
            Phase::BuildLogger => if ok {
                Phase::InstallSignal
            } else {
                Phase::Aborted
            },
            Phase::InstallSignal => if ok {
                Phase::LogStartup
            } else {
                Phase::Aborted
            },
            Phase::LogStartup => Phase::RunApp,
            Phase::RunApp => Phase::LogShutdown,
            Phase::LogShutdown => Phase::ReleaseGuard,
            Phase::ReleaseGuard => Phase::Done,
            Phase::Done => Phase::Done,
            Phase::Aborted => Phase::Aborted,
        }
    }

    /// A terminal phase: nothing follows it.
    pub open spec fn is_terminal_spec(self) -> bool {
        self == Phase::Done || self == Phase::Aborted
    }

    /// Executable form of `is_terminal_spec`.
    pub fn is_terminal(&self) -> (r: bool)
        ensures
            r == self.is_terminal_spec(),
    {
        match self {
            Phase::Done => true,
            Phase::Aborted => true,
            _ => false,
        }
    }
}

/// Executable form of `Phase::next_spec`: the transition the bootstrap
/// driver takes after finishing the step of phase `p` with outcome `ok`.
pub fn next_phase(p: &Phase, ok: bool) -> (r: Phase)
    ensures
        r == p.next_spec(ok),
{
    match p {
        Phase::LoadConfig => if ok {
            Phase::BuildLogger
        } else {
            Phase::Aborted
        },
        Phase::BuildLogger => if ok {
            Phase::InstallSignal
        } else {
            Phase::Aborted
        },
        Phase::InstallSignal => if ok {
            Phase::LogStartup
        } else {
            Phase::Aborted
        },
        Phase::LogStartup => Phase::RunApp,
        Phase::RunApp => Phase::LogShutdown,
        Phase::LogShutdown => Phase::ReleaseGuard,
        Phase::ReleaseGuard => Phase::Done,
        Phase::Done => Phase::Done,
        Phase::Aborted => Phase::Aborted,
    }
}

/// The phases a bootstrap visits from `p`, taking step outcomes from
/// `oks` in order, until a terminal phase or the outcomes run out.
pub open spec fn run_from(p: Phase, oks: Seq<bool>) -> Seq<Phase>
    decreases oks.len(),
{
    if p.is_terminal_spec() || oks.len() == 0 {
        seq![p]
    } else {
        seq![p] + run_from(p.next_spec(oks[0]), oks.drop_first())
    }
}

/// Law: when the three setup steps succeed, the bootstrap visits exactly
/// the documented order — configuration, logger, signal, startup record,
/// user code, shutdown record, flush — and finishes.
pub proof fn lemma_bootstrap_order(oks: Seq<bool>)
    requires
        oks.len() >= 7,
        oks[0],
        oks[1],
        oks[2],
    ensures
        run_from(Phase::LoadConfig, oks) =~= seq![
            Phase::LoadConfig,
            Phase::BuildLogger,
            Phase::InstallSignal,
            Phase::LogStartup,
            Phase::RunApp,
            Phase::LogShutdown,
            Phase::ReleaseGuard,
            Phase::Done,
        ],
{
    reveal_with_fuel(run_from, 9);
    assert(oks.drop_first()[0] == oks[1]);
    assert(oks.drop_first().drop_first()[0] == oks[2]);
    assert(oks.drop_first().drop_first().drop_first().len() >= 4);
}

/// Law: a failure in any setup step aborts the bootstrap: the user code
/// never runs and the last phase is the abort.
pub proof fn lemma_setup_failure_skips_app(oks: Seq<bool>)
    requires
        oks.len() >= 3,
        !oks[0] || !oks[1] || !oks[2],
    ensures
        !run_from(Phase::LoadConfig, oks).contains(Phase::RunApp),
        run_from(Phase::LoadConfig, oks).last() == Phase::Aborted,
{
    reveal_with_fuel(run_from, 9);
    assert(oks.drop_first()[0] == oks[1]);
    assert(oks.drop_first().drop_first()[0] == oks[2]);
    let t = run_from(Phase::LoadConfig, oks);
    if !oks[0] {
        assert(t =~= seq![Phase::LoadConfig, Phase::Aborted]);
        assert(forall|i: int| 0 <= i < t.len() ==> t[i] != Phase::RunApp);
    } else if !oks[1] {
        assert(t =~= seq![Phase::LoadConfig, Phase::BuildLogger, Phase::Aborted]);
        assert(forall|i: int| 0 <= i < t.len() ==> t[i] != Phase::RunApp);
    } else {
        assert(t =~= seq![
            Phase::LoadConfig,
            Phase::BuildLogger,
            Phase::InstallSignal,
            Phase::Aborted,
        ]);
        assert(forall|i: int| 0 <= i < t.len() ==> t[i] != Phase::RunApp);
    }
}

/// Law: a completed bootstrap that ran the user code released the guard
/// afterwards, and only then finished: the flush cannot be skipped on
/// the way out.
pub proof fn lemma_flush_follows_app(oks: Seq<bool>)
    requires
        oks.len() >= 7,
        run_from(Phase::LoadConfig, oks).contains(Phase::RunApp),
    ensures
        run_from(Phase::LoadConfig, oks)[4] == Phase::RunApp,
        run_from(Phase::LoadConfig, oks)[6] == Phase::ReleaseGuard,
        run_from(Phase::LoadConfig, oks)[7] == Phase::Done,
        run_from(Phase::LoadConfig, oks).len() == 8,
{
    if !oks[0] || !oks[1] || !oks[2] {
        lemma_setup_failure_skips_app(oks);
    }
    lemma_bootstrap_order(oks);
}

} // verus!
