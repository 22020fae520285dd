use vstd::prelude::*;
use vstd::utf8::encode_utf8;
use crate::Configuration;
use crate::prober::{ProbeStep, Prober, fresh};
use crate::pulse::{ProbeReply, classify, classify_spec};
use crate::runtime::{
    ConfigError,
    executable_name,
    extension_of,
    get_executable_from_filepath,
    runtime_of_extension,
};

verus! {

/// How long the child may run before it counts as started.
pub const GRACE_WINDOW_MS: u64 = 100;

/// Time that the application has to become ready.
pub const INIT_DEADLINE_MS: u64 = 8500;

/// How long one readiness probe waits for an answer.
pub const PROBE_TIMEOUT_MS: u64 = 50;

/// Exit status of the adapter on a fatal condition.
pub const FATAL_EXIT_CODE: i32 = 1;

/// A condition that ends the adapter during cold start.
#[derive(Clone, Copy, Debug, PartialEq, Eq, Structural)]
pub enum FatalError {
    Config(ConfigError),
    SpawnFailed,
    /// The child exited within the grace window, with this code if it had one.
    EarlyExit(Option<i32>),
    /// The child's state could not be read.
    WaitFailed,
    /// The readiness budget was spent without a 200.
    NotReady,
}

/// The child's state at the end of the grace window.
#[derive(Clone, Copy, Debug, PartialEq, Eq, Structural)]
pub enum ChildStatus {
    Running,
    Exited(Option<i32>),
    Unknown,
}

#[derive(Clone, Copy, Debug, PartialEq, Eq, Structural)]
pub enum Phase {
    /// The child was spawned; the grace window is running.
    Launching,
    /// Readiness probes are being made.
    Probing,
    /// Invocations are being served.
    Serving,
    Failed(FatalError),
}

/// What the adapter does next.
#[derive(Clone, Copy, Debug, PartialEq, Eq, Structural)]
pub enum Action {
    /// Issue one readiness GET with this timeout.
    Probe(u64),
    /// Sleep this many milliseconds, then issue one readiness GET.
    SleepThenProbe(u64),
    /// Start serving invocations.
    Serve,
    /// Terminate the process with this status.
    Exit(i32),
}

/// The cold-start state machine: launch, grace check, readiness, serve.
#[derive(Clone, Copy, Debug, PartialEq, Eq, Structural)]
pub struct Orchestrator {
    pub phase: Phase,
    pub prober: Prober,
}

/// The serialization of `s` parsed as a URL, when it parses.
pub uninterp spec fn parsed_url(s: Seq<char>) -> Option<Seq<char>>;

/// Relies on url::Url::parse and `String::from(Url)`: the URL's normalized
/// text when `s` parses, and nothing when it does not.
#[verifier::external_body]
fn parse_url(s: &str) -> (r: Option<String>)
    ensures
        match r {
            Some(u) => parsed_url(s@) == Some(u@),
            None => parsed_url(s@) is None,
        },
{
    url::Url::parse(s).ok().map(String::from)
}

/// The URL that readiness probes are sent to: the application's URL,
/// normalized. One that does not parse is a configuration error.
pub fn health_check_url(server_url: &str) -> (r: Result<String, ConfigError>)
    ensures
        match parsed_url(server_url@) {
            Some(u) => r matches Ok(x) && x@ == u,
            None => r == Err::<String, ConfigError>(ConfigError::InvalidServerUrl),
        },
{
    match parse_url(server_url) {
        Some(u) => Ok(u),
        None => Err(ConfigError::InvalidServerUrl),
    }
}

/// The action that continues the readiness loop after a prober step.
pub open spec fn action_of_step(s: ProbeStep, timeout_ms: u64) -> Action {
    match s {
        ProbeStep::Ready => Action::Serve,
        ProbeStep::ProbeNow => Action::Probe(timeout_ms),
        ProbeStep::SleepThenProbe(ms) => Action::SleepThenProbe(ms),
        ProbeStep::Exhausted => Action::Exit(FATAL_EXIT_CODE),
    }
}

impl Orchestrator {
    pub open spec fn wf(&self) -> bool {
        self.prober.wf()
    }

    /// State and action once the grace window has elapsed.
    pub open spec fn grace_spec(self, status: ChildStatus) -> (Orchestrator, Action) {
        if self.phase != Phase::Launching {
            (self, Action::Exit(FATAL_EXIT_CODE))
        } else {
            match status {
                ChildStatus::Running => {
                    let s = self.prober.first_step_spec();
                    let phase = match s {
                        ProbeStep::Ready => Phase::Serving,
                        ProbeStep::Exhausted => Phase::Failed(FatalError::NotReady),
                        _ => Phase::Probing,
                    };
                    (Orchestrator { phase, ..self }, action_of_step(s, self.prober.timeout_ms))
                },
                ChildStatus::Exited(code) => (
                    Orchestrator { phase: Phase::Failed(FatalError::EarlyExit(code)), ..self },
                    Action::Exit(FATAL_EXIT_CODE),
                ),
                ChildStatus::Unknown => (
                    Orchestrator { phase: Phase::Failed(FatalError::WaitFailed), ..self },
                    Action::Exit(FATAL_EXIT_CODE),
                ),
            }
        }
    }

    /// State and action after one readiness probe.
    pub open spec fn probe_spec(self, reply: ProbeReply) -> (Orchestrator, Action) {
        if self.phase != Phase::Probing || !self.prober.can_probe() {
            (self, Action::Exit(FATAL_EXIT_CODE))
        } else {
            let (p, s) = self.prober.next(classify_spec(reply));
            let phase = match s {
                ProbeStep::Ready => Phase::Serving,
                ProbeStep::Exhausted => Phase::Failed(FatalError::NotReady),
                _ => Phase::Probing,
            };
            (Orchestrator { phase, prober: p }, action_of_step(s, p.timeout_ms))
        }
    }

    /// Resolves the program that runs the configured entry point and sets up
    /// the cold start. The caller spawns that program on the entry point,
    /// then reports the spawn's failure or, after `GRACE_WINDOW_MS`, the
    /// child's state.
    pub fn new(config: &Configuration) -> (r: Result<(Orchestrator, &'static str), FatalError>)
        ensures
            match runtime_of_extension(extension_of(encode_utf8(config.handler@))) {
                Ok(k) => r matches Ok((o, exe)) && exe@ == executable_name(k) && o.wf()
                    && o.phase == Phase::Launching && o.prober == fresh(INIT_DEADLINE_MS, PROBE_TIMEOUT_MS),
                Err(e) => r == Err::<(Orchestrator, &'static str), FatalError>(
                    FatalError::Config(e),
                ),
            },
    {
        match get_executable_from_filepath(config.handler.as_str()) {
            Ok(exe) => {
                let prober = Prober::new(INIT_DEADLINE_MS, PROBE_TIMEOUT_MS);
                Ok((Orchestrator { phase: Phase::Launching, prober }, exe))
            },
            Err(e) => Err(FatalError::Config(e)),
        }
    }

    /// The child could not be spawned: the adapter ends.
    pub fn on_spawn_failed(&mut self) -> (r: Action)
        ensures
            final(self).phase == Phase::Failed(FatalError::SpawnFailed),
            final(self).prober == old(self).prober,
            r == Action::Exit(FATAL_EXIT_CODE),
    {
        self.phase = Phase::Failed(FatalError::SpawnFailed);
        Action::Exit(FATAL_EXIT_CODE)
    }

    /// The grace window has elapsed with the child in `status`: a child that
    /// already exited, or whose state is unknown, ends the adapter before any
    /// probe; a running one starts the readiness loop.
    pub fn on_grace_elapsed(&mut self, status: ChildStatus) -> (r: Action)
        requires
            old(self).wf(),
        ensures
            final(self).wf(),
            (*final(self), r) == old(self).grace_spec(status),
    {
        if self.phase != Phase::Launching {
            return Action::Exit(FATAL_EXIT_CODE);
        }
        match status {
            ChildStatus::Running => {
                let s = self.prober.first_step();
                self.phase = match s {
                    ProbeStep::Ready => Phase::Serving,
                    ProbeStep::Exhausted => Phase::Failed(FatalError::NotReady),
                    _ => Phase::Probing,
                };
                action_of(s, self.prober.timeout_ms)
            },
            ChildStatus::Exited(code) => {
                self.phase = Phase::Failed(FatalError::EarlyExit(code));
                Action::Exit(FATAL_EXIT_CODE)
            },
            ChildStatus::Unknown => {
                self.phase = Phase::Failed(FatalError::WaitFailed);
                Action::Exit(FATAL_EXIT_CODE)
            },
        }
    }

    /// Records what one readiness probe brought back and says what follows:
    /// another probe, at once after a timeout or after a full timeout's sleep
    /// after a wrong answer; serving after a 200; exit once the budget is spent.
    pub fn on_probe(&mut self, reply: ProbeReply) -> (r: Action)
        requires
            old(self).wf(),
        ensures
            final(self).wf(),
            (*final(self), r) == old(self).probe_spec(reply),
    {
        if self.phase != Phase::Probing || self.prober.ready || self.prober.attempts
            >= self.prober.budget {
            return Action::Exit(FATAL_EXIT_CODE);
        }
        let s = self.prober.record(classify(reply));
        self.phase = match s {
            ProbeStep::Ready => Phase::Serving,
            ProbeStep::Exhausted => Phase::Failed(FatalError::NotReady),
            _ => Phase::Probing,
        };
        action_of(s, self.prober.timeout_ms)
    }
}

/// The action that continues the readiness loop after a prober step.
pub fn action_of(s: ProbeStep, timeout_ms: u64) -> (r: Action)
    ensures
        r == action_of_step(s, timeout_ms),
{
    match s {
        ProbeStep::Ready => Action::Serve,
        ProbeStep::ProbeNow => Action::Probe(timeout_ms),
        ProbeStep::SleepThenProbe(ms) => Action::SleepThenProbe(ms),
        ProbeStep::Exhausted => Action::Exit(FATAL_EXIT_CODE),
    }
}

/// A child that exits within the grace window ends the adapter with a
/// non-zero status before any readiness probe, and once failed the adapter
/// never probes again, whatever it is told afterwards.
pub proof fn lemma_early_exit_is_fatal(o: Orchestrator, code: Option<i32>, replies: Seq<ProbeReply>)
    requires
        o.phase == Phase::Launching,
    ensures
        ({
            let (f, a) = o.grace_spec(ChildStatus::Exited(code));
            &&& a == Action::Exit(FATAL_EXIT_CODE)
            &&& FATAL_EXIT_CODE != 0
            &&& f.phase == Phase::Failed(FatalError::EarlyExit(code))
            &&& forall|i: int| 0 <= i < replies.len() ==> #[trigger] f.probe_spec(replies[i]) == (
                f,
                Action::Exit(FATAL_EXIT_CODE),
            )
        }),
{
}

} // verus!
