use vstd::prelude::*;

use crate::config::LaunchConfig;
use crate::readiness::{Directive, Phase, ReadinessDetector, Signal, step};
use crate::store::{HandleSlot, put_result};

verus! {

/// A setup-fatal failure: the application cannot run without its service.
#[derive(Clone, Copy, Debug, PartialEq, Eq, Structural)]
pub enum SupervisorError {
    /// The data directory could not be created.
    DataDir,
    /// The child process could not be started.
    Spawn,
}

/// Where the supervisor task stands.
#[derive(Clone, Copy, Debug, PartialEq, Eq, Structural)]
pub enum SupervisorPhase {
    /// The data directory is being prepared.
    Preparing,
    /// The child process is being started.
    Launching,
    /// The child runs and its output is being watched.
    Monitoring,
    /// The service is ready; output is no longer read.
    Ready,
    /// The output stream ended before the service was ready.
    StreamClosed,
    /// Startup failed; the application must abort.
    Failed(SupervisorError),
}

/// What the host does next on the supervisor's behalf.
#[derive(Clone, Copy, Debug, PartialEq, Eq, Structural)]
pub enum SupervisorAction {
    /// Create the configuration's data directory, with its parents.
    CreateDataDir,
    /// Spawn the sidecar with the configuration's launch arguments.
    Spawn,
    /// Read the next line of the child's output.
    ReadLine,
    /// Wait this many seconds, then report `on_settle_elapsed`.
    Sleep(u64),
    /// The task is over: stop reading output.
    Finish,
    /// Abort application startup.
    Abort(SupervisorError),
    /// Nothing to do for this event in the current phase.
    Idle,
}

/// Launches the sidecar and watches its startup output until it is ready.
pub struct Supervisor {
    config: LaunchConfig,
    phase: SupervisorPhase,
    detector: ReadinessDetector,
}

impl Supervisor {
    pub closed spec fn phase_spec(&self) -> SupervisorPhase {
        self.phase
    }

    pub closed spec fn config_spec(&self) -> LaunchConfig {
        self.config
    }

    /// The readiness detector watching the child's output.
    pub closed spec fn detector_spec(&self) -> ReadinessDetector {
        self.detector
    }

    /// The detector is consistent, and the supervisor is ready exactly when
    /// the detector is.
    pub open spec fn wf(&self) -> bool {
        &&& self.detector_spec().wf()
        &&& (self.phase_spec() == SupervisorPhase::Ready) == (self.detector_spec().phase_spec()
            == Phase::Ready)
    }

    /// A supervisor for `config`, about to prepare the data directory.
    pub fn new(config: LaunchConfig) -> (r: Self)
        ensures
            r.wf(),
            r.phase_spec() == SupervisorPhase::Preparing,
            r.config_spec() == config,
            r.detector_spec().history() == Seq::<Signal>::empty(),
    {
        Supervisor { config, phase: SupervisorPhase::Preparing, detector: ReadinessDetector::new() }
    }

    /// The configuration the sidecar is launched with.
    pub fn config(&self) -> (r: &LaunchConfig)
        ensures
            *r == self.config_spec(),
    {
        &self.config
    }

    /// The current phase.
    pub fn phase(&self) -> (r: SupervisorPhase)
        ensures
            r == self.phase_spec(),
    {
        self.phase
    }

    /// Whether the service has been declared ready.
    pub fn is_ready(&self) -> (r: bool)
        requires
            self.wf(),
        ensures
            r == (self.phase_spec() == SupervisorPhase::Ready),
            r == (self.detector_spec().phase_spec() == Phase::Ready),
    {
        self.phase == SupervisorPhase::Ready
    }

    /// The first thing to do: prepare the data directory.
    pub fn start(&self) -> (a: SupervisorAction)
        ensures
            self.phase_spec() == SupervisorPhase::Preparing ==> a
                == SupervisorAction::CreateDataDir,
            self.phase_spec() != SupervisorPhase::Preparing ==> a == SupervisorAction::Idle,
    {
        if self.phase == SupervisorPhase::Preparing {
            SupervisorAction::CreateDataDir
        } else {
            SupervisorAction::Idle
        }
    }

    /// Reports whether the data directory exists now. Failure is fatal.
    pub fn on_data_dir(&mut self, created: bool) -> (a: SupervisorAction)
        requires
            old(self).wf(),
        ensures
            final(self).wf(),
            final(self).config_spec() == old(self).config_spec(),
            final(self).detector_spec() == old(self).detector_spec(),
            old(self).phase_spec() == SupervisorPhase::Preparing && created ==> {
                &&& final(self).phase_spec() == SupervisorPhase::Launching
                &&& a == SupervisorAction::Spawn
            },
            old(self).phase_spec() == SupervisorPhase::Preparing && !created ==> {
                &&& final(self).phase_spec() == SupervisorPhase::Failed(SupervisorError::DataDir)
                &&& a == SupervisorAction::Abort(SupervisorError::DataDir)
            },
            old(self).phase_spec() != SupervisorPhase::Preparing ==> {
                &&& final(self).phase_spec() == old(self).phase_spec()
                &&& a == SupervisorAction::Idle
            },
    {
        if self.phase != SupervisorPhase::Preparing {
            return SupervisorAction::Idle;
        }
        if created {
            self.phase = SupervisorPhase::Launching;
            SupervisorAction::Spawn
        } else {
            self.phase = SupervisorPhase::Failed(SupervisorError::DataDir);
            SupervisorAction::Abort(SupervisorError::DataDir)
        }
    }

    /// Reports that the child could not be started. Failure is fatal.
    pub fn on_spawn_failed(&mut self) -> (a: SupervisorAction)
        requires
            old(self).wf(),
        ensures
            final(self).wf(),
            final(self).config_spec() == old(self).config_spec(),
            final(self).detector_spec() == old(self).detector_spec(),
            old(self).phase_spec() == SupervisorPhase::Launching ==> {
                &&& final(self).phase_spec() == SupervisorPhase::Failed(SupervisorError::Spawn)
                &&& a == SupervisorAction::Abort(SupervisorError::Spawn)
            },
            old(self).phase_spec() != SupervisorPhase::Launching ==> {
                &&& final(self).phase_spec() == old(self).phase_spec()
                &&& a == SupervisorAction::Idle
            },
    {
        if self.phase != SupervisorPhase::Launching {
            return SupervisorAction::Idle;
        }
        self.phase = SupervisorPhase::Failed(SupervisorError::Spawn);
        SupervisorAction::Abort(SupervisorError::Spawn)
    }

    /// Reports the started child: it is stored in `slot` at once, before any
    /// output is read, so that a close request during startup finds it.
    /// Returns the next action and whatever the slot held before.
    pub fn on_spawned<T>(&mut self, child: T, slot: &mut HandleSlot<T>) -> (r: (
        SupervisorAction,
        Option<T>,
    ))
        requires
            old(self).wf(),
        ensures
            final(self).wf(),
            final(self).config_spec() == old(self).config_spec(),
            final(self).detector_spec() == old(self).detector_spec(),
            (final(slot)@, r.1) == put_result(old(slot)@, child),
            old(self).phase_spec() == SupervisorPhase::Launching ==> {
                &&& final(self).phase_spec() == SupervisorPhase::Monitoring
                &&& r.0 == SupervisorAction::ReadLine
            },
            old(self).phase_spec() != SupervisorPhase::Launching ==> {
                &&& final(self).phase_spec() == old(self).phase_spec()
                &&& r.0 == SupervisorAction::Idle
            },
    {
        let previous = slot.put(child);
        if self.phase != SupervisorPhase::Launching {
            return (SupervisorAction::Idle, previous);
        }
        self.phase = SupervisorPhase::Monitoring;
        (SupervisorAction::ReadLine, previous)
    }

    /// Hands one output line of the child to the readiness detector.
    pub fn on_line(&mut self, line: &str) -> (a: SupervisorAction)
        requires
            old(self).wf(),
        ensures
            final(self).wf(),
            final(self).config_spec() == old(self).config_spec(),
            final(self).phase_spec() == old(self).phase_spec(),
            old(self).phase_spec() == SupervisorPhase::Monitoring ==> {
                let before = old(self).detector_spec();
                let after = final(self).detector_spec();
                &&& after.history() == before.history().push(Signal::Line(line@))
                &&& after.phase_spec() == step(before.phase_spec(), Signal::Line(line@))
                &&& before.phase_spec() == Phase::Watching && after.phase_spec() == Phase::Watching
                    ==> a == SupervisorAction::ReadLine
                &&& before.phase_spec() == Phase::Watching && after.phase_spec() == Phase::Settling
                    ==> a == SupervisorAction::Sleep(crate::readiness::SETTLE_DELAY_SECS)
                &&& before.phase_spec() != Phase::Watching ==> a == SupervisorAction::Idle
            },
            old(self).phase_spec() != SupervisorPhase::Monitoring ==> {
                &&& final(self).detector_spec() == old(self).detector_spec()
                &&& a == SupervisorAction::Idle
            },
    {
        if self.phase != SupervisorPhase::Monitoring {
            return SupervisorAction::Idle;
        }
        match self.detector.observe(line) {
            Directive::ReadNext => SupervisorAction::ReadLine,
            Directive::Settle(secs) => SupervisorAction::Sleep(secs),
            Directive::Stop => SupervisorAction::Idle,
        }
    }

    /// Reports that the settle delay has passed: the service is ready, and
    /// the task finishes.
    pub fn on_settle_elapsed(&mut self) -> (a: SupervisorAction)
        requires
            old(self).wf(),
        ensures
            final(self).wf(),
            final(self).config_spec() == old(self).config_spec(),
            old(self).phase_spec() == SupervisorPhase::Monitoring ==> {
                let before = old(self).detector_spec();
                let after = final(self).detector_spec();
                &&& after.history() == before.history().push(Signal::SettleElapsed)
                &&& after.phase_spec() == step(before.phase_spec(), Signal::SettleElapsed)
                &&& before.phase_spec() == Phase::Settling ==> {
                    &&& final(self).phase_spec() == SupervisorPhase::Ready
                    &&& a == SupervisorAction::Finish
                }
                &&& before.phase_spec() != Phase::Settling ==> {
                    &&& final(self).phase_spec() == SupervisorPhase::Monitoring
                    &&& a == SupervisorAction::Idle
                }
            },
            old(self).phase_spec() != SupervisorPhase::Monitoring ==> {
                &&& final(self).phase_spec() == old(self).phase_spec()
                &&& final(self).detector_spec() == old(self).detector_spec()
                &&& a == SupervisorAction::Idle
            },
    {
        if self.phase != SupervisorPhase::Monitoring {
            return SupervisorAction::Idle;
        }
        if self.detector.settle_elapsed() {
            self.phase = SupervisorPhase::Ready;
            SupervisorAction::Finish
        } else {
            SupervisorAction::Idle
        }
    }

    /// Reports that the child's output stream ended.
    pub fn on_stream_closed(&mut self) -> (a: SupervisorAction)
        requires
            old(self).wf(),
        ensures
            final(self).wf(),
            final(self).config_spec() == old(self).config_spec(),
            final(self).detector_spec() == old(self).detector_spec(),
            old(self).phase_spec() == SupervisorPhase::Monitoring ==> {
                &&& final(self).phase_spec() == SupervisorPhase::StreamClosed
                &&& a == SupervisorAction::Finish
            },
            old(self).phase_spec() != SupervisorPhase::Monitoring ==> {
                &&& final(self).phase_spec() == old(self).phase_spec()
                &&& a == SupervisorAction::Idle
            },
    {
        if self.phase != SupervisorPhase::Monitoring {
            return SupervisorAction::Idle;
        }
        self.phase = SupervisorPhase::StreamClosed;
        SupervisorAction::Finish
    }
}

} // verus!
