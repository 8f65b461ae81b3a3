use vstd::prelude::*;

use crate::text::{contains, contains_seq};

verus! {

/// The phrase the service prints once it has finished starting.
pub const READY_MARKER: &'static str = "Bootstrapped 100%";

/// Seconds to wait after the marker before declaring the service ready, so
/// that it can finish writing its auxiliary files.
pub const SETTLE_DELAY_SECS: u64 = 5;

/// Where a detector stands.
#[derive(Clone, Copy, Debug, PartialEq, Eq, Structural)]
pub enum Phase {
    /// No marker line seen yet: lines are being read.
    Watching,
    /// The marker line was seen; the settle delay is running.
    Settling,
    /// The settle delay has elapsed: the service is ready.
    Ready,
}

/// What the driver of a detector does next.
#[derive(Clone, Copy, Debug, PartialEq, Eq, Structural)]
pub enum Directive {
    /// Read the next output line and hand it to `observe`.
    ReadNext,
    /// Wait this many seconds, then call `settle_elapsed`.
    Settle(u64),
    /// Stop reading: the detector consumes no further lines.
    Stop,
}

/// Something a detector was told: an output line, or that the settle delay passed.
pub enum Signal {
    Line(Seq<char>),
    SettleElapsed,
}

/// `line` carries the completion marker.
pub open spec fn has_marker(line: Seq<char>) -> bool {
    contains_seq(line, READY_MARKER@)
}

/// `s` is an output line carrying the completion marker.
pub open spec fn is_marker_line(s: Signal) -> bool {
    s is Line && has_marker(s->Line_0)
}

/// The phase after `p` on signal `s`.
pub open spec fn step(p: Phase, s: Signal) -> Phase {
    match s {
        Signal::Line(line) => if p == Phase::Watching && has_marker(line) {
            Phase::Settling
        } else {
            p
        },
        Signal::SettleElapsed => if p == Phase::Settling {
            Phase::Ready
        } else {
            p
        },
    }
}

/// The phase of a fresh detector after the signals `sigs`, in order.
pub open spec fn run(sigs: Seq<Signal>) -> Phase
    decreases sigs.len(),
{
    if sigs.len() == 0 {
        Phase::Watching
    } else {
        step(run(sigs.drop_last()), sigs.last())
    }
}

/// Watches the startup output of one child process for the completion marker.
/// Single-shot: once the marker is seen it consumes no further lines.
pub struct ReadinessDetector {
    phase: Phase,
    signals: Ghost<Seq<Signal>>,
}

impl ReadinessDetector {
    /// The current phase.
    pub closed spec fn phase_spec(&self) -> Phase {
        self.phase
    }

    /// Every signal this detector was given, in order.
    pub closed spec fn history(&self) -> Seq<Signal> {
        self.signals@
    }

    /// The phase is the one its history leads to.
    pub open spec fn wf(&self) -> bool {
        self.phase_spec() == run(self.history())
    }

    /// A detector that has seen nothing.
    pub fn new() -> (r: Self)
        ensures
            r.wf(),
            r.history() == Seq::<Signal>::empty(),
            r.phase_spec() == Phase::Watching,
    {
        ReadinessDetector { phase: Phase::Watching, signals: Ghost(Seq::empty()) }
    }

    /// The current phase.
    pub fn phase(&self) -> (r: Phase)
        ensures
            r == self.phase_spec(),
    {
        self.phase
    }

    /// Whether the service has been declared ready.
    pub fn is_ready(&self) -> (r: bool)
        ensures
            r == (self.phase_spec() == Phase::Ready),
    {
        self.phase == Phase::Ready
    }

    /// Takes one output line. A line holding the marker, while watching,
    /// starts the settle delay; after that, lines are not consumed.
    pub fn observe(&mut self, line: &str) -> (d: Directive)
        requires
            old(self).wf(),
        ensures
            final(self).wf(),
            final(self).history() == old(self).history().push(Signal::Line(line@)),
            final(self).phase_spec() == step(old(self).phase_spec(), Signal::Line(line@)),
            old(self).phase_spec() == Phase::Watching && !has_marker(line@) ==> d
                == Directive::ReadNext,
            old(self).phase_spec() == Phase::Watching && has_marker(line@) ==> d
                == Directive::Settle(SETTLE_DELAY_SECS),
            old(self).phase_spec() != Phase::Watching ==> d == Directive::Stop,
    {
        let ghost sigs = self.signals@.push(Signal::Line(line@));
        self.signals = Ghost(sigs);
        assert(sigs.drop_last() =~= old(self).signals@);
        if self.phase != Phase::Watching {
            return Directive::Stop;
        }
        if contains(line, READY_MARKER) {
            self.phase = Phase::Settling;
            Directive::Settle(SETTLE_DELAY_SECS)
        } else {
            Directive::ReadNext
        }
    }

    /// Reports that the settle delay has passed; returns whether the service
    /// is now ready.
    pub fn settle_elapsed(&mut self) -> (ready: bool)
        requires
            old(self).wf(),
        ensures
            final(self).wf(),
            final(self).history() == old(self).history().push(Signal::SettleElapsed),
            final(self).phase_spec() == step(old(self).phase_spec(), Signal::SettleElapsed),
            ready == (final(self).phase_spec() == Phase::Ready),
    {
        let ghost sigs = self.signals@.push(Signal::SettleElapsed);
        self.signals = Ghost(sigs);
        assert(sigs.drop_last() =~= old(self).signals@);
        if self.phase == Phase::Settling {
            self.phase = Phase::Ready;
        }
        self.phase == Phase::Ready
    }
}

/// A detector only leaves `Watching` on a line that carries the marker.
pub proof fn lemma_left_watching_on_marker(sigs: Seq<Signal>)
    requires
        run(sigs) != Phase::Watching,
    ensures
        exists|k: int| 0 <= k < sigs.len() && is_marker_line(#[trigger] sigs[k]),
    decreases sigs.len(),
{
    let prefix = sigs.drop_last();
    if run(prefix) != Phase::Watching {
        lemma_left_watching_on_marker(prefix);
        let k = choose|k: int| 0 <= k < prefix.len() && is_marker_line(#[trigger] prefix[k]);
        assert(sigs[k] == prefix[k]);
    } else {
        assert(is_marker_line(sigs[sigs.len() - 1]));
    }
}

/// Without the marker in any line, a detector is never ready: after every
/// prefix of the signals it is still watching.
pub proof fn lemma_no_marker_never_ready(sigs: Seq<Signal>)
    requires
        forall|i: int| 0 <= i < sigs.len() ==> !is_marker_line(#[trigger] sigs[i]),
    ensures
        forall|n: int| 0 <= n <= sigs.len() ==> #[trigger] run(sigs.take(n)) == Phase::Watching,
{
    assert forall|n: int| 0 <= n <= sigs.len() implies #[trigger] run(sigs.take(n))
        == Phase::Watching by {
        let t = sigs.take(n);
        if run(t) != Phase::Watching {
            lemma_left_watching_on_marker(t);
            let k = choose|k: int| 0 <= k < t.len() && is_marker_line(#[trigger] t[k]);
            assert(t[k] == sigs[k]);
        }
    }
}

/// Readiness comes only after a marker line and then a settle signal after it.
pub proof fn lemma_ready_only_after_marker_and_delay(sigs: Seq<Signal>)
    requires
        run(sigs) == Phase::Ready,
    ensures
        exists|k: int, j: int|
            0 <= k < j < sigs.len() && is_marker_line(#[trigger] sigs[k])
                && #[trigger] sigs[j] is SettleElapsed,
    decreases sigs.len(),
{
    let prefix = sigs.drop_last();
    if run(prefix) == Phase::Ready {
        lemma_ready_only_after_marker_and_delay(prefix);
        let (k, j) = choose|k: int, j: int|
            0 <= k < j < prefix.len() && is_marker_line(#[trigger] prefix[k])
                && #[trigger] prefix[j] is SettleElapsed;
        assert(sigs[k] == prefix[k] && sigs[j] == prefix[j]);
    } else {
        lemma_left_watching_on_marker(prefix);
        let k = choose|k: int| 0 <= k < prefix.len() && is_marker_line(#[trigger] prefix[k]);
        assert(sigs[k] == prefix[k]);
        assert(sigs[sigs.len() - 1] is SettleElapsed);
    }
}

/// Once a detector has seen a marker line it is no longer watching.
pub proof fn lemma_marker_leaves_watching(sigs: Seq<Signal>, k: int)
    requires
        0 <= k < sigs.len(),
        is_marker_line(sigs[k]),
    ensures
        run(sigs) != Phase::Watching,
    decreases sigs.len(),
{
    let prefix = sigs.drop_last();
    if k < sigs.len() - 1 {
        assert(prefix[k] == sigs[k]);
        lemma_marker_leaves_watching(prefix, k);
    }
}

/// A marker line followed, later, by a settle signal makes the detector ready.
pub proof fn lemma_ready_after_marker_and_delay(sigs: Seq<Signal>, k: int, j: int)
    requires
        0 <= k < j < sigs.len(),
        is_marker_line(sigs[k]),
        sigs[j] is SettleElapsed,
    ensures
        run(sigs) == Phase::Ready,
    decreases sigs.len(),
{
    let prefix = sigs.drop_last();
    assert(prefix[k] == sigs[k]);
    if j == sigs.len() - 1 {
        lemma_marker_leaves_watching(prefix, k);
    } else {
        assert(prefix[j] == sigs[j]);
        lemma_ready_after_marker_and_delay(prefix, k, j);
    }
}

} // verus!
