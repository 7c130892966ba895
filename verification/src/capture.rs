//! Where captured input goes, and an in-memory capture source that drives a
//! sink exactly as an operating-system hook would.

use vstd::prelude::*;
use crate::error::InputError;
use crate::event::InputEvent;
use crate::routing::Disposition;

verus! {

/// Receives events from a capture source, on the source's own thread, and
/// says whether the operating system should still deliver each one locally.
///
/// A sink may state what it decides for each event in `decision`, and says
/// so by making `follows_decision` true; Verus then holds `on_event` to it.
/// The default is false: a sink written in ordinary Rust (the router, a test
/// double) states nothing, and a capture source only reports and counts
/// whatever it returned.
pub trait InputSink {
    /// True when `on_event` returns `decision`.
    open spec fn follows_decision() -> bool {
        false
    }

    /// What the sink decides for `event`.
    open spec fn decision(&self, event: InputEvent) -> Disposition {
        Disposition::PassThrough
    }

    /// Handles one captured event.
    fn on_event(&self, event: &InputEvent) -> (d: Disposition)
        ensures
            Self::follows_decision() ==> d == self.decision(*event),
    ;
}

/// Counts of what a capture source has delivered.
#[derive(Debug, Clone, Copy, PartialEq, Eq, Structural)]
pub struct CaptureStats {
    /// Events handed to the sink.
    pub emitted: usize,
    /// Of those, the ones the sink suppressed.
    pub suppressed: usize,
    /// Of those, the ones the sink let through.
    pub passed_through: usize,
}

impl Default for CaptureStats {
    fn default() -> (s: CaptureStats)
        ensures
            s == (CaptureStats { emitted: 0, suppressed: 0, passed_through: 0 }),
    {
        CaptureStats { emitted: 0, suppressed: 0, passed_through: 0 }
    }
}

/// The counts after one more event with the given disposition.
pub open spec fn counted_once(s: CaptureStats, d: Disposition) -> CaptureStats {
    CaptureStats {
        emitted: (s.emitted + 1) as usize,
        suppressed: if d == Disposition::Suppress {
            (s.suppressed + 1) as usize
        } else {
            s.suppressed
        },
        passed_through: if d == Disposition::PassThrough {
            (s.passed_through + 1) as usize
        } else {
            s.passed_through
        },
    }
}

/// A capture source driven by calls rather than by an operating system,
/// with the same failure behaviour as a real hook.
pub struct VirtualCapture<S: InputSink> {
    sink: Option<S>,
    running: bool,
    denied_permission: Option<&'static str>,
    disabled_reason: Option<&'static str>,
    stats: CaptureStats,
}

impl<S: InputSink> VirtualCapture<S> {
    /// Every event handed to the sink is counted exactly once.
    #[verifier::type_invariant]
    spec fn balanced(&self) -> bool {
        self.stats.emitted == self.stats.suppressed + self.stats.passed_through
    }

    /// The attached sink, if any.
    pub closed spec fn attached(&self) -> Option<S> {
        self.sink
    }

    /// Whether a sink is attached.
    pub closed spec fn has_sink(&self) -> bool {
        self.sink is Some
    }

    /// Whether capture was started and not stopped.
    pub closed spec fn started(&self) -> bool {
        self.running
    }

    /// Why the operating system disabled capture, if it did.
    pub closed spec fn disabled(&self) -> Option<&'static str> {
        self.disabled_reason
    }

    /// The error starting will fail with, if any.
    pub closed spec fn refusal(&self) -> Option<InputError> {
        match self.denied_permission {
            Some(permission) => Some(
                InputError::PermissionDenied { operation: "start capture", permission },
            ),
            None => None,
        }
    }

    /// The counts so far.
    pub closed spec fn counts(&self) -> CaptureStats {
        self.stats
    }

    /// Every event handed to the sink is counted exactly once, as suppressed
    /// or as let through.
    pub open spec fn counts_balance(&self) -> bool {
        self.counts().emitted == self.counts().suppressed + self.counts().passed_through
    }

    /// A stopped source with nothing counted.
    pub fn new() -> (c: VirtualCapture<S>)
        ensures
            !c.has_sink(),
            !c.started(),
            c.disabled() is None,
            c.refusal() is None,
            c.counts() == (CaptureStats { emitted: 0, suppressed: 0, passed_through: 0 }),
    {
        VirtualCapture {
            sink: None,
            running: false,
            denied_permission: None,
            disabled_reason: None,
            stats: CaptureStats { emitted: 0, suppressed: 0, passed_through: 0 },
        }
    }

    /// A source whose start fails for want of a permission, as on a machine
    /// where the user has not granted it.
    pub fn denying_permission(permission: &'static str) -> (c: VirtualCapture<S>)
        ensures
            !c.has_sink(),
            !c.started(),
            c.disabled() is None,
            c.refusal() == Some(
                InputError::PermissionDenied { operation: "start capture", permission },
            ),
            c.counts() == (CaptureStats { emitted: 0, suppressed: 0, passed_through: 0 }),
    {
        VirtualCapture {
            sink: None,
            running: false,
            denied_permission: Some(permission),
            disabled_reason: None,
            stats: CaptureStats { emitted: 0, suppressed: 0, passed_through: 0 },
        }
    }

    /// Starts delivering to `sink`, unless starting is refused.
    pub fn start(&mut self, sink: S) -> (r: Result<(), InputError>)
        ensures
            match old(self).refusal() {
                Some(e) => r == Err::<(), InputError>(e) && *final(self) == *old(self),
                None => r is Ok && final(self).has_sink() && final(self).attached() == Some(sink)
                    && final(self).started()
                    && final(self).disabled() == old(self).disabled() && final(self).refusal()
                    == old(self).refusal() && final(self).counts() == old(self).counts(),
            },
    {
        proof {
            use_type_invariant(&*self);
        }
        if let Some(permission) = self.denied_permission {
            return Err(InputError::PermissionDenied { operation: "start capture", permission });
        }
        self.sink = Some(sink);
        self.running = true;
        Ok(())
    }

    /// Stops delivering and detaches the sink.
    pub fn stop(&mut self) -> (r: Result<(), InputError>)
        ensures
            r is Ok,
            !final(self).has_sink(),
            !final(self).started(),
            final(self).disabled() == old(self).disabled(),
            final(self).refusal() == old(self).refusal(),
            final(self).counts() == old(self).counts(),
    {
        proof {
            use_type_invariant(&*self);
        }
        self.running = false;
        self.sink = None;
        Ok(())
    }

    /// Whether events are being delivered: started, and not disabled by the
    /// operating system.
    pub fn is_running(&self) -> (r: bool)
        ensures
            r == (self.started() && self.disabled() is None),
    {
        self.running && self.disabled_reason.is_none()
    }

    /// Re-enables delivery after the operating system disabled it; fails if
    /// capture was never started.
    pub fn rearm(&mut self) -> (r: Result<(), InputError>)
        ensures
            !old(self).has_sink() ==> r == Err::<(), InputError>(InputError::NotRunning)
                && *final(self) == *old(self),
            old(self).has_sink() ==> r is Ok && final(self).started() && final(self).disabled() is None
                && final(self).has_sink() && final(self).refusal() == old(self).refusal()
                && final(self).counts() == old(self).counts(),
    {
        proof {
            use_type_invariant(&*self);
        }
        if self.sink.is_none() {
            return Err(InputError::NotRunning);
        }
        self.disabled_reason = None;
        self.running = true;
        Ok(())
    }

    /// Behaves as if the operating system had disabled capture, as macOS
    /// does to a tap that takes too long.
    pub fn simulate_os_disable(&mut self, reason: &'static str)
        ensures
            final(self).disabled() == Some(reason),
            final(self).has_sink() == old(self).has_sink(),
            final(self).started() == old(self).started(),
            final(self).refusal() == old(self).refusal(),
            final(self).counts() == old(self).counts(),
    {
        proof {
            use_type_invariant(&*self);
        }
        self.disabled_reason = Some(reason);
    }

    /// Delivers one event to the sink, as the operating system would, and
    /// counts what the sink decided.
    pub fn emit(&mut self, event: &InputEvent) -> (r: Result<Disposition, InputError>)
        requires
            old(self).counts().emitted < usize::MAX,
        ensures
            final(self).counts_balance(),
            final(self).attached() == old(self).attached(),
            final(self).has_sink() == old(self).has_sink(),
            final(self).started() == old(self).started(),
            final(self).disabled() == old(self).disabled(),
            final(self).refusal() == old(self).refusal(),
            match old(self).disabled() {
                Some(reason) => r == Err::<Disposition, InputError>(
                    InputError::CaptureDisabled { reason },
                ) && final(self).counts() == old(self).counts(),
                None => if !old(self).has_sink() || !old(self).started() {
                    r == Err::<Disposition, InputError>(InputError::NotRunning)
                        && final(self).counts() == old(self).counts()
                } else {
                    r matches Ok(d) && final(self).counts() == counted_once(old(self).counts(), d) && (
                    S::follows_decision() ==> d == old(self).attached()->Some_0.decision(*event))
                },
            },
    {
        proof {
            use_type_invariant(&*self);
        }
        if let Some(reason) = self.disabled_reason {
            return Err(InputError::CaptureDisabled { reason });
        }
        let disposition = match &self.sink {
            None => {
                return Err(InputError::NotRunning);
            },
            Some(sink) => {
                if !self.running {
                    return Err(InputError::NotRunning);
                }
                sink.on_event(event)
            },
        };
        let before = self.stats;
        self.stats = match disposition {
            Disposition::Suppress => CaptureStats {
                emitted: before.emitted + 1,
                suppressed: before.suppressed + 1,
                passed_through: before.passed_through,
            },
            Disposition::PassThrough => CaptureStats {
                emitted: before.emitted + 1,
                suppressed: before.suppressed,
                passed_through: before.passed_through + 1,
            },
        };
        proof {
            use_type_invariant(&*self);
        }
        Ok(disposition)
    }

    /// The counts so far.
    pub fn stats(&self) -> (s: CaptureStats)
        ensures
            s == self.counts(),
            s.emitted == s.suppressed + s.passed_through,
    {
        proof {
            use_type_invariant(self);
        }
        self.stats
    }
}

} // verus!
