//! The control loop and its deadman watchdog. The robot falls back to a safe
//! state when commands stop, so the loop sends one command every period,
//! stops at the first failed send, and always ends with one deinitialize
//! envelope on the reliable channel. The driver sleeps, sends and reads the
//! clock; this machine decides.

use vstd::prelude::*;

verus! {

/// Why the loop stopped.
#[derive(Clone, Copy, Debug, PartialEq, Eq, Structural)]
pub enum StopReason {
    /// The run lasted its full duration.
    Completed,
    /// The caller cancelled the run.
    Cancelled,
    /// A command could not be sent on the authoritative channel.
    SendFailed,
}

#[derive(Clone, Copy, Debug, PartialEq, Eq, Structural)]
pub enum LoopPhase {
    Running,
    /// Waiting for the deinitialize envelope to be sent.
    Deinitializing(StopReason),
    Done { reason: StopReason, deinit_sent: bool },
}

/// What the driver reports.
#[derive(Clone, Copy, Debug, PartialEq, Eq, Structural)]
pub enum ControlEvent {
    /// The loop is at its top: at the start, and after each command sent.
    Resume { now_ms: u64 },
    /// The last command could not be sent.
    SendFailed,
    Cancelled,
    /// The deinitialize envelope went out (`ok`) or could not.
    DeinitResult { ok: bool },
}

/// What the driver must do next.
#[derive(Clone, Copy, Debug, PartialEq, Eq, Structural)]
pub enum ControlAction {
    /// Sleep `sleep_ms`, then send the current command on the authoritative
    /// channel.
    SleepThenSend { sleep_ms: u64 },
    /// Send the deinitialize envelope on the reliable channel.
    SendDeinit,
    /// Nothing to do for this event.
    Idle,
    /// The loop is over.
    Finish { reason: StopReason, deinit_sent: bool },
}

#[derive(Clone, Copy, Debug, PartialEq, Eq, Structural)]
pub struct ControlLoop {
    pub period_ms: u64,
    pub duration_ms: u64,
    pub started_ms: u64,
    pub phase: LoopPhase,
}

/// Time since the loop started; a clock that reads earlier counts as no time.
pub open spec fn elapsed(l: ControlLoop, now_ms: u64) -> nat {
    if now_ms >= l.started_ms {
        (now_ms - l.started_ms) as nat
    } else {
        0
    }
}

/// The loop's answer to one event.
pub open spec fn control_step(l: ControlLoop, e: ControlEvent) -> (ControlLoop, ControlAction) {
    match l.phase {
        LoopPhase::Running => match e {
            ControlEvent::Resume { now_ms } => if elapsed(l, now_ms) < l.duration_ms {
                (l, ControlAction::SleepThenSend { sleep_ms: l.period_ms })
            } else {
                (
                    ControlLoop { phase: LoopPhase::Deinitializing(StopReason::Completed), ..l },
                    ControlAction::SendDeinit,
                )
            },
            ControlEvent::SendFailed => (
                ControlLoop { phase: LoopPhase::Deinitializing(StopReason::SendFailed), ..l },
                ControlAction::SendDeinit,
            ),
            ControlEvent::Cancelled => (
                ControlLoop { phase: LoopPhase::Deinitializing(StopReason::Cancelled), ..l },
                ControlAction::SendDeinit,
            ),
            ControlEvent::DeinitResult { .. } => (l, ControlAction::Idle),
        },
        LoopPhase::Deinitializing(reason) => match e {
            ControlEvent::DeinitResult { ok } => (
                ControlLoop { phase: LoopPhase::Done { reason, deinit_sent: ok }, ..l },
                ControlAction::Finish { reason, deinit_sent: ok },
            ),
            _ => (l, ControlAction::Idle),
        },
        LoopPhase::Done { reason, deinit_sent } => (l, ControlAction::Finish { reason, deinit_sent }),
    }
}

impl ControlLoop {
    /// A loop that sends every `period_ms` for `duration_ms` from `now_ms`;
    /// `None` for a period of zero.
    pub fn new(period_ms: u64, duration_ms: u64, now_ms: u64) -> (r: Option<ControlLoop>)
        ensures
            period_ms == 0 <==> r is None,
            r matches Some(l) ==> l == (ControlLoop {
                period_ms,
                duration_ms,
                started_ms: now_ms,
                phase: LoopPhase::Running,
            }),
    {
        if period_ms == 0 {
            None
        } else {
            Some(ControlLoop { period_ms, duration_ms, started_ms: now_ms, phase: LoopPhase::Running })
        }
    }

    pub fn step(&mut self, e: ControlEvent) -> (r: ControlAction)
        ensures
            (*final(self), r) == control_step(*old(self), e),
    {
        match self.phase {
            LoopPhase::Running => match e {
                ControlEvent::Resume { now_ms } => {
                    let elapsed = if now_ms >= self.started_ms {
                        now_ms - self.started_ms
                    } else {
                        0
                    };
                    if elapsed < self.duration_ms {
                        ControlAction::SleepThenSend { sleep_ms: self.period_ms }
                    } else {
                        self.phase = LoopPhase::Deinitializing(StopReason::Completed);
                        ControlAction::SendDeinit
                    }
                },
                ControlEvent::SendFailed => {
                    self.phase = LoopPhase::Deinitializing(StopReason::SendFailed);
                    ControlAction::SendDeinit
                },
                ControlEvent::Cancelled => {
                    self.phase = LoopPhase::Deinitializing(StopReason::Cancelled);
                    ControlAction::SendDeinit
                },
                ControlEvent::DeinitResult { .. } => ControlAction::Idle,
            },
            LoopPhase::Deinitializing(reason) => match e {
                ControlEvent::DeinitResult { ok } => {
                    self.phase = LoopPhase::Done { reason, deinit_sent: ok };
                    ControlAction::Finish { reason, deinit_sent: ok }
                },
                _ => ControlAction::Idle,
            },
            LoopPhase::Done { reason, deinit_sent } => ControlAction::Finish { reason, deinit_sent },
        }
    }
}

/// Watchdog: one failed send on the authoritative channel stops the loop at
/// once, with no further sleep or command, and the next thing sent is the
/// deinitialize envelope, on the reliable channel.
pub proof fn lemma_send_failure_deinitializes(l: ControlLoop)
    requires
        l.phase == LoopPhase::Running,
    ensures
        control_step(l, ControlEvent::SendFailed) == (
            ControlLoop { phase: LoopPhase::Deinitializing(StopReason::SendFailed), ..l },
            ControlAction::SendDeinit,
        ),
{
}

/// A stopped loop never runs again, so the deinitialize envelope is asked for
/// at most once in a run: only on leaving `Running`.
pub proof fn lemma_deinit_once(l: ControlLoop, e: ControlEvent)
    ensures
        l.phase != LoopPhase::Running ==> control_step(l, e).0.phase != LoopPhase::Running,
        control_step(l, e).1 == ControlAction::SendDeinit ==> l.phase == LoopPhase::Running
            && control_step(l, e).0.phase is Deinitializing,
        control_step(l, e).1 is SleepThenSend ==> l.phase == LoopPhase::Running
            && control_step(l, e).0 == l,
{
}

/// Every way out of a running loop goes through the deinitialize send.
pub proof fn lemma_stop_deinitializes(l: ControlLoop, e: ControlEvent)
    requires
        l.phase == LoopPhase::Running,
        control_step(l, e).0.phase != LoopPhase::Running,
    ensures
        control_step(l, e).1 == ControlAction::SendDeinit,
{
}

} // verus!
