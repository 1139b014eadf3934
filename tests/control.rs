use robot_demos::{ControlAction, ControlEvent, ControlLoop, LoopPhase, StopReason};

/// Runs the loop against a clock that advances by each sleep; `fail_at`
/// makes that send fail.
fn run(period: u64, duration: u64, fail_at: Option<usize>) -> (usize, usize, ControlAction) {
    let mut now = 1000u64;
    let mut l = ControlLoop::new(period, duration, now).unwrap();
    let mut sends = 0usize;
    let mut deinits = 0usize;
    let mut a = l.step(ControlEvent::Resume { now_ms: now });
    loop {
        match a {
            ControlAction::SleepThenSend { sleep_ms } => {
                now += sleep_ms;
                sends += 1;
                a = if Some(sends) == fail_at {
                    l.step(ControlEvent::SendFailed)
                } else {
                    l.step(ControlEvent::Resume { now_ms: now })
                };
            }
            ControlAction::SendDeinit => {
                deinits += 1;
                a = l.step(ControlEvent::DeinitResult { ok: true });
            }
            ControlAction::Finish { .. } => return (sends, deinits, a),
            ControlAction::Idle => panic!("idle in a driven run"),
        }
    }
}

#[test]
fn period_twenty_for_two_hundred() {
    let (sends, deinits, end) = run(20, 200, None);
    assert!((9..=11).contains(&sends), "{} sends", sends);
    assert_eq!(sends, 10);
    assert_eq!(deinits, 1);
    assert_eq!(end, ControlAction::Finish { reason: StopReason::Completed, deinit_sent: true });
}

#[test]
fn send_failure_stops_and_deinitializes() {
    let (sends, deinits, end) = run(20, 200, Some(3));
    assert_eq!(sends, 3);
    assert_eq!(deinits, 1);
    assert_eq!(end, ControlAction::Finish { reason: StopReason::SendFailed, deinit_sent: true });
}

#[test]
fn send_failure_next_action_is_deinit() {
    let mut l = ControlLoop::new(20, 1000, 0).unwrap();
    assert_eq!(l.step(ControlEvent::Resume { now_ms: 0 }), ControlAction::SleepThenSend { sleep_ms: 20 });
    assert_eq!(l.step(ControlEvent::SendFailed), ControlAction::SendDeinit);
    assert_eq!(l.phase, LoopPhase::Deinitializing(StopReason::SendFailed));
    assert_eq!(l.step(ControlEvent::Resume { now_ms: 40 }), ControlAction::Idle);
    assert_eq!(
        l.step(ControlEvent::DeinitResult { ok: false }),
        ControlAction::Finish { reason: StopReason::SendFailed, deinit_sent: false }
    );
    assert_eq!(
        l.step(ControlEvent::Resume { now_ms: 60 }),
        ControlAction::Finish { reason: StopReason::SendFailed, deinit_sent: false }
    );
}

#[test]
fn cancel_deinitializes() {
    let mut l = ControlLoop::new(20, 1000, 0).unwrap();
    assert_eq!(l.step(ControlEvent::Cancelled), ControlAction::SendDeinit);
    assert_eq!(l.step(ControlEvent::Cancelled), ControlAction::Idle);
    assert_eq!(
        l.step(ControlEvent::DeinitResult { ok: true }),
        ControlAction::Finish { reason: StopReason::Cancelled, deinit_sent: true }
    );
}

#[test]
fn zero_period_refused() {
    assert_eq!(ControlLoop::new(0, 100, 0), None);
}

#[test]
fn clock_going_back_counts_as_no_time() {
    let mut l = ControlLoop::new(20, 100, 500).unwrap();
    assert_eq!(l.step(ControlEvent::Resume { now_ms: 10 }), ControlAction::SleepThenSend { sleep_ms: 20 });
    assert_eq!(l.step(ControlEvent::Resume { now_ms: 600 }), ControlAction::SendDeinit);
}
