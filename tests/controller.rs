use sero::acceptor::{after_dial, before_dial, ConnAction};
use sero::clock::idle_check;
use sero::controller::{ActivationStep, Command, Controller, DeactivationStep, Event, Phase, Reaction};
use sero::scaler::{poll, PollOutcome, ScaleError};

const SCALE_DOWN_MS: u128 = 1500;
const SCALE_UP_DEADLINE_MS: u128 = 10_000;

fn react(toggle: Option<bool>, command: Command) -> Reaction {
    Reaction { toggle, command }
}

/// Drives a controller from its start through one activation.
fn activated() -> Controller {
    let mut c = Controller::new();
    c.step(Event::ConnectionFailed);
    c.step(Event::Succeeded);
    c.step(Event::Succeeded);
    c
}

#[test]
fn starts_up_with_toggle_open() {
    let c = Controller::new();
    assert_eq!(c.phase(), Phase::Up);
    assert!(c.toggle_is_up());
    assert!(!c.has_pending_activation());
}

#[test]
fn cold_start_first_connection_activates() {
    let mut c = Controller::new();
    // the first dial is refused
    assert_eq!(before_dial(c.toggle_is_up()), ConnAction::Dial);
    assert_eq!(after_dial(false, c.toggle_is_up()), ConnAction::RequestActivation);
    let r = c.step(Event::ConnectionFailed);
    assert_eq!(r, react(Some(false), Command::Scale { replicas: 1 }));
    assert_eq!(c.phase(), Phase::Activating(ActivationStep::Scaling));
    // scale(1) has a ready replica after 800 ms
    assert_eq!(poll(1, Some(Some(1)), 800, SCALE_UP_DEADLINE_MS), PollOutcome::Ready);
    let r = c.step(Event::Succeeded);
    assert_eq!(r, react(None, Command::Detach));
    let r = c.step(Event::Succeeded);
    assert_eq!(r, react(Some(true), Command::Idle));
    assert_eq!(c.phase(), Phase::Up);
    // the second dial goes through and is forwarded
    assert_eq!(before_dial(c.toggle_is_up()), ConnAction::Dial);
    assert_eq!(after_dial(true, c.toggle_is_up()), ConnAction::Forward);
}

#[test]
fn idle_scale_down_attaches_then_scales_to_zero() {
    let mut c = activated();
    let check = idle_check(0, SCALE_DOWN_MS, SCALE_DOWN_MS);
    assert!(check.idle);
    let r = c.step(Event::IdleElapsed);
    assert_eq!(r, react(None, Command::Attach));
    assert_eq!(c.phase(), Phase::Deactivating(DeactivationStep::Attaching));
    let r = c.step(Event::Succeeded);
    assert_eq!(r, react(None, Command::Scale { replicas: 0 }));
    assert!(c.toggle_is_up());
    let r = c.step(Event::Succeeded);
    assert_eq!(r, react(Some(false), Command::Idle));
    assert_eq!(c.phase(), Phase::Down);
    assert!(!c.toggle_is_up());
    assert_eq!(before_dial(c.toggle_is_up()), ConnAction::RequestActivation);
}

#[test]
fn burst_during_activation_makes_one_scale_call() {
    let mut c = Controller::new();
    let mut scale_calls = 0;
    if c.step(Event::ConnectionFailed).command == (Command::Scale { replicas: 1 }) {
        scale_calls += 1;
    }
    for _ in 0..49 {
        let r = c.step(Event::ConnectionFailed);
        assert_eq!(r, react(None, Command::Idle));
        if let Command::Scale { .. } = r.command {
            scale_calls += 1;
        }
    }
    assert_eq!(scale_calls, 1);
    let mut parked = 0;
    for _ in 0..50 {
        if before_dial(c.toggle_is_up()) == ConnAction::RequestActivation {
            parked += 1;
        }
    }
    assert_eq!(parked, 50);
    c.step(Event::Succeeded);
    let r = c.step(Event::Succeeded);
    assert_eq!(r.toggle, Some(true));
    for _ in 0..50 {
        assert_eq!(after_dial(true, c.toggle_is_up()), ConnAction::Forward);
    }
}

#[test]
fn scaler_timeout_then_recovery() {
    let mut c = Controller::new();
    c.step(Event::ConnectionFailed);
    assert_eq!(poll(1, Some(None), 9_900, SCALE_UP_DEADLINE_MS), PollOutcome::Pending);
    assert_eq!(
        poll(1, Some(Some(0)), 10_000, SCALE_UP_DEADLINE_MS),
        PollOutcome::Failed(ScaleError::Timeout)
    );
    let r = c.step(Event::Failed);
    assert_eq!(r, react(None, Command::Scale { replicas: 1 }));
    assert_eq!(c.phase(), Phase::Activating(ActivationStep::Scaling));
    assert!(!c.toggle_is_up());
    // the second attempt is ready 5 s in, 15 s after the first began
    assert_eq!(poll(1, Some(Some(1)), 5_000, SCALE_UP_DEADLINE_MS), PollOutcome::Ready);
    c.step(Event::Succeeded);
    let r = c.step(Event::Succeeded);
    assert_eq!(r, react(Some(true), Command::Idle));
}

#[test]
fn repeated_dials_keep_backend_warm() {
    // the contact time is stamped on each successful dial only, so this
    // simulates a client that dials anew every 500 ms for 3 s; a single long
    // connection that only transfers data is not seen by the idle watcher
    let mut last_seen: u128 = 0;
    let mut now: u128 = 0;
    let mut next_wakeup = idle_check(last_seen, now, SCALE_DOWN_MS).sleep_ms;
    assert_eq!(next_wakeup, SCALE_DOWN_MS);
    while now < 3_000 {
        now += 500;
        last_seen = now;
        if now == next_wakeup {
            let check = idle_check(last_seen, now, SCALE_DOWN_MS);
            assert!(!check.idle);
            next_wakeup = now + check.sleep_ms;
        }
    }
    let check = idle_check(last_seen, 3_000, SCALE_DOWN_MS);
    assert!(!check.idle);
}

#[test]
fn connection_failure_during_deactivation_reactivates() {
    let mut c = activated();
    c.step(Event::IdleElapsed);
    assert_eq!(c.step(Event::ConnectionFailed), react(None, Command::Idle));
    assert!(c.has_pending_activation());
    c.step(Event::Succeeded);
    let r = c.step(Event::Succeeded);
    assert_eq!(r, react(Some(false), Command::Scale { replicas: 1 }));
    assert_eq!(c.phase(), Phase::Activating(ActivationStep::Scaling));
    assert!(!c.has_pending_activation());
}

#[test]
fn failed_routing_changes_are_retried() {
    let mut c = Controller::new();
    c.step(Event::ConnectionFailed);
    c.step(Event::Succeeded);
    assert_eq!(c.step(Event::Failed), react(None, Command::Detach));
    assert!(!c.toggle_is_up());
    c.step(Event::Succeeded);
    c.step(Event::IdleElapsed);
    assert_eq!(c.step(Event::Failed), react(None, Command::Attach));
    c.step(Event::Succeeded);
    assert_eq!(c.step(Event::Failed), react(None, Command::Scale { replicas: 0 }));
}

#[test]
fn idle_elapsed_while_down_is_ignored() {
    let mut c = activated();
    c.step(Event::IdleElapsed);
    c.step(Event::Succeeded);
    c.step(Event::Succeeded);
    assert_eq!(c.phase(), Phase::Down);
    assert_eq!(c.step(Event::IdleElapsed), react(None, Command::Idle));
    assert_eq!(c.phase(), Phase::Down);
    let r = c.step(Event::ConnectionFailed);
    assert_eq!(r, react(None, Command::Scale { replicas: 1 }));
}

#[test]
fn connection_while_down_requests_activation() {
    let mut c = activated();
    c.step(Event::IdleElapsed);
    c.step(Event::Succeeded);
    c.step(Event::Succeeded);
    assert_eq!(c.phase(), Phase::Down);
    // the acceptor sees the toggle down and asks for an activation
    assert_eq!(before_dial(c.toggle_is_up()), ConnAction::RequestActivation);
    let r = c.step(Event::ConnectionFailed);
    assert_eq!(r, react(None, Command::Scale { replicas: 1 }));
    assert_eq!(c.phase(), Phase::Activating(ActivationStep::Scaling));
    // further requests while activating are absorbed
    assert_eq!(c.step(Event::ConnectionFailed), react(None, Command::Idle));
}
