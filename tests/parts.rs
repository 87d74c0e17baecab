use sero::acceptor::{after_dial, ConnAction};
use sero::clock::{idle_check, now_unix_millis, IdleCheck};
use sero::scaler::{needs_poll, poll, PollOutcome, ScaleError};
use sero::settings::{Service, Settings, SettingsError, Target, Timeout};
use sero::toggle::Toggle;

#[test]
fn toggle_reports_changes_only() {
    let mut t = Toggle::new(true);
    assert!(t.get());
    assert!(!t.set(true));
    assert!(t.set(false));
    assert!(!t.get());
    assert!(!t.set(false));
    assert!(t.set(true));
    assert!(t.get());
}

#[test]
fn no_forward_while_toggle_down() {
    assert_eq!(after_dial(true, false), ConnAction::RequestActivation);
    assert_eq!(after_dial(false, false), ConnAction::RequestActivation);
    assert_eq!(after_dial(true, true), ConnAction::Forward);
}

#[test]
fn idle_fires_exactly_one_interval_after_start() {
    let start: u128 = 1_000_000;
    assert_eq!(idle_check(start, start, 1500), IdleCheck { idle: false, sleep_ms: 1500 });
    assert_eq!(idle_check(start, start + 1499, 1500), IdleCheck { idle: false, sleep_ms: 1 });
    assert_eq!(idle_check(start, start + 1500, 1500), IdleCheck { idle: true, sleep_ms: 1500 });
}

#[test]
fn late_contact_defers_idle_check() {
    // a contact at 1499 ms moves the next check to 1499 + 1500
    let check = idle_check(1499, 1500, 1500);
    assert!(!check.idle);
    assert_eq!(1500 + check.sleep_ms, 2999);
    assert!(idle_check(1499, 2999, 1500).idle);
}

#[test]
fn clock_going_back_sleeps_one_interval() {
    assert_eq!(idle_check(5000, 4000, 1500), IdleCheck { idle: false, sleep_ms: 1500 });
}

#[test]
fn clock_is_past_the_epoch() {
    assert!(now_unix_millis() > 1_600_000_000_000);
}

#[test]
fn scale_to_zero_needs_no_poll() {
    assert!(!needs_poll(0));
    assert!(needs_poll(1));
    assert_eq!(poll(0, None, 0, 10), PollOutcome::Ready);
}

#[test]
fn poll_outcomes() {
    assert_eq!(poll(1, None, 0, 10_000), PollOutcome::Failed(ScaleError::NoStatus));
    assert_eq!(poll(1, Some(None), 0, 10_000), PollOutcome::Pending);
    assert_eq!(poll(1, Some(Some(2)), 20_000, 10_000), PollOutcome::Ready);
    assert_eq!(poll(2, Some(Some(1)), 10_000, 10_000), PollOutcome::Failed(ScaleError::Timeout));
}

#[test]
fn repeated_scale_is_ready_at_once() {
    assert_eq!(poll(1, Some(Some(1)), 0, 10_000), PollOutcome::Ready);
    assert_eq!(poll(1, Some(Some(1)), 0, 0), PollOutcome::Ready);
}

fn settings(port: i32, up: i32, down: i32) -> Settings {
    Settings {
        host: "0.0.0.0:3000".to_string(),
        target: Target {
            service: Service { name: "web".to_string(), port, inject: false },
            protocol: "tcp".to_string(),
            deployment: "web-deploy".to_string(),
            timeout: Timeout { forward: 0, scale_up: up, scale_down: down },
        },
    }
}

#[test]
fn settings_give_workload() {
    let w = settings(8080, 10_000, 1500).workload().unwrap();
    assert_eq!(w.service_name, "web");
    assert_eq!(w.deployment, "web-deploy");
    assert_eq!(w.port, 8080);
    assert_eq!(w.scale_up_ms, 10_000);
    assert_eq!(w.scale_down_ms, 1500);
}

#[test]
fn settings_errors() {
    assert_eq!(settings(0, 1, 1).workload().unwrap_err(), SettingsError::PortOutOfRange);
    assert_eq!(settings(65536, 1, 1).workload().unwrap_err(), SettingsError::PortOutOfRange);
    assert_eq!(settings(65535, -1, 1).workload().unwrap_err(), SettingsError::NegativeTimeout);
    assert_eq!(settings(80, 1, -1).workload().unwrap_err(), SettingsError::NegativeTimeout);
}
