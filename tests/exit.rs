use hyprland_minimizer::hyprland::window_gone;
use hyprland_minimizer::exit::{next_step, DaemonEvent, DaemonStep, ExitGate};

#[test]
fn gate_fires_once_and_releases_once() {
    let mut g = ExitGate::new();
    assert!(!g.is_fired());
    g.fire();
    g.fire();
    assert!(g.is_fired());
    assert!(g.take_release());
    g.fire();
    assert!(!g.take_release());
    assert!(!g.take_release());
}

#[test]
fn interrupt_without_fire_still_releases_once() {
    let mut g = ExitGate::new();
    assert!(g.take_release());
    assert!(!g.take_release());
}

#[test]
fn toggle_request_does_not_exit() {
    assert_eq!(next_step(DaemonEvent::ExternalToggleRequest), DaemonStep::RunToggle);
    assert_eq!(next_step(DaemonEvent::ExternalInterrupt), DaemonStep::Shutdown);
    assert_eq!(next_step(DaemonEvent::ExitFired), DaemonStep::Shutdown);
}

#[test]
fn closed_window_fires_exit_and_releases_lock_once() {
    let mut g = ExitGate::new();
    let clients = Vec::new();
    if window_gone(Some(&clients), "0xabc") {
        g.fire();
    }
    assert!(g.is_fired());
    assert!(g.take_release());
    g.fire();
    assert!(!g.take_release());
}
