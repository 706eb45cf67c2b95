use hyprland_minimizer::config::{
    launch_wait_step, AppConfig, InitialPlacement, LaunchError, WaitStep,
};
use hyprland_minimizer::hyprland::{WindowInfo, Workspace};

fn app() -> AppConfig {
    AppConfig {
        name: "Spotify".to_string(),
        class: "spotify".to_string(),
        icon: None,
        command: vec!["spotify".to_string(), "--minimized".to_string(), "-v".to_string()],
        notify_name: None,
        launch_in_background: None,
        launch_timeout: None,
    }
}

fn window() -> WindowInfo {
    WindowInfo {
        address: "0xabc".to_string(),
        workspace: Workspace { id: 1 },
        title: "Spotify".to_string(),
        class: "spotify".to_string(),
    }
}

#[test]
fn launch_attempts_from_timeout() {
    let mut a = app();
    assert_eq!(a.launch_timeout_secs(), 10);
    assert_eq!(a.launch_attempts(), 20);
    a.launch_timeout = Some(3);
    assert_eq!(a.launch_attempts(), 10);
    a.launch_timeout = Some(7);
    assert_eq!(a.launch_attempts(), 14);
    a.launch_timeout = Some(u64::MAX);
    assert_eq!(a.launch_attempts(), u64::MAX);
}

#[test]
fn launch_wait_decisions() {
    assert_eq!(launch_wait_step(1, 20, true), WaitStep::Found);
    assert_eq!(launch_wait_step(1, 20, false), WaitStep::Retry);
    assert_eq!(launch_wait_step(20, 20, false), WaitStep::GiveUp);
}

#[test]
fn launch_command_splits_program_and_args() {
    let (prog, args) = app().launch_command().unwrap();
    assert_eq!(prog, "spotify");
    assert_eq!(args, vec!["--minimized".to_string(), "-v".to_string()]);
    let mut a = app();
    a.command = vec![];
    assert_eq!(a.launch_command().err(), Some(LaunchError::NoCommand));
}

#[test]
fn notification_icon_defaults_to_class() {
    let mut a = app();
    assert_eq!(a.notification(), None);
    a.notify_name = Some("Spotify".to_string());
    assert_eq!(a.notification(), Some(("Spotify".to_string(), "spotify".to_string())));
    a.icon = Some("spotify-client".to_string());
    assert_eq!(
        a.notification(),
        Some(("Spotify".to_string(), "spotify-client".to_string()))
    );
}

#[test]
fn initial_placement_choices() {
    let mut a = app();
    assert!(matches!(a.initial_placement(false, &window()), InitialPlacement::Toggle));
    assert!(matches!(a.initial_placement(true, &window()), InitialPlacement::Keep));
    a.launch_in_background = Some(true);
    match a.initial_placement(true, &window()) {
        InitialPlacement::Hide { commands } => assert_eq!(
            commands,
            vec![
                "focuswindow address:0xabc".to_string(),
                "movetoworkspacesilent special:spotify,address:0xabc".to_string(),
            ]
        ),
        other => panic!("unexpected {:?}", other),
    }
}
