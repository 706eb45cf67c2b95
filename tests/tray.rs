use hyprland_minimizer::hyprland::{WindowInfo, Workspace};
use hyprland_minimizer::tray::{
    activate, bus_name, group_properties, item_label, menu_event, menu_event_group, menu_layout,
    secondary_activate, should_reregister, tool_tip, TrayAction, DBUS_WATCHER_NAME,
};

fn window() -> WindowInfo {
    WindowInfo {
        address: "0xabc".to_string(),
        workspace: Workspace { id: 3 },
        title: "Spotify".to_string(),
        class: "spotify".to_string(),
    }
}

#[test]
fn layout_has_three_items() {
    let items = menu_layout(&window());
    let got: Vec<(i32, String)> = items.into_iter().map(|m| (m.id, m.label)).collect();
    assert_eq!(
        got,
        vec![
            (1, "Toggle Spotify".to_string()),
            (2, "Restore to workspace (3)".to_string()),
            (3, "Close Spotify".to_string()),
        ]
    );
}

#[test]
fn restore_label_with_negative_workspace() {
    let mut w = window();
    w.workspace.id = -98;
    assert_eq!(item_label(&w, 2), Some("Restore to workspace (-98)".to_string()));
    assert_eq!(item_label(&w, 4), None);
    assert_eq!(item_label(&w, 0), None);
}

#[test]
fn group_properties_skip_unknown_ids() {
    let items = group_properties(&window(), &vec![5, 2, 1, 0, 3, -1]);
    let ids: Vec<i32> = items.iter().map(|m| m.id).collect();
    assert_eq!(ids, vec![2, 1, 3]);
    assert_eq!(items[1].label, "Toggle Spotify");
    assert!(group_properties(&window(), &vec![]).is_empty());
}

#[test]
fn unknown_menu_item_is_ignored() {
    assert!(matches!(menu_event(&window(), 42, "clicked"), TrayAction::Ignore));
    assert!(matches!(menu_event(&window(), 1, "hovered"), TrayAction::Ignore));
}

#[test]
fn menu_clicks_map_to_actions() {
    assert!(matches!(menu_event(&window(), 1, "clicked"), TrayAction::Toggle));
    match menu_event(&window(), 2, "clicked") {
        TrayAction::Restore { commands } => assert_eq!(
            commands,
            vec![
                "movetoworkspace 3,address:0xabc".to_string(),
                "focuswindow address:0xabc".to_string(),
            ]
        ),
        other => panic!("unexpected {:?}", other),
    }
    let close = menu_event(&window(), 3, "clicked");
    assert!(close.fires_exit());
    match close {
        TrayAction::Close { command } => assert_eq!(command, "closewindow address:0xabc"),
        other => panic!("unexpected {:?}", other),
    }
}

#[test]
fn event_group_fans_out() {
    let events = vec![
        (1, "clicked".to_string()),
        (9, "clicked".to_string()),
        (3, "clicked".to_string()),
    ];
    let actions = menu_event_group(&window(), &events);
    assert_eq!(actions.len(), 3);
    assert!(matches!(actions[0], TrayAction::Toggle));
    assert!(matches!(actions[1], TrayAction::Ignore));
    assert!(matches!(actions[2], TrayAction::Close { .. }));
    assert!(menu_event_group(&window(), &vec![]).is_empty());
}

#[test]
fn icon_activation() {
    assert!(matches!(activate(), TrayAction::Toggle));
    assert!(!activate().fires_exit());
    match secondary_activate(&window()) {
        TrayAction::Close { command } => assert_eq!(command, "closewindow address:0xabc"),
        other => panic!("unexpected {:?}", other),
    }
}

#[test]
fn tool_tip_carries_title() {
    let (icon, pixmaps, title, body) = tool_tip(&window());
    assert_eq!(icon, "");
    assert!(pixmaps.is_empty());
    assert_eq!(title, "Spotify");
    assert_eq!(body, "");
}

#[test]
fn bus_name_is_per_app_and_pid() {
    assert_eq!(bus_name("spotify", 4242), "org.kde.StatusNotifierItem.spotify.p4242");
}

#[test]
fn reregister_only_on_watcher_owner() {
    assert!(should_reregister(DBUS_WATCHER_NAME, true));
    assert!(!should_reregister(DBUS_WATCHER_NAME, false));
    assert!(!should_reregister("org.freedesktop.Notifications", true));
}
