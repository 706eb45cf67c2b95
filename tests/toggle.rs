use hyprland_minimizer::hyprland::{
    find_window, placement, plan_toggle, toggle_special_workspace, window_gone, window_present,
    Placement, WindowInfo, Workspace,
};
use hyprland_minimizer::text::{int_to_text, nat_to_text};

fn window(address: &str, ws: i32, class: &str) -> WindowInfo {
    WindowInfo {
        address: address.to_string(),
        workspace: Workspace { id: ws },
        title: "Spotify Premium".to_string(),
        class: class.to_string(),
    }
}

#[test]
fn toggle_from_active_workspace_hides_window() {
    let w = window("0xabc", 3, "spotify");
    let cmds = plan_toggle(&w, "spotify", &Workspace { id: 3 });
    assert_eq!(
        cmds,
        vec![
            "focuswindow initialclass:spotify".to_string(),
            "movetoworkspacesilent special:spotify,address:0xabc".to_string(),
        ]
    );
}

#[test]
fn toggle_from_hidden_workspace_restores_window() {
    let w = window("0xabc", -98, "spotify");
    let cmds = plan_toggle(&w, "spotify", &Workspace { id: 4 });
    assert_eq!(
        cmds,
        vec![
            "togglespecialworkspace spotify".to_string(),
            "centerwindow".to_string(),
            "movetoworkspace +0".to_string(),
            "alterzorder top".to_string(),
        ]
    );
}

#[test]
fn toggle_from_other_workspace_brings_window_here() {
    let w = window("0xabc", 5, "spotify");
    let cmds = plan_toggle(&w, "spotify", &Workspace { id: 2 });
    assert_eq!(
        cmds,
        vec![
            "movetoworkspace +0,address:0xabc".to_string(),
            "centerwindow".to_string(),
            "alterzorder top".to_string(),
        ]
    );
}

#[test]
fn toggle_oscillates_between_two_placements() {
    let first = plan_toggle(&window("0xabc", 3, "spotify"), "spotify", &Workspace { id: 3 });
    let second = plan_toggle(&window("0xabc", -98, "spotify"), "spotify", &Workspace { id: 3 });
    let third = plan_toggle(&window("0xabc", 3, "spotify"), "spotify", &Workspace { id: 3 });
    assert_eq!(first, third);
    assert_eq!(second[0], "togglespecialworkspace spotify");
    assert_eq!(placement(3, 3), Placement::Active);
    assert_eq!(placement(-98, 3), Placement::Hidden);
    assert_eq!(placement(5, 2), Placement::Elsewhere);
    assert_eq!(placement(0, 0), Placement::Active);
}

#[test]
fn special_workspace_commands() {
    assert_eq!(
        toggle_special_workspace("discord"),
        vec![
            "togglespecialworkspace discord".to_string(),
            "centerwindow".to_string(),
            "movetoworkspace +0".to_string(),
            "alterzorder top".to_string(),
        ]
    );
}

#[test]
fn find_window_in_empty_list_is_none() {
    let clients: Vec<WindowInfo> = Vec::new();
    assert_eq!(find_window(&clients, "spotify"), None);
}

#[test]
fn find_window_takes_first_match() {
    let clients = vec![
        window("0x1", 1, "firefox"),
        window("0x2", 2, "spotify"),
        window("0x3", 3, "spotify"),
    ];
    assert_eq!(find_window(&clients, "spotify"), Some(1));
    assert_eq!(find_window(&clients, "spot"), None);
}

#[test]
fn liveness_poll_verdicts() {
    let clients = vec![window("0x1", 1, "firefox"), window("0x2", 2, "spotify")];
    assert!(window_present(&clients, "0x2"));
    assert!(!window_gone(Some(&clients), "0x2"));
    assert!(window_gone(Some(&clients), "0x9"));
    assert!(window_gone(None, "0x2"));
    let empty: Vec<WindowInfo> = Vec::new();
    assert!(window_gone(Some(&empty), "0x2"));
}

#[test]
fn class_fallback_fills_empty_class_only() {
    let w = window("0x1", 4, "").with_class_fallback("spotify");
    assert_eq!(w.class, "spotify");
    assert_eq!(w.address, "0x1");
    assert_eq!(w.workspace.id, 4);
    let w2 = window("0x1", 4, "Spotify").with_class_fallback("spotify");
    assert_eq!(w2.class, "Spotify");
}

#[test]
fn decimal_rendering() {
    assert_eq!(nat_to_text(0), "0");
    assert_eq!(nat_to_text(1234567890), "1234567890");
    assert_eq!(int_to_text(-98), "-98");
    assert_eq!(int_to_text(i64::MIN), "-9223372036854775808");
    assert_eq!(int_to_text(7), "7");
}
