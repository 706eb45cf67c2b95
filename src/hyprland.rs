//! The window toggle state machine and the Hyprland dispatch commands it issues.
//!
//! Commands are returned as text, in the order in which they must be sent to
//! `hyprctl dispatch`; the caller stops at the first one that fails.

use vstd::prelude::*;
use vstd::string::*;
use crate::text::{int_text, int_to_text, join2, join3, same_text};

verus! {

/// A Hyprland workspace, as reported by `hyprctl -j activeworkspace`.
#[derive(Debug, Clone, Copy, PartialEq, Eq, Structural)]
pub struct Workspace {
    pub id: i32,
}

/// A window as reported by `hyprctl -j clients`.
#[derive(Debug, Clone)]
pub struct WindowInfo {
    /// Unique address of the window
    pub address: String,
    /// The workspace this window belongs to; a negative id is a special workspace
    pub workspace: Workspace,
    /// Window title
    pub title: String,
    /// Window class (used for matching)
    pub class: String,
}

/// Where a window stands relative to the active workspace.
#[derive(Debug, Clone, Copy, PartialEq, Eq, Structural)]
pub enum Placement {
    /// In a hidden (special) workspace.
    Hidden,
    /// On the active workspace.
    Active,
    /// On another ordinary workspace.
    Elsewhere,
}

/// The views of a list of command texts.
pub open spec fn texts(v: Seq<String>) -> Seq<Seq<char>> {
    v.map_values(|s: String| s@)
}

pub open spec fn toggle_special_text(name: Seq<char>) -> Seq<char> {
    "togglespecialworkspace "@ + name
}

pub open spec fn focus_initial_class_text(class: Seq<char>) -> Seq<char> {
    "focuswindow initialclass:"@ + class
}

pub open spec fn hide_text(class: Seq<char>, address: Seq<char>) -> Seq<char> {
    "movetoworkspacesilent special:"@ + class + ",address:"@ + address
}

pub open spec fn move_here_text(address: Seq<char>) -> Seq<char> {
    "movetoworkspace +0,address:"@ + address
}

pub open spec fn move_to_text(workspace: int, address: Seq<char>) -> Seq<char> {
    "movetoworkspace "@ + int_text(workspace) + ",address:"@ + address
}

pub open spec fn focus_address_text(address: Seq<char>) -> Seq<char> {
    "focuswindow address:"@ + address
}

pub open spec fn close_text(address: Seq<char>) -> Seq<char> {
    "closewindow address:"@ + address
}

/// The three-way split: hidden first, then active, else elsewhere.
pub open spec fn placement_of(workspace: int, active: int) -> Placement {
    if workspace < 0 {
        Placement::Hidden
    } else if workspace == active {
        Placement::Active
    } else {
        Placement::Elsewhere
    }
}

/// Bring a hidden window back: toggle its special workspace, then center,
/// pull it onto the active workspace and raise it.
pub open spec fn restore_commands(name: Seq<char>) -> Seq<Seq<char>> {
    seq![
        toggle_special_text(name),
        "centerwindow"@,
        "movetoworkspace +0"@,
        "alterzorder top"@,
    ]
}

/// The commands that one toggle issues for a window of class `class` at
/// `address` on `workspace`, while `active` is the active workspace.
pub open spec fn toggle_commands(
    class: Seq<char>,
    address: Seq<char>,
    workspace: int,
    active: int,
) -> Seq<Seq<char>> {
    match placement_of(workspace, active) {
        Placement::Hidden => restore_commands(class),
        Placement::Active => seq![focus_initial_class_text(class), hide_text(class, address)],
        Placement::Elsewhere => seq![
            move_here_text(address),
            "centerwindow"@,
            "alterzorder top"@,
        ],
    }
}

/// The workspace a window ends on after a toggle, where `hidden` is the id
/// that the compositor gives the special workspace.
pub open spec fn placement_after(workspace: int, active: int, hidden: int) -> int {
    match placement_of(workspace, active) {
        Placement::Active => hidden,
        _ => active,
    }
}

/// Classifies a window's workspace against the active one.
pub fn placement(workspace: i32, active: i32) -> (r: Placement)
    ensures
        r == placement_of(workspace as int, active as int),
{
    if workspace < 0 {
        Placement::Hidden
    } else if workspace == active {
        Placement::Active
    } else {
        Placement::Elsewhere
    }
}

/// Toggles a special workspace and brings its window to the front.
pub fn toggle_special_workspace(class: &str) -> (r: Vec<String>)
    ensures
        texts(r@) == restore_commands(class@),
{
    let mut v: Vec<String> = Vec::new();
    v.push(join2("togglespecialworkspace ", class));
    v.push(String::from_str("centerwindow"));
    v.push(String::from_str("movetoworkspace +0"));
    v.push(String::from_str("alterzorder top"));
    assert(texts(v@) =~= restore_commands(class@));
    v
}

/// The commands that send `window` to its next placement, for the window
/// class `class` and the active workspace `active`.
pub fn plan_toggle(window: &WindowInfo, class: &str, active: &Workspace) -> (r: Vec<String>)
    ensures
        texts(r@) == toggle_commands(
            class@,
            window.address@,
            window.workspace.id as int,
            active.id as int,
        ),
{
    match placement(window.workspace.id, active.id) {
        Placement::Hidden => toggle_special_workspace(class),
        Placement::Active => {
            let mut v: Vec<String> = Vec::new();
            v.push(join2("focuswindow initialclass:", class));
            let mut silent = join3("movetoworkspacesilent special:", class, ",address:");
            silent.append(window.address.as_str());
            v.push(silent);
            assert(texts(v@) =~= toggle_commands(
                class@,
                window.address@,
                window.workspace.id as int,
                active.id as int,
            ));
            v
        },
        Placement::Elsewhere => {
            let mut v: Vec<String> = Vec::new();
            v.push(join2("movetoworkspace +0,address:", window.address.as_str()));
            v.push(String::from_str("centerwindow"));
            v.push(String::from_str("alterzorder top"));
            assert(texts(v@) =~= toggle_commands(
                class@,
                window.address@,
                window.workspace.id as int,
                active.id as int,
            ));
            v
        },
    }
}

/// Moves the window at `address` to workspace `workspace`.
pub fn move_to_workspace_command(workspace: i32, address: &str) -> (r: String)
    ensures
        r@ == move_to_text(workspace as int, address@),
{
    let ws = int_to_text(workspace as i64);
    let mut s = join3("movetoworkspace ", ws.as_str(), ",address:");
    s.append(address);
    s
}

/// Focuses the window at `address`.
pub fn focus_address_command(address: &str) -> (r: String)
    ensures
        r@ == focus_address_text(address@),
{
    join2("focuswindow address:", address)
}

/// Closes the window at `address`.
pub fn close_command(address: &str) -> (r: String)
    ensures
        r@ == close_text(address@),
{
    join2("closewindow address:", address)
}

/// Moves the window at `address` silently into the special workspace named `class`.
pub fn hide_command(class: &str, address: &str) -> (r: String)
    ensures
        r@ == hide_text(class@, address@),
{
    let mut s = join3("movetoworkspacesilent special:", class, ",address:");
    s.append(address);
    s
}

/// Focuses the window whose initial class is `class`.
pub fn focus_initial_class_command(class: &str) -> (r: String)
    ensures
        r@ == focus_initial_class_text(class@),
{
    join2("focuswindow initialclass:", class)
}

/// Index of the first window of class `class`; `None` when there is none,
/// in particular for an empty client list.
pub fn find_window(clients: &Vec<WindowInfo>, class: &str) -> (r: Option<usize>)
    ensures
        r matches Some(i) ==> i < clients@.len() && clients@[i as int].class@ == class@
            && forall|k: int| 0 <= k < i ==> clients@[k].class@ != class@,
        r is None ==> forall|k: int| 0 <= k < clients@.len() ==> clients@[k].class@ != class@,
        clients@.len() == 0 ==> r is None,
{
    let mut i: usize = 0;
    while i < clients.len()
        invariant
            i <= clients@.len(),
            forall|k: int| 0 <= k < i ==> clients@[k].class@ != class@,
        decreases clients@.len() - i,
    {
        if same_text(clients[i].class.as_str(), class) {
            return Some(i);
        }
        i = i + 1;
    }
    None
}

/// Whether a window at `address` is in the client list.
pub fn window_present(clients: &Vec<WindowInfo>, address: &str) -> (r: bool)
    ensures
        r == exists|k: int| 0 <= k < clients@.len() && clients@[k].address@ == address@,
{
    let mut i: usize = 0;
    while i < clients.len()
        invariant
            i <= clients@.len(),
            forall|k: int| 0 <= k < i ==> clients@[k].address@ != address@,
        decreases clients@.len() - i,
    {
        if same_text(clients[i].address.as_str(), address) {
            return true;
        }
        i = i + 1;
    }
    false
}

/// The verdict of one liveness poll: the daemon exits when the query failed
/// (`None`) or when the managed address is gone from the client list.
pub fn window_gone(clients: Option<&Vec<WindowInfo>>, address: &str) -> (r: bool)
    ensures
        r == match clients {
            None => true,
            Some(c) => !exists|k: int| 0 <= k < c@.len() && c@[k].address@ == address@,
        },
{
    match clients {
        None => true,
        Some(c) => !window_present(c, address),
    }
}

impl WindowInfo {
    /// The managed view of this window: an empty class is filled in from the
    /// configured class, every other field is kept.
    pub fn with_class_fallback(self, class: &str) -> (r: WindowInfo)
        ensures
            r.address == self.address,
            r.workspace == self.workspace,
            r.title == self.title,
            r.class@ == (if self.class@.len() == 0 { class@ } else { self.class@ }),
    {
        let mut w = self;
        if w.class.as_str().unicode_len() == 0 {
            w.class = String::from_str(class);
        }
        w
    }
}

/// A toggle is a function of the window's workspace and the active one: from
/// the active workspace it hides the window; from the hidden workspace it
/// brings it back onto the active one, where the next toggle repeats the first.
pub proof fn lemma_toggle_oscillates(
    class: Seq<char>,
    address: Seq<char>,
    active: int,
    hidden: int,
)
    requires
        active >= 0,
        hidden < 0,
    ensures
        placement_of(active, active) == Placement::Active,
        placement_after(active, active, hidden) == hidden,
        placement_of(hidden, active) == Placement::Hidden,
        placement_after(hidden, active, hidden) == active,
        toggle_commands(class, address, placement_after(hidden, active, hidden), active)
            == toggle_commands(class, address, active, active),
{
}

} // verus!
