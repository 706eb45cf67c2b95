//! The tray icon and its context menu: what each protocol call answers and
//! which action each click asks for. The message-bus plumbing calls these and
//! carries the actions out.

use vstd::prelude::*;
use vstd::string::*;
use crate::hyprland::{
    close_command, close_text, focus_address_command, focus_address_text, move_to_text,
    move_to_workspace_command, texts, WindowInfo,
};
use crate::text::{int_text, int_to_text, join2, join3, nat_text, nat_to_text, same_text};

verus! {

/// Well-known bus name of the StatusNotifierWatcher.
pub const DBUS_WATCHER_NAME: &'static str = "org.kde.StatusNotifierWatcher";

/// Object path of the StatusNotifierWatcher.
pub const DBUS_WATCHER_PATH: &'static str = "/StatusNotifierWatcher";

/// Object path under which the tray icon is served.
pub const ITEM_PATH: &'static str = "/StatusNotifierItem";

/// Object path under which the menu is served.
pub const MENU_PATH: &'static str = "/Menu";

/// Delay before re-registering with the watcher after it restarts.
pub const REREGISTER_DELAY_MS: u64 = 100;

/// Revision of the menu layout.
pub const LAYOUT_REVISION: u32 = 2;

/// Version of the menu protocol served.
pub const MENU_VERSION: u32 = 3;

/// Menu item: toggle the window.
pub const ITEM_TOGGLE: i32 = 1;

/// Menu item: restore the window to the workspace it was first seen on.
pub const ITEM_RESTORE: i32 = 2;

/// Menu item: close the window and exit.
pub const ITEM_CLOSE: i32 = 3;

/// One entry of the context menu.
#[derive(Debug, Clone)]
pub struct MenuItem {
    pub id: i32,
    pub label: String,
}

pub open spec fn is_menu_item(id: i32) -> bool {
    ITEM_TOGGLE <= id <= ITEM_CLOSE
}

/// The label of menu item `id` for a window titled `title` first seen on
/// `workspace`.
pub open spec fn label_spec(title: Seq<char>, workspace: int, id: i32) -> Seq<char> {
    if id == ITEM_TOGGLE {
        "Toggle "@ + title
    } else if id == ITEM_RESTORE {
        "Restore to workspace ("@ + int_text(workspace) + ")"@
    } else {
        "Close "@ + title
    }
}

pub open spec fn item_matches(m: MenuItem, window: WindowInfo) -> bool {
    m.label@ == label_spec(window.title@, window.workspace.id as int, m.id)
}

/// The ids among `ids` that name a menu item, in their order.
pub open spec fn known_ids(ids: Seq<i32>) -> Seq<i32>
    decreases ids.len(),
{
    if ids.len() == 0 {
        Seq::empty()
    } else if is_menu_item(ids.last()) {
        known_ids(ids.drop_last()).push(ids.last())
    } else {
        known_ids(ids.drop_last())
    }
}

/// The label of menu item `id`; `None` for an id that names no item.
pub fn item_label(window: &WindowInfo, id: i32) -> (r: Option<String>)
    ensures
        r is Some <==> is_menu_item(id),
        r matches Some(l) ==> l@ == label_spec(window.title@, window.workspace.id as int, id),
{
    if id == ITEM_TOGGLE {
        Some(join2("Toggle ", window.title.as_str()))
    } else if id == ITEM_RESTORE {
        let ws = int_to_text(window.workspace.id as i64);
        Some(join3("Restore to workspace (", ws.as_str(), ")"))
    } else if id == ITEM_CLOSE {
        Some(join2("Close ", window.title.as_str()))
    } else {
        None
    }
}

fn menu_item(window: &WindowInfo, id: i32) -> (r: MenuItem)
    requires
        is_menu_item(id),
    ensures
        r.id == id,
        item_matches(r, *window),
{
    match item_label(window, id) {
        Some(label) => MenuItem { id, label },
        None => MenuItem { id, label: String::new() },
    }
}

/// The menu layout: Toggle, Restore to the first-seen workspace, Close.
pub fn menu_layout(window: &WindowInfo) -> (r: Vec<MenuItem>)
    ensures
        r@.len() == 3,
        r@[0].id == ITEM_TOGGLE,
        r@[1].id == ITEM_RESTORE,
        r@[2].id == ITEM_CLOSE,
        forall|k: int| 0 <= k < 3 ==> item_matches(#[trigger] r@[k], *window),
{
    let mut v: Vec<MenuItem> = Vec::new();
    v.push(menu_item(window, ITEM_TOGGLE));
    v.push(menu_item(window, ITEM_RESTORE));
    v.push(menu_item(window, ITEM_CLOSE));
    v
}

/// The properties of a group of items: one entry for each id that names an
/// item, in the order asked; other ids are skipped.
pub fn group_properties(window: &WindowInfo, ids: &Vec<i32>) -> (r: Vec<MenuItem>)
    ensures
        r@.map_values(|m: MenuItem| m.id) == known_ids(ids@),
        forall|k: int| 0 <= k < r@.len() ==> item_matches(#[trigger] r@[k], *window),
{
    let mut v: Vec<MenuItem> = Vec::new();
    let mut i: usize = 0;
    assert(ids@.subrange(0, 0) =~= Seq::<i32>::empty());
    while i < ids.len()
        invariant
            i <= ids@.len(),
            v@.map_values(|m: MenuItem| m.id) == known_ids(ids@.subrange(0, i as int)),
            forall|k: int| 0 <= k < v@.len() ==> item_matches(#[trigger] v@[k], *window),
        decreases ids@.len() - i,
    {
        let id = ids[i];
        assert(ids@.subrange(0, i + 1).drop_last() =~= ids@.subrange(0, i as int));
        if ITEM_TOGGLE <= id && id <= ITEM_CLOSE {
            let ghost before = v@;
            v.push(menu_item(window, id));
            assert(v@.map_values(|m: MenuItem| m.id) =~= before.map_values(|m: MenuItem| m.id).push(id));
        }
        i = i + 1;
    }
    assert(ids@.subrange(0, i as int) =~= ids@);
    v
}

/// What a click on the icon or the menu asks for.
#[derive(Debug, Clone)]
pub enum TrayAction {
    /// Nothing: an event other than a click, or an id that names no item.
    Ignore,
    /// Run the toggle state machine.
    Toggle,
    /// Send these dispatch commands in order, stopping at the first failure.
    Restore { commands: Vec<String> },
    /// Send this dispatch command, then fire the exit signal whatever it gave.
    Close { command: String },
}

/// The view of a `TrayAction`: its commands as text.
pub enum TrayActionView {
    Ignore,
    Toggle,
    Restore(Seq<Seq<char>>),
    Close(Seq<char>),
}

impl View for TrayAction {
    type V = TrayActionView;

    open spec fn view(&self) -> TrayActionView {
        match self {
            TrayAction::Ignore => TrayActionView::Ignore,
            TrayAction::Toggle => TrayActionView::Toggle,
            TrayAction::Restore { commands } => TrayActionView::Restore(texts(commands@)),
            TrayAction::Close { command } => TrayActionView::Close(command@),
        }
    }
}

/// The action of a click event `event_id` on menu item `id` of the menu of
/// the window at `address`, first seen on `workspace`.
pub open spec fn event_spec(
    address: Seq<char>,
    workspace: int,
    id: i32,
    event_id: Seq<char>,
) -> TrayActionView {
    if event_id != "clicked"@ || !is_menu_item(id) {
        TrayActionView::Ignore
    } else if id == ITEM_TOGGLE {
        TrayActionView::Toggle
    } else if id == ITEM_RESTORE {
        TrayActionView::Restore(seq![move_to_text(workspace, address), focus_address_text(address)])
    } else {
        TrayActionView::Close(close_text(address))
    }
}

/// Whether an action ends the daemon.
pub open spec fn fires_exit_spec(a: TrayActionView) -> bool {
    a is Close
}

/// The action of one menu event.
pub fn menu_event(window: &WindowInfo, id: i32, event_id: &str) -> (r: TrayAction)
    ensures
        r@ == event_spec(window.address@, window.workspace.id as int, id, event_id@),
        !is_menu_item(id) ==> r@ is Ignore,
        event_id@ != "clicked"@ ==> r@ is Ignore,
{
    if !same_text(event_id, "clicked") {
        TrayAction::Ignore
    } else if id == ITEM_TOGGLE {
        TrayAction::Toggle
    } else if id == ITEM_RESTORE {
        let mut v: Vec<String> = Vec::new();
        v.push(move_to_workspace_command(window.workspace.id, window.address.as_str()));
        v.push(focus_address_command(window.address.as_str()));
        assert(texts(v@) =~= seq![
            move_to_text(window.workspace.id as int, window.address@),
            focus_address_text(window.address@),
        ]);
        TrayAction::Restore { commands: v }
    } else if id == ITEM_CLOSE {
        TrayAction::Close { command: close_command(window.address.as_str()) }
    } else {
        TrayAction::Ignore
    }
}

/// The actions of a batch of menu events `(id, event_id)`, one for each, in order.
pub fn menu_event_group(window: &WindowInfo, events: &Vec<(i32, String)>) -> (r: Vec<TrayAction>)
    ensures
        r@.len() == events@.len(),
        forall|k: int| 0 <= k < r@.len() ==> (#[trigger] r@[k])@ == event_spec(
            window.address@,
            window.workspace.id as int,
            events@[k].0,
            events@[k].1@,
        ),
{
    let mut v: Vec<TrayAction> = Vec::new();
    let mut i: usize = 0;
    while i < events.len()
        invariant
            i <= events@.len(),
            v@.len() == i,
            forall|k: int| 0 <= k < i ==> (#[trigger] v@[k])@ == event_spec(
                window.address@,
                window.workspace.id as int,
                events@[k].0,
                events@[k].1@,
            ),
        decreases events@.len() - i,
    {
        let a = menu_event(window, events[i].0, events[i].1.as_str());
        v.push(a);
        i = i + 1;
    }
    v
}

/// The action of a primary activation (left click) of the icon: toggle.
pub fn activate() -> (r: TrayAction)
    ensures
        r@ == TrayActionView::Toggle,
{
    TrayAction::Toggle
}

/// The action of a secondary activation (middle click) of the icon: close
/// the window, then exit.
pub fn secondary_activate(window: &WindowInfo) -> (r: TrayAction)
    ensures
        r@ == TrayActionView::Close(close_text(window.address@)),
{
    TrayAction::Close { command: close_command(window.address.as_str()) }
}

impl TrayAction {
    /// Whether carrying out this action fires the exit signal.
    pub fn fires_exit(&self) -> (r: bool)
        ensures
            r == fires_exit_spec(self@),
    {
        match self {
            TrayAction::Close { .. } => true,
            _ => false,
        }
    }
}

/// The tool tip of the icon: no icon name, no pixmaps, the window title as
/// its title and no description.
pub fn tool_tip(window: &WindowInfo) -> (r: (String, Vec<(i32, i32, Vec<u8>)>, String, String))
    ensures
        r.0@.len() == 0,
        r.1@.len() == 0,
        r.2@ == window.title@,
        r.3@.len() == 0,
{
    (String::new(), Vec::new(), window.title.clone(), String::new())
}

/// The bus name of the tray icon of application `app_name` in process `pid`.
pub fn bus_name(app_name: &str, pid: u32) -> (r: String)
    ensures
        r@ == "org.kde.StatusNotifierItem."@ + app_name@ + ".p"@ + nat_text(pid as nat),
{
    let digits = nat_to_text(pid as u64);
    let mut s = join3("org.kde.StatusNotifierItem.", app_name, ".p");
    s.append(digits.as_str());
    s
}

/// Whether a name-owner change calls for announcing the icon again: the
/// watcher's name got an owner (the tray host restarted).
pub fn should_reregister(name: &str, has_new_owner: bool) -> (r: bool)
    ensures
        r == (name@ == DBUS_WATCHER_NAME@ && has_new_owner),
{
    has_new_owner && same_text(name, DBUS_WATCHER_NAME)
}

} // verus!
