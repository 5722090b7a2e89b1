use vstd::prelude::*;
use crate::actions::{
    actions_view, message, message_action, no_actions, reveal_actions, reveal_and_signal,
    reveal_window, signal, single_action, toggle_actions, toggle_window, ActionView, WindowAction,
};
use crate::text::same_text;

verus! {

/// One line of a menu.
pub enum MenuEntry {
    /// An item with its identifier and label.
    Item(String, String),
    Separator,
    /// The platform's quit item, with its label.
    Quit(String),
}

/// Abstract value of a [`MenuEntry`].
pub ghost enum MenuEntryView {
    Item(Seq<char>, Seq<char>),
    Separator,
    Quit(Seq<char>),
}

impl View for MenuEntry {
    type V = MenuEntryView;

    open spec fn view(&self) -> MenuEntryView {
        match self {
            MenuEntry::Item(id, label) => MenuEntryView::Item(id@, label@),
            MenuEntry::Separator => MenuEntryView::Separator,
            MenuEntry::Quit(label) => MenuEntryView::Quit(label@),
        }
    }
}

/// Abstract value of a list of menu entries.
pub open spec fn entries_view(v: Vec<MenuEntry>) -> Seq<MenuEntryView> {
    v@.map_values(|e: MenuEntry| e@)
}

/// The tray menu, top to bottom.
pub open spec fn tray_menu_layout() -> Seq<MenuEntryView> {
    seq![
        MenuEntryView::Item("show"@, "Show nchat"@),
        MenuEntryView::Separator,
        MenuEntryView::Item("new_message"@, "New Message"@),
        MenuEntryView::Item("new_channel"@, "New Channel"@),
        MenuEntryView::Separator,
        MenuEntryView::Item("status_online"@, "Online"@),
        MenuEntryView::Item("status_away"@, "Away"@),
        MenuEntryView::Item("status_dnd"@, "Do Not Disturb"@),
        MenuEntryView::Item("status_invisible"@, "Invisible"@),
        MenuEntryView::Separator,
        MenuEntryView::Item("preferences"@, "Preferences..."@),
        MenuEntryView::Separator,
        MenuEntryView::Quit("Quit nchat"@),
    ]
}

fn push_entry(v: &mut Vec<MenuEntry>, e: MenuEntry)
    ensures
        entries_view(*final(v)) == entries_view(*old(v)).push(e@),
{
    let ghost ev = e@;
    v.push(e);
    assert(entries_view(*v) =~= entries_view(*old(v)).push(ev));
}

fn push_item(v: &mut Vec<MenuEntry>, id: &str, label: &str)
    ensures
        entries_view(*final(v)) == entries_view(*old(v)).push(MenuEntryView::Item(id@, label@)),
{
    push_entry(v, MenuEntry::Item(String::from_str(id), String::from_str(label)));
}

/// The entries of the tray menu, in order.
pub fn setup_tray() -> (r: Vec<MenuEntry>)
    ensures
        entries_view(r) == tray_menu_layout(),
{
    let mut v: Vec<MenuEntry> = Vec::new();
    assert(entries_view(v) =~= Seq::<MenuEntryView>::empty());
    push_item(&mut v, "show", "Show nchat");
    push_entry(&mut v, MenuEntry::Separator);
    push_item(&mut v, "new_message", "New Message");
    push_item(&mut v, "new_channel", "New Channel");
    push_entry(&mut v, MenuEntry::Separator);
    push_item(&mut v, "status_online", "Online");
    push_item(&mut v, "status_away", "Away");
    push_item(&mut v, "status_dnd", "Do Not Disturb");
    push_item(&mut v, "status_invisible", "Invisible");
    push_entry(&mut v, MenuEntry::Separator);
    push_item(&mut v, "preferences", "Preferences...");
    push_entry(&mut v, MenuEntry::Separator);
    push_entry(&mut v, MenuEntry::Quit(String::from_str("Quit nchat")));
    assert(entries_view(v) =~= tray_menu_layout());
    v
}

/// What choosing the tray menu item `id` does to the main window.
pub open spec fn tray_menu_plan(id: Seq<char>) -> Seq<ActionView> {
    if id == "show"@ {
        reveal_window()
    } else if id == "new_message"@ {
        reveal_window().push(signal("tray-new-message"@))
    } else if id == "new_channel"@ {
        reveal_window().push(signal("tray-new-channel"@))
    } else if id == "status_online"@ {
        seq![message("tray-status-change"@, "online"@)]
    } else if id == "status_away"@ {
        seq![message("tray-status-change"@, "away"@)]
    } else if id == "status_dnd"@ {
        seq![message("tray-status-change"@, "dnd"@)]
    } else if id == "status_invisible"@ {
        seq![message("tray-status-change"@, "invisible"@)]
    } else if id == "preferences"@ {
        reveal_window().push(signal("tray-preferences"@))
    } else {
        Seq::empty()
    }
}

/// The actions for the tray menu item `id`.
pub fn tray_menu_actions(id: &str) -> (r: Vec<WindowAction>)
    ensures
        actions_view(r) == tray_menu_plan(id@),
{
    if same_text(id, "show") {
        reveal_actions()
    } else if same_text(id, "new_message") {
        reveal_and_signal("tray-new-message")
    } else if same_text(id, "new_channel") {
        reveal_and_signal("tray-new-channel")
    } else if same_text(id, "status_online") {
        single_action(message_action("tray-status-change", "online"))
    } else if same_text(id, "status_away") {
        single_action(message_action("tray-status-change", "away"))
    } else if same_text(id, "status_dnd") {
        single_action(message_action("tray-status-change", "dnd"))
    } else if same_text(id, "status_invisible") {
        single_action(message_action("tray-status-change", "invisible"))
    } else if same_text(id, "preferences") {
        reveal_and_signal("tray-preferences")
    } else {
        no_actions()
    }
}

/// A pointer event on the tray icon.
#[derive(PartialEq, Eq, Structural, Clone, Copy, Debug)]
pub enum TrayClick {
    /// The left button was released after a click.
    LeftUp,
    /// The left button was double-clicked.
    LeftDouble,
    /// Any other button or phase.
    Other,
}

/// What a tray icon event does to the main window: a left click toggles it, a
/// left double click brings it forward.
pub open spec fn tray_click_plan(click: TrayClick, visible: bool) -> Seq<ActionView> {
    match click {
        TrayClick::LeftUp => toggle_window(visible),
        TrayClick::LeftDouble => reveal_window(),
        TrayClick::Other => Seq::empty(),
    }
}

/// The actions for a tray icon event, given whether the window is visible.
pub fn tray_click_actions(click: TrayClick, visible: bool) -> (r: Vec<WindowAction>)
    ensures
        actions_view(r) == tray_click_plan(click, visible),
{
    match click {
        TrayClick::LeftUp => toggle_actions(visible),
        TrayClick::LeftDouble => reveal_actions(),
        TrayClick::Other => no_actions(),
    }
}

/// The icon file for a tray state such as `unread`, `muted` or `dnd`.
pub open spec fn tray_icon_file(icon_type: Seq<char>) -> Seq<char> {
    if icon_type == "unread"@ {
        "icons/tray-unread.png"@
    } else if icon_type == "muted"@ {
        "icons/tray-muted.png"@
    } else if icon_type == "dnd"@ {
        "icons/tray-dnd.png"@
    } else {
        "icons/tray.png"@
    }
}

/// Picks the icon file for a tray state; an unknown state gets the plain icon.
pub fn tray_icon_path(icon_type: &str) -> (r: &'static str)
    ensures
        r@ == tray_icon_file(icon_type@),
{
    if same_text(icon_type, "unread") {
        "icons/tray-unread.png"
    } else if same_text(icon_type, "muted") {
        "icons/tray-muted.png"
    } else if same_text(icon_type, "dnd") {
        "icons/tray-dnd.png"
    } else {
        "icons/tray.png"
    }
}

} // verus!
