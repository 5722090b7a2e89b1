use vstd::prelude::*;
use crate::actions::{Payload, PayloadView};
use crate::text::same_text;

verus! {

/// What choosing an item of the application menu does.
pub enum MenuCommand {
    /// Send the named event with its payload to the user interface.
    Emit(String, Payload),
    /// Run a script in the main window.
    Eval(String),
    /// Open a web address in the default browser.
    OpenUrl(String),
    /// Nothing: the item is handled by the platform, or unknown.
    Ignore,
}

/// Abstract value of a [`MenuCommand`].
pub ghost enum MenuCommandView {
    Emit(Seq<char>, PayloadView),
    Eval(Seq<char>),
    OpenUrl(Seq<char>),
    Ignore,
}

impl View for MenuCommand {
    type V = MenuCommandView;

    open spec fn view(&self) -> MenuCommandView {
        match self {
            MenuCommand::Emit(name, p) => MenuCommandView::Emit(name@, p@),
            MenuCommand::Eval(s) => MenuCommandView::Eval(s@),
            MenuCommand::OpenUrl(u) => MenuCommandView::OpenUrl(u@),
            MenuCommand::Ignore => MenuCommandView::Ignore,
        }
    }
}

/// An event with no payload.
pub open spec fn menu_signal(name: Seq<char>) -> MenuCommandView {
    MenuCommandView::Emit(name, PayloadView::Empty)
}

/// A navigation request to the named place.
pub open spec fn menu_navigate(place: Seq<char>) -> MenuCommandView {
    MenuCommandView::Emit("menu-navigate"@, PayloadView::Text(place))
}

/// The command behind the application menu item `id`.
pub open spec fn menu_command_of(id: Seq<char>) -> MenuCommandView {
    if id == "new_message"@ {
        menu_signal("menu-new-message"@)
    } else if id == "new_channel"@ {
        menu_signal("menu-new-channel"@)
    } else if id == "preferences"@ {
        menu_signal("menu-preferences"@)
    } else if id == "find"@ {
        menu_signal("menu-find"@)
    } else if id == "reload"@ {
        MenuCommandView::Eval("window.location.reload()"@)
    } else if id == "force_reload"@ {
        MenuCommandView::Eval("window.location.reload(true)"@)
    } else if id == "toggle_sidebar"@ {
        menu_signal("menu-toggle-sidebar"@)
    } else if id == "go_home"@ {
        menu_navigate("home"@)
    } else if id == "go_channels"@ {
        menu_navigate("channels"@)
    } else if id == "go_messages"@ {
        menu_navigate("messages"@)
    } else if id == "go_threads"@ {
        menu_navigate("threads"@)
    } else if id == "go_settings"@ {
        menu_navigate("settings"@)
    } else if id == "documentation"@ {
        MenuCommandView::OpenUrl("https://docs.nself.org/nchat"@)
    } else if id == "keyboard_shortcuts"@ {
        menu_signal("menu-keyboard-shortcuts"@)
    } else if id == "report_issue"@ {
        MenuCommandView::OpenUrl("https://github.com/nself/nself-chat/issues"@)
    } else if id == "check_updates"@ {
        menu_signal("menu-check-updates"@)
    } else if id == "about"@ {
        menu_signal("menu-about"@)
    } else {
        MenuCommandView::Ignore
    }
}

fn signal_command(name: &str) -> (r: MenuCommand)
    ensures
        r@ == menu_signal(name@),
{
    MenuCommand::Emit(String::from_str(name), Payload::Empty)
}

fn navigate_command(place: &str) -> (r: MenuCommand)
    ensures
        r@ == menu_navigate(place@),
{
    MenuCommand::Emit(String::from_str("menu-navigate"), Payload::Text(String::from_str(place)))
}

/// Looks up the command behind the application menu item `id`.
pub fn menu_command(id: &str) -> (r: MenuCommand)
    ensures
        r@ == menu_command_of(id@),
{
    if same_text(id, "new_message") {
        signal_command("menu-new-message")
    } else if same_text(id, "new_channel") {
        signal_command("menu-new-channel")
    } else if same_text(id, "preferences") {
        signal_command("menu-preferences")
    } else if same_text(id, "find") {
        signal_command("menu-find")
    } else if same_text(id, "reload") {
        MenuCommand::Eval(String::from_str("window.location.reload()"))
    } else if same_text(id, "force_reload") {
        MenuCommand::Eval(String::from_str("window.location.reload(true)"))
    } else if same_text(id, "toggle_sidebar") {
        signal_command("menu-toggle-sidebar")
    } else if same_text(id, "go_home") {
        navigate_command("home")
    } else if same_text(id, "go_channels") {
        navigate_command("channels")
    } else if same_text(id, "go_messages") {
        navigate_command("messages")
    } else if same_text(id, "go_threads") {
        navigate_command("threads")
    } else if same_text(id, "go_settings") {
        navigate_command("settings")
    } else if same_text(id, "documentation") {
        MenuCommand::OpenUrl(String::from_str("https://docs.nself.org/nchat"))
    } else if same_text(id, "keyboard_shortcuts") {
        signal_command("menu-keyboard-shortcuts")
    } else if same_text(id, "report_issue") {
        MenuCommand::OpenUrl(String::from_str("https://github.com/nself/nself-chat/issues"))
    } else if same_text(id, "check_updates") {
        signal_command("menu-check-updates")
    } else if same_text(id, "about") {
        signal_command("menu-about")
    } else {
        MenuCommand::Ignore
    }
}

} // verus!
