use vstd::prelude::*;
use crate::actions::{
    actions_view, reveal_actions, reveal_window, signal, signal_action, single_action,
    toggle_actions, toggle_window, ActionView, WindowAction,
};

verus! {

/// What a global shortcut is for.
#[derive(PartialEq, Eq, Structural, Clone, Copy, Debug)]
pub enum ShortcutAction {
    ToggleWindow,
    ShowWindow,
    VoiceCall,
    MuteToggle,
}

/// A global shortcut: the key combination and what it does.
pub struct ShortcutBinding {
    pub accelerator: String,
    pub action: ShortcutAction,
}

/// Abstract value of a list of bindings.
pub open spec fn bindings_view(v: Vec<ShortcutBinding>) -> Seq<(Seq<char>, ShortcutAction)> {
    v@.map_values(|b: ShortcutBinding| (b.accelerator@, b.action))
}

/// The global shortcuts registered at launch, in order.
pub open spec fn default_bindings() -> Seq<(Seq<char>, ShortcutAction)> {
    seq![
        ("CmdOrCtrl+Shift+Space"@, ShortcutAction::ToggleWindow),
        ("CmdOrCtrl+Shift+N"@, ShortcutAction::ShowWindow),
        ("CmdOrCtrl+Shift+V"@, ShortcutAction::VoiceCall),
        ("CmdOrCtrl+Shift+M"@, ShortcutAction::MuteToggle),
    ]
}

fn push_binding(v: &mut Vec<ShortcutBinding>, accelerator: &str, action: ShortcutAction)
    ensures
        bindings_view(*final(v)) == bindings_view(*old(v)).push((accelerator@, action)),
{
    v.push(ShortcutBinding { accelerator: String::from_str(accelerator), action });
    assert(bindings_view(*v) =~= bindings_view(*old(v)).push((accelerator@, action)));
}

/// The global shortcuts to register at launch.
pub fn setup_shortcuts() -> (r: Vec<ShortcutBinding>)
    ensures
        bindings_view(r) == default_bindings(),
{
    let mut v: Vec<ShortcutBinding> = Vec::new();
    assert(bindings_view(v) =~= Seq::<(Seq<char>, ShortcutAction)>::empty());
    push_binding(&mut v, "CmdOrCtrl+Shift+Space", ShortcutAction::ToggleWindow);
    push_binding(&mut v, "CmdOrCtrl+Shift+N", ShortcutAction::ShowWindow);
    push_binding(&mut v, "CmdOrCtrl+Shift+V", ShortcutAction::VoiceCall);
    push_binding(&mut v, "CmdOrCtrl+Shift+M", ShortcutAction::MuteToggle);
    assert(bindings_view(v) =~= default_bindings());
    v
}

/// What a triggered shortcut does to the main window, given whether it is visible.
pub open spec fn shortcut_plan(action: ShortcutAction, visible: bool) -> Seq<ActionView> {
    match action {
        ShortcutAction::ToggleWindow => toggle_window(visible),
        ShortcutAction::ShowWindow => reveal_window(),
        ShortcutAction::VoiceCall => seq![signal("shortcut-voice-call"@)],
        ShortcutAction::MuteToggle => seq![signal("shortcut-mute-toggle"@)],
    }
}

/// The actions for a triggered shortcut.
pub fn shortcut_actions(action: ShortcutAction, visible: bool) -> (r: Vec<WindowAction>)
    ensures
        actions_view(r) == shortcut_plan(action, visible),
{
    match action {
        ShortcutAction::ToggleWindow => toggle_actions(visible),
        ShortcutAction::ShowWindow => reveal_actions(),
        ShortcutAction::VoiceCall => single_action(signal_action("shortcut-voice-call")),
        ShortcutAction::MuteToggle => single_action(signal_action("shortcut-mute-toggle")),
    }
}

} // verus!
