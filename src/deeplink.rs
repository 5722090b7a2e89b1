use vstd::prelude::*;
use crate::actions::{
    actions_view, message, message_action, push_action, reveal_actions, reveal_window,
    ActionView, WindowAction,
};
use crate::text::{is_prefix, same_text, strip_prefix_text};

verus! {

/// URL scheme that opens this application.
pub fn deep_link_scheme() -> (r: &'static str)
    ensures
        r@ == "nchat"@,
{
    "nchat"
}

/// `s` with the prefix `p` removed.
pub open spec fn after_prefix(s: Seq<char>, p: Seq<char>) -> Seq<char> {
    s.subrange(p.len() as int, s.len() as int)
}

/// The navigation event that a deep link's path (already without its leading
/// `/`) asks for, if any.
pub open spec fn route_of(url: Seq<char>, p: Seq<char>) -> Option<ActionView> {
    if is_prefix("channel/"@, p) {
        Some(message("navigate-channel"@, after_prefix(p, "channel/"@)))
    } else if is_prefix("message/"@, p) {
        Some(message("navigate-message"@, after_prefix(p, "message/"@)))
    } else if is_prefix("user/"@, p) {
        Some(message("navigate-user"@, after_prefix(p, "user/"@)))
    } else if is_prefix("thread/"@, p) {
        Some(message("navigate-thread"@, after_prefix(p, "thread/"@)))
    } else if p == "settings"@ {
        Some(message("menu-navigate"@, "settings"@))
    } else if p == "auth/callback"@ {
        Some(message("auth-callback"@, url))
    } else {
        None
    }
}

/// What opening the deep link `url`, whose path is `path`, does to the main
/// window: bring it forward, announce the URL, then navigate when the path
/// (which starts with `/`) names a known place.
pub open spec fn deep_link_plan(url: Seq<char>, path: Seq<char>) -> Seq<ActionView> {
    let head = reveal_window().push(message("deep-link"@, url));
    if is_prefix("/"@, path) {
        match route_of(url, after_prefix(path, "/"@)) {
            Some(a) => head.push(a),
            None => head,
        }
    } else {
        head
    }
}

fn route(url: &str, p: &str) -> (r: Option<WindowAction>)
    ensures
        match r {
            Some(a) => route_of(url@, p@) == Some(a@),
            None => route_of(url@, p@) is None,
        },
{
    if let Some(id) = strip_prefix_text(p, "channel/") {
        Some(message_action("navigate-channel", id))
    } else if let Some(id) = strip_prefix_text(p, "message/") {
        Some(message_action("navigate-message", id))
    } else if let Some(id) = strip_prefix_text(p, "user/") {
        Some(message_action("navigate-user", id))
    } else if let Some(id) = strip_prefix_text(p, "thread/") {
        Some(message_action("navigate-thread", id))
    } else if same_text(p, "settings") {
        Some(message_action("menu-navigate", "settings"))
    } else if same_text(p, "auth/callback") {
        Some(message_action("auth-callback", url))
    } else {
        None
    }
}

/// The actions for opening the deep link `url`, whose path is `path`.
pub fn deep_link_actions(url: &str, path: &str) -> (r: Vec<WindowAction>)
    ensures
        actions_view(r) == deep_link_plan(url@, path@),
{
    let mut v = reveal_actions();
    push_action(&mut v, message_action("deep-link", url));
    if let Some(p) = strip_prefix_text(path, "/") {
        if let Some(a) = route(url, p) {
            push_action(&mut v, a);
        }
    }
    v
}

} // verus!
