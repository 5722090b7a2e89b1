use vstd::prelude::*;

verus! {

/// Data sent along with an event to the user interface.
pub enum Payload {
    Empty,
    Text(String),
}

/// Abstract value of a [`Payload`].
pub ghost enum PayloadView {
    Empty,
    Text(Seq<char>),
}

impl View for Payload {
    type V = PayloadView;

    open spec fn view(&self) -> PayloadView {
        match self {
            Payload::Empty => PayloadView::Empty,
            Payload::Text(s) => PayloadView::Text(s@),
        }
    }
}

/// One thing to do to the main window.
pub enum WindowAction {
    Show,
    Hide,
    Focus,
    /// Send the named event with its payload to the user interface.
    Emit(String, Payload),
}

/// Abstract value of a [`WindowAction`].
pub ghost enum ActionView {
    Show,
    Hide,
    Focus,
    Emit(Seq<char>, PayloadView),
}

impl View for WindowAction {
    type V = ActionView;

    open spec fn view(&self) -> ActionView {
        match self {
            WindowAction::Show => ActionView::Show,
            WindowAction::Hide => ActionView::Hide,
            WindowAction::Focus => ActionView::Focus,
            WindowAction::Emit(name, p) => ActionView::Emit(name@, p@),
        }
    }
}

/// Abstract value of a list of actions.
pub open spec fn actions_view(v: Vec<WindowAction>) -> Seq<ActionView> {
    v@.map_values(|a: WindowAction| a@)
}

/// An event with no payload.
pub open spec fn signal(name: Seq<char>) -> ActionView {
    ActionView::Emit(name, PayloadView::Empty)
}

/// An event with a text payload.
pub open spec fn message(name: Seq<char>, text: Seq<char>) -> ActionView {
    ActionView::Emit(name, PayloadView::Text(text))
}

/// Bring the window forward: show it, then focus it.
pub open spec fn reveal_window() -> Seq<ActionView> {
    seq![ActionView::Show, ActionView::Focus]
}

/// An event with no payload.
pub fn signal_action(name: &str) -> (r: WindowAction)
    ensures
        r@ == signal(name@),
{
    WindowAction::Emit(String::from_str(name), Payload::Empty)
}

/// An event with a text payload.
pub fn message_action(name: &str, text: &str) -> (r: WindowAction)
    ensures
        r@ == message(name@, text@),
{
    WindowAction::Emit(String::from_str(name), Payload::Text(String::from_str(text)))
}

/// Appends one action.
pub fn push_action(v: &mut Vec<WindowAction>, a: WindowAction)
    ensures
        actions_view(*final(v)) == actions_view(*old(v)).push(a@),
{
    let ghost av = a@;
    v.push(a);
    assert(actions_view(*v) =~= actions_view(*old(v)).push(av));
}

/// Show and focus the window.
pub fn reveal_actions() -> (r: Vec<WindowAction>)
    ensures
        actions_view(r) == reveal_window(),
{
    let mut v: Vec<WindowAction> = Vec::new();
    assert(actions_view(v) =~= Seq::<ActionView>::empty());
    push_action(&mut v, WindowAction::Show);
    push_action(&mut v, WindowAction::Focus);
    assert(actions_view(v) =~= reveal_window());
    v
}

/// Hide a visible window; show and focus a hidden one.
pub open spec fn toggle_window(visible: bool) -> Seq<ActionView> {
    if visible {
        seq![ActionView::Hide]
    } else {
        reveal_window()
    }
}

/// Hide a visible window; show and focus a hidden one.
pub fn toggle_actions(visible: bool) -> (r: Vec<WindowAction>)
    ensures
        actions_view(r) == toggle_window(visible),
{
    if visible {
        let mut v: Vec<WindowAction> = Vec::new();
        assert(actions_view(v) =~= Seq::<ActionView>::empty());
        push_action(&mut v, WindowAction::Hide);
        assert(actions_view(v) =~= seq![ActionView::Hide]);
        v
    } else {
        reveal_actions()
    }
}

/// Shows and focuses the window, then sends `name` with no payload.
pub fn reveal_and_signal(name: &str) -> (r: Vec<WindowAction>)
    ensures
        actions_view(r) == reveal_window().push(signal(name@)),
{
    let mut v = reveal_actions();
    push_action(&mut v, signal_action(name));
    v
}

/// Only one action.
pub fn single_action(a: WindowAction) -> (r: Vec<WindowAction>)
    ensures
        actions_view(r) == seq![a@],
{
    let mut v: Vec<WindowAction> = Vec::new();
    assert(actions_view(v) =~= Seq::<ActionView>::empty());
    push_action(&mut v, a);
    assert(actions_view(v) =~= seq![a@]);
    v
}

/// No action.
pub fn no_actions() -> (r: Vec<WindowAction>)
    ensures
        actions_view(r) == Seq::<ActionView>::empty(),
{
    let v: Vec<WindowAction> = Vec::new();
    assert(actions_view(v) =~= Seq::<ActionView>::empty());
    v
}

} // verus!
