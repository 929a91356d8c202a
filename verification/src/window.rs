//! The main window: what is asked of it, and what a request to close it leads to.

use vstd::prelude::*;

verus! {

/// The identifier under which the host knows the one window of the application.
pub const MAIN_WINDOW: &'static str = "main";

/// Something that the shell asks of the main window. Each is best effort: where the host
/// reports a failure, the shell goes on.
#[derive(Clone, Copy, Debug, PartialEq, Eq, Structural)]
pub enum WindowOp {
    /// Make the window visible.
    Show,
    /// Give the window the input focus.
    SetFocus,
    /// Take the window off the screen and keep it.
    Hide,
    /// Tell the host not to close the window on the pending request.
    PreventClose,
}

/// What the host reports of the main window, as far as the shell cares.
#[derive(Clone, Copy, Debug, PartialEq, Eq, Structural)]
pub enum WindowEvent {
    /// The user asked for the window to be closed.
    CloseRequested,
    /// Anything else.
    Other,
}

/// What the shell does on a window event.
pub open spec fn spec_on_window_event(event: WindowEvent) -> Seq<WindowOp> {
    match event {
        WindowEvent::CloseRequested => seq![WindowOp::Hide, WindowOp::PreventClose],
        WindowEvent::Other => Seq::empty(),
    }
}

/// What `show_main_window` asks of the main window.
pub open spec fn spec_show_main_window(window_found: bool) -> Seq<WindowOp> {
    if window_found {
        seq![WindowOp::Show, WindowOp::SetFocus]
    } else {
        Seq::empty()
    }
}

/// What the shell does on a window event, in the order in which it is to be done. A
/// request to close hides the window and holds the host back from closing it, so that
/// the application lives on in the tray. Nothing else is reacted to.
pub fn on_window_event(event: WindowEvent) -> (ops: Vec<WindowOp>)
    ensures
        ops@ == spec_on_window_event(event),
{
    match event {
        WindowEvent::CloseRequested => {
            let ops = vec![WindowOp::Hide, WindowOp::PreventClose];
            assert(ops@ =~= spec_on_window_event(event));
            ops
        },
        WindowEvent::Other => Vec::new(),
    }
}

/// Brings the main window to the front. `window_found` says whether the host knows a
/// window under `MAIN_WINDOW`. If it does, the window is shown and then given the focus;
/// if it does not, nothing is asked of anyone and nothing is reported.
pub fn show_main_window(window_found: bool) -> (ops: Vec<WindowOp>)
    ensures
        ops@ == spec_show_main_window(window_found),
{
    if window_found {
        let ops = vec![WindowOp::Show, WindowOp::SetFocus];
        assert(ops@ =~= spec_show_main_window(window_found));
        ops
    } else {
        Vec::new()
    }
}

/// A window that exists, as the host would describe it.
pub struct WindowModel {
    pub visible: bool,
    pub focused: bool,
}

impl WindowOp {
    /// The window after the host has carried out this operation on `window`.
    pub open spec fn apply(self, window: WindowModel) -> WindowModel {
        match self {
            WindowOp::Show => WindowModel { visible: true, focused: window.focused },
            WindowOp::SetFocus => WindowModel { visible: window.visible, focused: true },
            WindowOp::Hide => WindowModel { visible: false, focused: false },
            WindowOp::PreventClose => window,
        }
    }
}

/// The window after the host has carried out `ops` on `window`, first to last.
pub open spec fn apply_all(window: WindowModel, ops: Seq<WindowOp>) -> WindowModel
    decreases ops.len(),
{
    if ops.len() == 0 {
        window
    } else {
        ops.last().apply(apply_all(window, ops.drop_last()))
    }
}

/// What is left of `window` once a request to close it has been answered with `ops`:
/// the host destroys the window unless it was held back.
pub open spec fn after_close_request(window: WindowModel, ops: Seq<WindowOp>) -> Option<
    WindowModel,
> {
    if ops.contains(WindowOp::PreventClose) {
        Some(apply_all(window, ops))
    } else {
        None
    }
}

/// A request to close never destroys the window: whatever state it was in, it is still
/// there afterwards, and hidden.
pub proof fn lemma_close_request_hides_and_keeps(window: WindowModel)
    ensures
        after_close_request(window, spec_on_window_event(WindowEvent::CloseRequested)) == Some(
            WindowModel { visible: false, focused: false },
        ),
{
    let ops = spec_on_window_event(WindowEvent::CloseRequested);
    assert(ops[1] == WindowOp::PreventClose);
    assert(ops.drop_last() =~= seq![WindowOp::Hide]);
    assert(ops.drop_last().drop_last() =~= Seq::<WindowOp>::empty());
    reveal_with_fuel(apply_all, 3);
}

/// Any other event leaves the window alone.
pub proof fn lemma_other_events_change_nothing(window: WindowModel)
    ensures
        apply_all(window, spec_on_window_event(WindowEvent::Other)) == window,
{
}

/// Showing the main window leaves it visible and focused, whatever state it was in.
pub proof fn lemma_show_makes_visible_and_focused(window: WindowModel)
    ensures
        apply_all(window, spec_show_main_window(true)) == (WindowModel {
            visible: true,
            focused: true,
        }),
{
    let ops = spec_show_main_window(true);
    assert(ops.drop_last() =~= seq![WindowOp::Show]);
    assert(ops.drop_last().drop_last() =~= Seq::<WindowOp>::empty());
    reveal_with_fuel(apply_all, 3);
}

/// A window that was asked to close can be shown again: the request leaves it in
/// existence, and showing it then makes it visible and focused.
pub proof fn lemma_closed_window_can_be_shown(window: WindowModel)
    ensures
        after_close_request(window, spec_on_window_event(WindowEvent::CloseRequested)) matches Some(
            hidden,
        ) && !hidden.visible && apply_all(hidden, spec_show_main_window(true)).visible,
{
    lemma_close_request_hides_and_keeps(window);
    lemma_show_makes_visible_and_focused(WindowModel { visible: false, focused: false });
}

} // verus!
