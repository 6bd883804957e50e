//! The event handlers the dispatch loop calls into: pointer buttons begin
//! and end interactive sessions, keyboard commands close, cycle, and quit,
//! and window lifecycle events keep focus and layout current.
//!
//! Every input handler returns whether the event was consumed by
//! window-management logic; the dispatch loop must not forward a consumed
//! event to the client under the pointer.

use vstd::prelude::*;

verus! {

use crate::output::{
    close_spec,
    focus_spec,
    has_window,
    raise_spec,
    render_spec,
    send_back_spec,
    set_state_spec,
    window_of,
    Output,
    Window,
};
use crate::session::{
    start_action_spec,
    start_interactive_move,
    start_interactive_resize,
    start_resize_comp_spec,
    stop_comp_spec,
    stop_interactive_action,
    stop_windows_spec,
    Compositor,
};
use crate::types::{ButtonState, KeyModifier, KeyState, KeyboardModifiers, ResizeEdge, Size,
    ViewState};

/// The button code of the primary (left) pointer button.
pub const BTN_LEFT: u32 = 0x110;

/// The button code of the secondary (right) pointer button.
pub const BTN_RIGHT: u32 = 0x111;

/// The keysym closing the focused window.
pub const KEY_Q: u32 = 0x0071;

/// The keysym cycling the focused window to the back.
pub const KEY_DOWN: u32 = 0xff54;

/// The keysym terminating the compositor.
pub const KEY_ESC: u32 = 0xff1b;

/// The keysym launching a terminal.
pub const KEY_RETURN: u32 = 0xff0d;

/// Focusing a window keeps every other window's identity and geometry.
pub proof fn lemma_focus_preserves(s: Seq<Window>, fid: u32, v: u32)
    requires
        crate::output::windows_wf(s),
        has_window(s, v),
    ensures
        has_window(focus_spec(s, fid), v),
        window_of(focus_spec(s, fid), v).geometry == window_of(s, v).geometry,
        window_of(focus_spec(s, fid), v).id == v,
{
    let m = focus_spec(s, fid);
    crate::output::lemma_same_ids_wf(s, m);
    crate::output::lemma_index_of_window(s, v);
    crate::output::lemma_index_of_window(m, v);
    let i = crate::output::index_of_window(s, v);
    let j = crate::output::index_of_window(m, v);
    assert(m[j].id == s[j].id);
    assert(j == i);
}

/// Handle a pointer button event.
///
/// On a press over a non-root window with the control modifier held, the
/// window is focused; the primary button then begins an interactive move
/// and the secondary button an interactive resize with inferred edges. On
/// any release the active session (if any) ends. Returns whether a session
/// is active after the event was processed: the event is then consumed.
pub fn on_pointer_button(
    comp: &mut Compositor,
    output: &mut Output,
    view: u32,
    mods: KeyboardModifiers,
    button: u32,
    state: ButtonState,
    point: crate::types::Point,
) -> (consumed: bool)
    requires
        old(comp).wf(),
        old(output).wf(),
        view != 0 ==> has_window(old(output).views@, view),
    ensures
        final(comp).wf(),
        final(output).wf(),
        final(output).resolution == old(output).resolution,
        consumed == (final(comp).view is Some),
        state == ButtonState::Released ==> *final(comp) == stop_comp_spec(*old(comp))
            && final(output).views@ == stop_windows_spec(old(output).views@, *old(comp)),
        state == ButtonState::Pressed && (view == 0 || !mods.mods.spec_contains(
            KeyModifier::spec_ctrl(),
        )) ==> *final(comp) == *old(comp) && *final(output) == *old(output),
        state == ButtonState::Pressed && view != 0 && mods.mods.spec_contains(
            KeyModifier::spec_ctrl(),
        ) && button == BTN_LEFT ==> *final(comp) == start_action_spec(*old(comp), view, point)
            && final(output).views@ == (if old(comp).view is None {
            raise_spec(focus_spec(old(output).views@, view), view)
        } else {
            focus_spec(old(output).views@, view)
        }),
        state == ButtonState::Pressed && view != 0 && mods.mods.spec_contains(
            KeyModifier::spec_ctrl(),
        ) && button == BTN_RIGHT ==> *final(comp) == start_resize_comp_spec(
            *old(comp),
            view,
            (ResizeEdge { top: false, bottom: false, left: false, right: false }),
            point,
            window_of(old(output).views@, view).geometry@,
        ) && final(output).views@ == (if old(comp).view is None {
            set_state_spec(
                raise_spec(focus_spec(old(output).views@, view), view),
                view,
                ViewState::spec_resizing_flag(),
                true,
            )
        } else {
            focus_spec(old(output).views@, view)
        }),
        state == ButtonState::Pressed && view != 0 && mods.mods.spec_contains(
            KeyModifier::spec_ctrl(),
        ) && button != BTN_LEFT && button != BTN_RIGHT ==> *final(comp) == *old(comp)
            && final(output).views@ == focus_spec(old(output).views@, view),
{
    if state == ButtonState::Pressed {
        if view != 0 && mods.mods.contains(KeyModifier::ctrl()) {
            proof {
                lemma_focus_preserves(output.views@, view, view);
            }
            output.focus_view(view);
            if button == BTN_LEFT {
                start_interactive_move(comp, output, view, point);
            }
            if button == BTN_RIGHT {
                start_interactive_resize(comp, output, view, ResizeEdge::empty(), point);
            }
        }
    } else {
        stop_interactive_action(comp, output);
    }
    comp.view.is_some()
}

/// What the embedder must still do after a keyboard event was handled:
/// the model cannot terminate the process or launch a program itself.
#[derive(Debug, Copy, Clone, PartialEq, Eq, Structural)]
pub enum KeyAction {
    /// The event was not a window-management command; forward it
    Pass,
    /// The event was handled entirely within the window system
    Handled,
    /// The compositor should terminate
    Terminate,
    /// A terminal program should be launched
    LaunchTerminal,
}

/// The window list after the cycle command: the given window moves to the
/// back of the stacking order and the window then on top (when any window
/// remains) takes the focus.
pub open spec fn cycle_spec(s: Seq<Window>, view: u32) -> Seq<Window> {
    let s1 = send_back_spec(s, view);
    if s1.len() > 0 {
        focus_spec(s1, s1.last().id)
    } else {
        s1
    }
}

/// Handle a keyboard event.
///
/// A press with exactly the control modifier held is a window-management
/// command: `q` closes the window under focus (never the root), the down
/// arrow sends it to the back and focuses the window newly on top, escape
/// asks the embedder to terminate, and return asks it to launch a
/// terminal. Any other event passes through to the client. The event is
/// consumed exactly when the returned action is not `Pass`.
pub fn on_keyboard_key(
    output: &mut Output,
    view: u32,
    mods: KeyboardModifiers,
    sym: u32,
    state: KeyState,
) -> (action: KeyAction)
    requires
        old(output).wf(),
        view != 0 ==> has_window(old(output).views@, view),
    ensures
        final(output).wf(),
        final(output).resolution == old(output).resolution,
        !(state == KeyState::Pressed && mods.mods == KeyModifier::spec_ctrl()) ==> action
            == KeyAction::Pass && *final(output) == *old(output),
        state == KeyState::Pressed && mods.mods == KeyModifier::spec_ctrl() ==> {
            &&& sym == KEY_Q ==> action == KeyAction::Handled && final(output).views@ == (
            if view != 0 {
                close_spec(old(output).views@, view)
            } else {
                old(output).views@
            })
            &&& sym == KEY_DOWN ==> action == KeyAction::Handled && final(output).views@
                == cycle_spec(old(output).views@, view)
            &&& sym == KEY_ESC ==> action == KeyAction::Terminate && *final(output) == *old(output)
            &&& sym == KEY_RETURN ==> action == KeyAction::LaunchTerminal && *final(output) == *old(output)
            &&& sym != KEY_Q && sym != KEY_DOWN && sym != KEY_ESC && sym != KEY_RETURN ==> action
                == KeyAction::Pass && *final(output) == *old(output)
        },
{
    if state == KeyState::Pressed && mods.mods == KeyModifier::ctrl() {
        if sym == KEY_Q {
            if view != 0 {
                output.close_view(view);
            }
            return KeyAction::Handled;
        } else if sym == KEY_DOWN {
            output.send_to_back(view);
            if let Some(top) = output.get_topmost_view(0) {
                proof {
                    vstd::arithmetic::div_mod::lemma_small_mod(
                        (output.views@.len() - 1) as nat,
                        output.views@.len() as nat,
                    );
                }
                output.focus_view(top);
            }
            return KeyAction::Handled;
        } else if sym == KEY_ESC {
            return KeyAction::Terminate;
        } else if sym == KEY_RETURN {
            return KeyAction::LaunchTerminal;
        }
    }
    KeyAction::Pass
}

/// Handle the creation of a window already listed on the output: raise
/// it, give it the focus, and lay the output out anew. Returning `true`
/// lets the window exist.
pub fn on_view_created(output: &mut Output, view: u32) -> (keep: bool)
    requires
        old(output).wf(),
        has_window(old(output).views@, view),
    ensures
        final(output).wf(),
        final(output).resolution == old(output).resolution,
        keep == true,
        final(output).views@ == render_spec(
            focus_spec(raise_spec(old(output).views@, view), view),
            old(output).resolution,
        ),
{
    output.bring_to_front(view);
    output.focus_view(view);
    output.render_output();
    true
}

/// Handle the destruction of a window, already delisted: the window newly
/// on top (when any remains) takes the focus, and the output is laid out
/// anew.
pub fn on_view_destroyed(output: &mut Output)
    requires
        old(output).wf(),
    ensures
        final(output).wf(),
        final(output).resolution == old(output).resolution,
        final(output).views@ == ({
            let s = old(output).views@;
            let s2 = if s.len() > 0 {
                focus_spec(s, s.last().id)
            } else {
                s
            };
            render_spec(s2, old(output).resolution)
        }),
{
    if let Some(top) = output.get_topmost_view(0) {
        proof {
            vstd::arithmetic::div_mod::lemma_small_mod(
                (output.views@.len() - 1) as nat,
                output.views@.len() as nat,
            );
        }
        output.focus_view(top);
    }
    output.render_output();
}

/// Handle a window gaining or losing the focus: its activated flag
/// follows `focused`.
pub fn on_view_focus(output: &mut Output, view: u32, focused: bool)
    requires
        old(output).wf(),
    ensures
        final(output).wf(),
        final(output).resolution == old(output).resolution,
        final(output).views@ == set_state_spec(
            old(output).views@,
            view,
            ViewState::spec_activated_flag(),
            focused,
        ),
{
    output.set_view_state(view, ViewState::activated_flag(), focused);
}

/// Handle a change of the output's resolution: record the new resolution
/// and lay the windows out anew for it.
pub fn on_output_resolution(output: &mut Output, from: Size, to: Size)
    requires
        old(output).wf(),
        to.w <= i32::MAX,
        to.h <= i32::MAX,
    ensures
        final(output).wf(),
        final(output).resolution == to,
        final(output).views@ == render_spec(old(output).views@, to),
{
    let _ = from;
    output.resolution = to;
    output.render_output();
}

} // verus!
