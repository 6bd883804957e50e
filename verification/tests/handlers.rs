use rustwlc::handlers::{
    on_keyboard_key, on_output_resolution, on_pointer_button, on_view_created, on_view_destroyed,
    on_view_focus, KeyAction, BTN_LEFT, BTN_RIGHT, KEY_DOWN, KEY_ESC, KEY_Q, KEY_RETURN,
};
use rustwlc::output::{Output, Window};
use rustwlc::session::{
    check_motion_fits, on_pointer_motion, start_interactive_move, Compositor,
};
use rustwlc::types::{
    ButtonState, Geometry, KeyModifier, KeyState, KeyboardLed, KeyboardModifiers, Point, Size,
    ViewState,
};

fn window(id: u32, x: i32, y: i32, w: u32, h: u32) -> Window {
    Window {
        id,
        geometry: Geometry::new(Point::new(x, y), Size::new(w, h)),
        state: ViewState::empty(),
    }
}

fn setup(windows: &[Window]) -> (Compositor, Output) {
    let mut output = Output::new(Size::new(800, 600));
    for w in windows {
        assert!(w.id != 0 && !output.contains_view(w.id));
        output.add_window(*w);
    }
    (Compositor::new(), output)
}

fn ctrl() -> KeyboardModifiers {
    KeyboardModifiers { leds: KeyboardLed::empty(), mods: KeyModifier::ctrl() }
}

fn no_mods() -> KeyboardModifiers {
    KeyboardModifiers { leds: KeyboardLed::empty(), mods: KeyModifier::empty() }
}

fn ids(output: &Output) -> Vec<u32> {
    output.views.iter().map(|v| v.id).collect()
}

#[test]
fn button_press_with_ctrl_starts_move() {
    let (mut comp, mut output) = setup(&[window(1, 0, 0, 200, 100), window(2, 0, 0, 100, 100)]);
    let consumed = on_pointer_button(
        &mut comp,
        &mut output,
        1,
        ctrl(),
        BTN_LEFT,
        ButtonState::Pressed,
        Point::new(50, 50),
    );
    assert!(consumed);
    assert_eq!(comp.view, Some(1));
    assert_eq!(comp.grab, Point::new(50, 50));
    assert!(comp.edges.is_empty());
    // The window was focused and raised.
    assert_eq!(ids(&output), vec![2, 1]);
    assert!(output.views[1].state.activated);
    assert!(!output.views[0].state.activated);
}

#[test]
fn button_press_with_ctrl_starts_resize_with_inferred_edges() {
    let (mut comp, mut output) = setup(&[window(1, 0, 0, 100, 100)]);
    let consumed = on_pointer_button(
        &mut comp,
        &mut output,
        1,
        ctrl(),
        BTN_RIGHT,
        ButtonState::Pressed,
        Point::new(10, 10),
    );
    assert!(consumed);
    assert_eq!(comp.view, Some(1));
    assert!(comp.edges.top && comp.edges.left && !comp.edges.bottom && !comp.edges.right);
    assert!(output.views[0].state.resizing);
}

#[test]
fn button_press_without_ctrl_is_not_consumed() {
    let (mut comp, mut output) = setup(&[window(1, 0, 0, 100, 100)]);
    let before = output.views.clone();
    let consumed = on_pointer_button(
        &mut comp,
        &mut output,
        1,
        no_mods(),
        BTN_LEFT,
        ButtonState::Pressed,
        Point::new(10, 10),
    );
    assert!(!consumed);
    assert_eq!(comp.view, None);
    assert_eq!(output.views, before);
}

#[test]
fn button_press_on_root_is_not_consumed() {
    let (mut comp, mut output) = setup(&[window(1, 0, 0, 100, 100)]);
    let consumed = on_pointer_button(
        &mut comp,
        &mut output,
        0,
        ctrl(),
        BTN_LEFT,
        ButtonState::Pressed,
        Point::new(10, 10),
    );
    assert!(!consumed);
    assert_eq!(comp.view, None);
}

#[test]
fn button_release_stops_session() {
    let (mut comp, mut output) = setup(&[window(1, 0, 0, 100, 100)]);
    on_pointer_button(
        &mut comp,
        &mut output,
        1,
        ctrl(),
        BTN_RIGHT,
        ButtonState::Pressed,
        Point::new(10, 10),
    );
    assert!(output.views[0].state.resizing);
    let consumed = on_pointer_button(
        &mut comp,
        &mut output,
        1,
        no_mods(),
        BTN_RIGHT,
        ButtonState::Released,
        Point::new(20, 20),
    );
    // After the release no session is active, so the event is not consumed.
    assert!(!consumed);
    assert_eq!(comp.view, None);
    assert!(comp.edges.is_empty());
    assert!(!output.views[0].state.resizing);
}

#[test]
fn end_to_end_move_then_release() {
    let (mut comp, mut output) = setup(&[window(1, 0, 0, 200, 100)]);
    start_interactive_move(&mut comp, &mut output, 1, Point::new(50, 50));
    assert_eq!(comp.view, Some(1));
    assert_eq!(comp.grab, Point::new(50, 50));
    assert!(check_motion_fits(&comp, &output, Point::new(60, 70)));
    assert!(on_pointer_motion(&mut comp, &mut output, Point::new(60, 70)));
    assert_eq!(
        output.get_geometry(1),
        Some(Geometry::new(Point::new(10, 20), Size::new(200, 100)))
    );
    assert_eq!(comp.grab, Point::new(60, 70));
    on_pointer_button(
        &mut comp,
        &mut output,
        1,
        no_mods(),
        BTN_LEFT,
        ButtonState::Released,
        Point::new(60, 70),
    );
    assert_eq!(comp.view, None);
    // The next motion event is no longer consumed.
    assert!(check_motion_fits(&comp, &output, Point::new(70, 80)));
    assert!(!on_pointer_motion(&mut comp, &mut output, Point::new(70, 80)));
}

#[test]
fn other_button_with_ctrl_focuses_only() {
    let (mut comp, mut output) = setup(&[window(1, 0, 0, 100, 100), window(2, 0, 0, 100, 100)]);
    let consumed = on_pointer_button(
        &mut comp,
        &mut output,
        1,
        ctrl(),
        0x112,
        ButtonState::Pressed,
        Point::new(10, 10),
    );
    assert!(!consumed);
    assert_eq!(comp.view, None);
    assert!(output.views[0].state.activated);
    assert!(!output.views[1].state.activated);
    assert_eq!(ids(&output), vec![1, 2]);
}

#[test]
fn key_q_closes_the_window() {
    let (_, mut output) = setup(&[window(1, 0, 0, 100, 100), window(2, 0, 0, 100, 100)]);
    let action = on_keyboard_key(&mut output, 1, ctrl(), KEY_Q, KeyState::Pressed);
    assert_eq!(action, KeyAction::Handled);
    assert_eq!(ids(&output), vec![2]);
}

#[test]
fn key_q_never_closes_the_root() {
    let (_, mut output) = setup(&[window(1, 0, 0, 100, 100)]);
    let action = on_keyboard_key(&mut output, 0, ctrl(), KEY_Q, KeyState::Pressed);
    assert_eq!(action, KeyAction::Handled);
    assert_eq!(ids(&output), vec![1]);
}

#[test]
fn key_down_cycles_and_refocuses() {
    let (_, mut output) = setup(&[
        window(1, 0, 0, 100, 100),
        window(2, 0, 0, 100, 100),
        window(3, 0, 0, 100, 100),
    ]);
    // Send window 3 (the top) to the back; window 2 becomes the top and
    // takes the focus.
    let action = on_keyboard_key(&mut output, 3, ctrl(), KEY_DOWN, KeyState::Pressed);
    assert_eq!(action, KeyAction::Handled);
    assert_eq!(ids(&output), vec![3, 1, 2]);
    let activated: Vec<bool> = output.views.iter().map(|v| v.state.activated).collect();
    assert_eq!(activated, vec![false, false, true]);
}

#[test]
fn key_escape_asks_for_termination() {
    let (_, mut output) = setup(&[window(1, 0, 0, 100, 100)]);
    let before = output.views.clone();
    let action = on_keyboard_key(&mut output, 1, ctrl(), KEY_ESC, KeyState::Pressed);
    assert_eq!(action, KeyAction::Terminate);
    assert_eq!(output.views, before);
}

#[test]
fn key_return_asks_for_a_terminal() {
    let (_, mut output) = setup(&[window(1, 0, 0, 100, 100)]);
    let action = on_keyboard_key(&mut output, 1, ctrl(), KEY_RETURN, KeyState::Pressed);
    assert_eq!(action, KeyAction::LaunchTerminal);
}

#[test]
fn keys_without_ctrl_pass_through() {
    let (_, mut output) = setup(&[window(1, 0, 0, 100, 100)]);
    let before = output.views.clone();
    assert_eq!(
        on_keyboard_key(&mut output, 1, no_mods(), KEY_Q, KeyState::Pressed),
        KeyAction::Pass
    );
    assert_eq!(
        on_keyboard_key(&mut output, 1, ctrl(), KEY_Q, KeyState::Released),
        KeyAction::Pass
    );
    // An unbound key with ctrl also passes.
    assert_eq!(
        on_keyboard_key(&mut output, 1, ctrl(), 0x62, KeyState::Pressed),
        KeyAction::Pass
    );
    // Ctrl together with another modifier is not the command chord.
    let mut ctrl_shift = ctrl();
    ctrl_shift.mods.shift = true;
    assert_eq!(
        on_keyboard_key(&mut output, 1, ctrl_shift, KEY_Q, KeyState::Pressed),
        KeyAction::Pass
    );
    assert_eq!(output.views, before);
}

#[test]
fn render_single_window_fills_output() {
    let (_, mut output) = setup(&[window(1, 5, 5, 10, 10)]);
    output.render_output();
    assert_eq!(
        output.views[0].geometry,
        Geometry::new(Point::new(0, 0), Size::new(800, 600))
    );
}

#[test]
fn render_two_windows_side_by_side() {
    let (_, mut output) = setup(&[window(1, 0, 0, 10, 10), window(2, 0, 0, 10, 10)]);
    output.render_output();
    assert_eq!(
        output.views[0].geometry,
        Geometry::new(Point::new(0, 0), Size::new(400, 600))
    );
    assert_eq!(
        output.views[1].geometry,
        Geometry::new(Point::new(400, 0), Size::new(400, 600))
    );
}

#[test]
fn render_three_windows_last_takes_full_row() {
    let (_, mut output) = setup(&[
        window(1, 0, 0, 10, 10),
        window(2, 0, 0, 10, 10),
        window(3, 0, 0, 10, 10),
    ]);
    output.render_output();
    assert_eq!(
        output.views[0].geometry,
        Geometry::new(Point::new(0, 0), Size::new(400, 300))
    );
    assert_eq!(
        output.views[1].geometry,
        Geometry::new(Point::new(400, 0), Size::new(400, 300))
    );
    assert_eq!(
        output.views[2].geometry,
        Geometry::new(Point::new(0, 300), Size::new(800, 300))
    );
}

#[test]
fn view_created_raises_focuses_and_lays_out() {
    let (_, mut output) = setup(&[window(2, 0, 0, 10, 10)]);
    output.add_window(window(1, 0, 0, 10, 10));
    assert!(on_view_created(&mut output, 1));
    assert_eq!(ids(&output), vec![2, 1]);
    assert!(output.views[1].state.activated);
    assert_eq!(
        output.views[0].geometry,
        Geometry::new(Point::new(0, 0), Size::new(400, 600))
    );
}

#[test]
fn view_destroyed_refocuses_top_and_lays_out() {
    let (_, mut output) = setup(&[window(1, 0, 0, 10, 10), window(2, 0, 0, 10, 10)]);
    output.close_view(2);
    on_view_destroyed(&mut output);
    assert_eq!(ids(&output), vec![1]);
    assert!(output.views[0].state.activated);
    assert_eq!(
        output.views[0].geometry,
        Geometry::new(Point::new(0, 0), Size::new(800, 600))
    );
}

#[test]
fn view_focus_toggles_activated_flag() {
    let (_, mut output) = setup(&[window(1, 0, 0, 10, 10)]);
    on_view_focus(&mut output, 1, true);
    assert!(output.views[0].state.activated);
    on_view_focus(&mut output, 1, false);
    assert!(!output.views[0].state.activated);
}

#[test]
fn resolution_change_relayouts() {
    let (_, mut output) = setup(&[window(1, 0, 0, 10, 10)]);
    on_output_resolution(&mut output, Size::new(800, 600), Size::new(1024, 768));
    assert_eq!(output.resolution, Size::new(1024, 768));
    assert_eq!(
        output.views[0].geometry,
        Geometry::new(Point::new(0, 0), Size::new(1024, 768))
    );
}

#[test]
fn topmost_view_wraps_by_offset() {
    let (_, output) = setup(&[
        window(1, 0, 0, 10, 10),
        window(2, 0, 0, 10, 10),
        window(3, 0, 0, 10, 10),
    ]);
    assert_eq!(output.get_topmost_view(0), Some(3));
    assert_eq!(output.get_topmost_view(1), Some(1));
    assert_eq!(output.get_topmost_view(2), Some(2));
    assert_eq!(output.get_topmost_view(3), Some(3));
    let empty = Output::new(Size::new(800, 600));
    assert_eq!(empty.get_topmost_view(0), None);
}
