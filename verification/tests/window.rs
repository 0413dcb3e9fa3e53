use spice_client::canvas::viewport_size;
use spice_client::display_channel::DisplayChannel;
use spice_client::signal::SignalArg;
use spice_client::display_channel::Display;
use spice_client::input_channel::InputCommand;
use spice_client::window::{
    button_mask, handle_window_event, window_size, ElementState, PointerButton, ScrollDelta, Sign,
    WindowAction, WindowInput,
};

fn surface() -> Display {
    Display { canvas_img: Some(0xabc0), width: 1024, height: 768, stride: 4096, format: 32 }
}

#[test]
fn loop_events() {
    assert_eq!(handle_window_event(WindowInput::AboutToWait, None, false), WindowAction::RequestRedraw);
    assert_eq!(handle_window_event(WindowInput::CloseRequested, Some(surface()), true), WindowAction::Exit);
    assert_eq!(handle_window_event(WindowInput::Other, Some(surface()), true), WindowAction::Nothing);
}

#[test]
fn redraw_draws_current_surface() {
    assert_eq!(
        handle_window_event(WindowInput::RedrawRequested, Some(surface()), false),
        WindowAction::Redraw { img: 0xabc0, stride: 4096, height: 768, width: 1024 }
    );
    assert_eq!(handle_window_event(WindowInput::RedrawRequested, None, true), WindowAction::Nothing);
    let no_pixels = Display { canvas_img: None, ..surface() };
    assert_eq!(handle_window_event(WindowInput::RedrawRequested, Some(no_pixels), true), WindowAction::Nothing);
    let negative = Display { stride: -1, ..surface() };
    assert_eq!(
        handle_window_event(WindowInput::RedrawRequested, Some(negative), true),
        WindowAction::Redraw { img: 0xabc0, stride: u64::MAX, height: 768, width: 1024 }
    );
}

#[test]
fn cursor_moves_place_pointer_on_display_zero() {
    assert_eq!(
        handle_window_event(WindowInput::CursorMoved { x: 12, y: 34 }, None, true),
        WindowAction::Input(InputCommand::SetCursorPos { display_id: 0, x: 12, y: 34 })
    );
    assert_eq!(handle_window_event(WindowInput::CursorMoved { x: 12, y: 34 }, None, false), WindowAction::Nothing);
}

#[test]
fn button_masks() {
    assert_eq!(button_mask(PointerButton::Left), 1);
    assert_eq!(button_mask(PointerButton::Middle), 2);
    assert_eq!(button_mask(PointerButton::Right), 4);
    assert_eq!(button_mask(PointerButton::Other), 1);
}

#[test]
fn buttons_press_and_release_with_the_same_mask() {
    for (b, m) in [
        (PointerButton::Left, 1),
        (PointerButton::Middle, 2),
        (PointerButton::Right, 4),
        (PointerButton::Other, 1),
    ] {
        assert_eq!(
            handle_window_event(WindowInput::MouseInput { state: ElementState::Pressed, button: b }, None, true),
            WindowAction::Input(InputCommand::PressButton { button: 2, button_state: m })
        );
        assert_eq!(
            handle_window_event(WindowInput::MouseInput { state: ElementState::Released, button: b }, None, true),
            WindowAction::Input(InputCommand::ReleaseButton { button: 2, button_state: m })
        );
        assert_eq!(
            handle_window_event(WindowInput::MouseInput { state: ElementState::Pressed, button: b }, None, false),
            WindowAction::Nothing
        );
    }
}

#[test]
fn wheel_scrolls() {
    let up = WindowAction::Input(InputCommand::PressButton { button: 5, button_state: 8 });
    let down = WindowAction::Input(InputCommand::PressButton { button: 6, button_state: 16 });
    let ev = |d| WindowInput::MouseWheel { delta: d };
    assert_eq!(handle_window_event(ev(ScrollDelta::Line(Sign::Positive)), None, true), up);
    assert_eq!(handle_window_event(ev(ScrollDelta::Line(Sign::Negative)), None, true), WindowAction::Nothing);
    assert_eq!(handle_window_event(ev(ScrollDelta::Line(Sign::Zero)), None, true), WindowAction::Nothing);
    assert_eq!(handle_window_event(ev(ScrollDelta::Pixel(Sign::Positive)), None, true), up);
    assert_eq!(handle_window_event(ev(ScrollDelta::Pixel(Sign::Negative)), None, true), down);
    assert_eq!(handle_window_event(ev(ScrollDelta::Pixel(Sign::Zero)), None, true), WindowAction::Nothing);
    assert_eq!(handle_window_event(ev(ScrollDelta::Pixel(Sign::Positive)), None, false), WindowAction::Nothing);
}

#[test]
fn keys_press_and_release_by_scancode() {
    let key = |state, scancode, is_synthetic| WindowInput::KeyboardInput { state, scancode, is_synthetic };
    assert_eq!(
        handle_window_event(key(ElementState::Pressed, Some(0x1e), false), None, true),
        WindowAction::Input(InputCommand::KeyPress { key: 0x1e })
    );
    assert_eq!(
        handle_window_event(key(ElementState::Released, Some(0x1e), false), None, true),
        WindowAction::Input(InputCommand::KeyRelease { key: 0x1e })
    );
    assert_eq!(handle_window_event(key(ElementState::Pressed, Some(0x1e), true), None, true), WindowAction::Nothing);
    assert_eq!(handle_window_event(key(ElementState::Pressed, None, false), None, true), WindowAction::Nothing);
    assert_eq!(handle_window_event(key(ElementState::Pressed, Some(0x1e), false), None, false), WindowAction::Nothing);
}

#[test]
fn window_size_of_surface() {
    assert_eq!(window_size(&surface()), (1024, 768));
    let odd = Display { width: -2, ..surface() };
    assert_eq!(window_size(&odd), (u32::MAX - 1, 768));
}

#[test]
fn window_viewport_and_dimension_agree() {
    let args = vec![
        SignalArg::Object,
        SignalArg::Int(32),
        SignalArg::Int(-2),
        SignalArg::Int(768),
        SignalArg::Int(4096),
        SignalArg::Int(0),
        SignalArg::Pointer(0x10),
    ];
    let mut c = DisplayChannel::from(());
    c.on_primary_create(&args);
    let d = c.display().unwrap();
    assert_eq!(window_size(&d), c.dimention());
    match handle_window_event(WindowInput::RedrawRequested, Some(d), false) {
        WindowAction::Redraw { height, width, .. } => assert_eq!(viewport_size(width, height), window_size(&d)),
        other => panic!("unexpected {:?}", other),
    }
}
