use vstd::prelude::*;

use crate::canvas::viewport_of;
use crate::display_channel::{dimension_of, Display};
use crate::input_channel::InputCommand;

verus! {

/// A mouse button as the window reports it.
#[derive(Clone, Copy, PartialEq, Eq, Structural, Debug)]
pub enum PointerButton {
    Left,
    Middle,
    Right,
    /// Any other button.
    Other,
}

/// Whether a button or key went down or up.
#[derive(Clone, Copy, PartialEq, Eq, Structural, Debug)]
pub enum ElementState {
    Pressed,
    Released,
}

/// The sign of a scroll amount; an amount that is not a number has none.
#[derive(Clone, Copy, PartialEq, Eq, Structural, Debug)]
pub enum Sign {
    Negative,
    Zero,
    Positive,
}

/// The vertical part of a scroll, in lines or in pixels.
#[derive(Clone, Copy, PartialEq, Eq, Structural, Debug)]
pub enum ScrollDelta {
    Line(Sign),
    Pixel(Sign),
}

/// An event of the window's event loop, as far as the client looks at it.
#[derive(Clone, Copy, PartialEq, Eq, Structural, Debug)]
pub enum WindowInput {
    /// The loop is about to wait for new events.
    AboutToWait,
    CloseRequested,
    RedrawRequested,
    /// The pointer moved to `(x, y)`, already scaled to display coordinates.
    CursorMoved { x: i32, y: i32 },
    MouseInput { state: ElementState, button: PointerButton },
    MouseWheel { delta: ScrollDelta },
    /// A key went down or up; `scancode` is its XT scancode, when the key
    /// has a known one.
    KeyboardInput { state: ElementState, scancode: Option<u32>, is_synthetic: bool },
    /// Any other event.
    Other,
}

/// What the window does in answer to an event.
#[derive(Clone, Copy, PartialEq, Eq, Structural, Debug)]
pub enum WindowAction {
    Nothing,
    RequestRedraw,
    Exit,
    /// Draw the pixels at `img`, of the given stride, height and width.
    Redraw { img: usize, stride: u64, height: u64, width: u64 },
    /// Send a message on the inputs channel.
    Input(InputCommand),
}

/// The button number that every mouse button is reported under.
pub const MOUSE_BUTTON: i32 = 2;

/// The button number and button mask of scrolling up.
pub const SCROLL_UP_BUTTON: i32 = 5;

pub const SCROLL_UP_MASK: i32 = 8;

/// The button number and button mask of scrolling down.
pub const SCROLL_DOWN_BUTTON: i32 = 6;

pub const SCROLL_DOWN_MASK: i32 = 16;

/// The button mask of a mouse button: left 1, middle 2, right 4; any other
/// button counts as the left one.
pub open spec fn button_mask_of(button: PointerButton) -> i32 {
    match button {
        PointerButton::Left => 1,
        PointerButton::Middle => 2,
        PointerButton::Right => 4,
        PointerButton::Other => 1,
    }
}

/// Computes the button mask of a mouse button.
pub fn button_mask(button: PointerButton) -> (mask: i32)
    ensures
        mask == button_mask_of(button),
{
    let mask: i32 = 1;
    assert(1i32 << 0u32 == 1i32) by (bit_vector);
    assert(1i32 << 1u32 == 2i32) by (bit_vector);
    assert(1i32 << 2u32 == 4i32) by (bit_vector);
    match button {
        PointerButton::Left => mask << 0u32,
        PointerButton::Middle => mask << 1u32,
        PointerButton::Right => mask << 2u32,
        PointerButton::Other => mask,
    }
}

/// Signed numbers of a surface read as unsigned 64-bit, as the renderer takes them.
pub open spec fn as_u64(x: i32) -> u64 {
    x as u64
}

/// The answer to a window event. `display` is the surface the connection
/// currently reports, and `input_available` tells whether an inputs channel
/// was taken up.
///
/// - The loop about to wait asks for a redraw; a close request ends the loop.
/// - A redraw request draws the current surface when it has pixels.
/// - Pointer, button, wheel and key events go to the inputs channel when
///   there is one: the pointer is placed on display 0; a button is pressed
///   or released as button 2 with its mask; scrolling up, in lines or in
///   pixels, presses button 5 with mask 8, and scrolling down in pixels
///   presses button 6 with mask 16; a key that is not synthetic and has a
///   scancode is pressed or released by that scancode.
/// - Anything else is ignored.
pub open spec fn window_action_of(event: WindowInput, display: Option<Display>, input_available: bool) -> WindowAction {
    match event {
        WindowInput::AboutToWait => WindowAction::RequestRedraw,
        WindowInput::CloseRequested => WindowAction::Exit,
        WindowInput::RedrawRequested => match display {
            Some(d) => match d.canvas_img {
                Some(img) => WindowAction::Redraw {
                    img,
                    stride: as_u64(d.stride),
                    height: as_u64(d.height),
                    width: as_u64(d.width),
                },
                None => WindowAction::Nothing,
            },
            None => WindowAction::Nothing,
        },
        WindowInput::CursorMoved { x, y } => if input_available {
            WindowAction::Input(InputCommand::SetCursorPos { display_id: 0, x, y })
        } else {
            WindowAction::Nothing
        },
        WindowInput::MouseInput { state, button } => if input_available {
            match state {
                ElementState::Pressed => WindowAction::Input(
                    InputCommand::PressButton { button: MOUSE_BUTTON, button_state: button_mask_of(button) },
                ),
                ElementState::Released => WindowAction::Input(
                    InputCommand::ReleaseButton { button: MOUSE_BUTTON, button_state: button_mask_of(button) },
                ),
            }
        } else {
            WindowAction::Nothing
        },
        WindowInput::MouseWheel { delta } => if !input_available {
            WindowAction::Nothing
        } else {
            match delta {
                ScrollDelta::Line(Sign::Positive) | ScrollDelta::Pixel(Sign::Positive) => WindowAction::Input(
                    InputCommand::PressButton { button: SCROLL_UP_BUTTON, button_state: SCROLL_UP_MASK },
                ),
                ScrollDelta::Pixel(Sign::Negative) => WindowAction::Input(
                    InputCommand::PressButton { button: SCROLL_DOWN_BUTTON, button_state: SCROLL_DOWN_MASK },
                ),
                _ => WindowAction::Nothing,
            }
        },
        WindowInput::KeyboardInput { state, scancode, is_synthetic } => if is_synthetic || !input_available {
            WindowAction::Nothing
        } else {
            match scancode {
                Some(key) => match state {
                    ElementState::Pressed => WindowAction::Input(InputCommand::KeyPress { key }),
                    ElementState::Released => WindowAction::Input(InputCommand::KeyRelease { key }),
                },
                None => WindowAction::Nothing,
            }
        },
        WindowInput::Other => WindowAction::Nothing,
    }
}

/// Decides the answer to a window event.
pub fn handle_window_event(event: WindowInput, display: Option<Display>, input_available: bool) -> (a: WindowAction)
    ensures
        a == window_action_of(event, display, input_available),
{
    match event {
        WindowInput::AboutToWait => WindowAction::RequestRedraw,
        WindowInput::CloseRequested => WindowAction::Exit,
        WindowInput::RedrawRequested => {
            if let Some(d) = display {
                if let Some(img) = d.canvas_img {
                    return WindowAction::Redraw {
                        img,
                        stride: d.stride as u64,
                        height: d.height as u64,
                        width: d.width as u64,
                    };
                }
            }
            WindowAction::Nothing
        },
        WindowInput::CursorMoved { x, y } => {
            if input_available {
                WindowAction::Input(InputCommand::SetCursorPos { display_id: 0, x, y })
            } else {
                WindowAction::Nothing
            }
        },
        WindowInput::MouseInput { state, button } => {
            let mask = button_mask(button);
            if !input_available {
                return WindowAction::Nothing;
            }
            match state {
                ElementState::Pressed => WindowAction::Input(
                    InputCommand::PressButton { button: MOUSE_BUTTON, button_state: mask },
                ),
                ElementState::Released => WindowAction::Input(
                    InputCommand::ReleaseButton { button: MOUSE_BUTTON, button_state: mask },
                ),
            }
        },
        WindowInput::MouseWheel { delta } => {
            if !input_available {
                return WindowAction::Nothing;
            }
            match delta {
                ScrollDelta::Line(dy) => {
                    if dy == Sign::Positive {
                        return WindowAction::Input(
                            InputCommand::PressButton { button: SCROLL_UP_BUTTON, button_state: SCROLL_UP_MASK },
                        );
                    }
                    WindowAction::Nothing
                },
                ScrollDelta::Pixel(dy) => {
                    if dy == Sign::Positive {
                        return WindowAction::Input(
                            InputCommand::PressButton { button: SCROLL_UP_BUTTON, button_state: SCROLL_UP_MASK },
                        );
                    }
                    if dy == Sign::Negative {
                        return WindowAction::Input(
                            InputCommand::PressButton {
                                button: SCROLL_DOWN_BUTTON,
                                button_state: SCROLL_DOWN_MASK,
                            },
                        );
                    }
                    WindowAction::Nothing
                },
            }
        },
        WindowInput::KeyboardInput { state, scancode, is_synthetic } => {
            if is_synthetic {
                return WindowAction::Nothing;
            }
            if !input_available {
                return WindowAction::Nothing;
            }
            match scancode {
                Some(key) => match state {
                    ElementState::Pressed => WindowAction::Input(InputCommand::KeyPress { key }),
                    ElementState::Released => WindowAction::Input(InputCommand::KeyRelease { key }),
                },
                None => WindowAction::Nothing,
            }
        },
        WindowInput::Other => WindowAction::Nothing,
    }
}

/// The size of the window opened for a surface: its width and height cast to `u32`.
pub open spec fn window_size_of(display: Display) -> (u32, u32) {
    (display.width as u32, display.height as u32)
}

/// Computes the size of the window opened for a surface.
pub fn window_size(display: &Display) -> (size: (u32, u32))
    ensures
        size == window_size_of(*display),
{
    (display.width as u32, display.height as u32)
}

/// Releasing a mouse button sends the same button and mask as pressing it,
/// and that mask is a single bit among the three lowest.
pub proof fn lemma_button_release_mirrors_press(button: PointerButton, display: Option<Display>)
    ensures
        ({
            let m = button_mask_of(button);
            &&& window_action_of(WindowInput::MouseInput { state: ElementState::Pressed, button }, display, true)
                == WindowAction::Input(InputCommand::PressButton { button: MOUSE_BUTTON, button_state: m })
            &&& window_action_of(WindowInput::MouseInput { state: ElementState::Released, button }, display, true)
                == WindowAction::Input(InputCommand::ReleaseButton { button: MOUSE_BUTTON, button_state: m })
            &&& (m == 1 || m == 2 || m == 4)
        }),
{
}

/// Releasing a key sends the same scancode as pressing it; a synthetic key
/// event or one without a scancode sends nothing.
pub proof fn lemma_key_release_mirrors_press(key: u32, state: ElementState, scancode: Option<u32>, display: Option<Display>, input_available: bool)
    ensures
        window_action_of(
            WindowInput::KeyboardInput { state: ElementState::Pressed, scancode: Some(key), is_synthetic: false },
            display,
            true,
        ) == WindowAction::Input(InputCommand::KeyPress { key }),
        window_action_of(
            WindowInput::KeyboardInput { state: ElementState::Released, scancode: Some(key), is_synthetic: false },
            display,
            true,
        ) == WindowAction::Input(InputCommand::KeyRelease { key }),
        window_action_of(
            WindowInput::KeyboardInput { state, scancode, is_synthetic: true },
            display,
            input_available,
        ) == WindowAction::Nothing,
        window_action_of(
            WindowInput::KeyboardInput { state, scancode: None, is_synthetic: false },
            display,
            input_available,
        ) == WindowAction::Nothing,
{
}

/// Without an inputs channel no event sends input, and whether there is one
/// changes nothing for events that send none.
pub proof fn lemma_input_needs_channel(event: WindowInput, display: Option<Display>)
    ensures
        !(window_action_of(event, display, false) is Input),
        !(window_action_of(event, display, true) is Input) ==> window_action_of(event, display, true)
            == window_action_of(event, display, false),
{
}

/// A redraw only ever draws the pixels of the current surface, with its own
/// stride, height and width.
pub proof fn lemma_redraw_draws_current_surface(event: WindowInput, display: Option<Display>, input_available: bool)
    ensures
        window_action_of(event, display, input_available) matches WindowAction::Redraw { img, stride, height, width }
            ==> {
            &&& event == WindowInput::RedrawRequested
            &&& display matches Some(d)
            &&& d.canvas_img == Some(img)
            &&& stride == as_u64(d.stride)
            &&& height == as_u64(d.height)
            &&& width == as_u64(d.width)
        },
{
}

/// The window opened for a surface has the size that its display channel
/// reports, and every redraw of that surface sets the viewport to that same
/// size.
pub proof fn lemma_window_viewport_and_dimension_agree(d: Display)
    ensures
        window_size_of(d) == dimension_of(Some(d)),
        window_action_of(WindowInput::RedrawRequested, Some(d), false) matches WindowAction::Redraw {
            height,
            width,
            ..
        } ==> viewport_of(width, height) == window_size_of(d),
{
    let w = d.width;
    let h = d.height;
    assert((w as u64) as u32 == w as u32) by (bit_vector);
    assert((h as u64) as u32 == h as u32) by (bit_vector);
}

/// The loop about to wait always asks for a redraw and a close request
/// always ends the loop, whatever the surface and the inputs channel.
pub proof fn lemma_loop_events_fixed(display: Option<Display>, input_available: bool)
    ensures
        window_action_of(WindowInput::AboutToWait, display, input_available) == WindowAction::RequestRedraw,
        window_action_of(WindowInput::CloseRequested, display, input_available) == WindowAction::Exit,
        window_action_of(WindowInput::Other, display, input_available) == WindowAction::Nothing,
{
}

/// With an inputs channel, a pointer move to `(x, y)` places the pointer at
/// `(x, y)` on display 0, and a button sends button 2 with mask 1 for the
/// left (and any other) button, 2 for the middle and 4 for the right one.
pub proof fn lemma_pointer_messages(x: i32, y: i32, state: ElementState, display: Option<Display>)
    ensures
        window_action_of(WindowInput::CursorMoved { x, y }, display, true) == WindowAction::Input(
            InputCommand::SetCursorPos { display_id: 0, x, y },
        ),
        button_mask_of(PointerButton::Left) == 1,
        button_mask_of(PointerButton::Middle) == 2,
        button_mask_of(PointerButton::Right) == 4,
        button_mask_of(PointerButton::Other) == 1,
        ({
            let a = window_action_of(WindowInput::MouseInput { state, button: PointerButton::Right }, display, true);
            &&& state == ElementState::Pressed ==> a == WindowAction::Input(InputCommand::PressButton { button: 2, button_state: 4 })
            &&& state == ElementState::Released ==> a == WindowAction::Input(InputCommand::ReleaseButton { button: 2, button_state: 4 })
        }),
{
}

/// With an inputs channel, scrolling up in lines or pixels presses button 5
/// with mask 8, scrolling down in pixels presses button 6 with mask 16, and
/// nothing else of the wheel sends anything.
pub proof fn lemma_wheel_messages(display: Option<Display>)
    ensures
        window_action_of(WindowInput::MouseWheel { delta: ScrollDelta::Line(Sign::Positive) }, display, true)
            == WindowAction::Input(InputCommand::PressButton { button: 5, button_state: 8 }),
        window_action_of(WindowInput::MouseWheel { delta: ScrollDelta::Pixel(Sign::Positive) }, display, true)
            == WindowAction::Input(InputCommand::PressButton { button: 5, button_state: 8 }),
        window_action_of(WindowInput::MouseWheel { delta: ScrollDelta::Pixel(Sign::Negative) }, display, true)
            == WindowAction::Input(InputCommand::PressButton { button: 6, button_state: 16 }),
        window_action_of(WindowInput::MouseWheel { delta: ScrollDelta::Line(Sign::Negative) }, display, true)
            == WindowAction::Nothing,
        window_action_of(WindowInput::MouseWheel { delta: ScrollDelta::Line(Sign::Zero) }, display, true)
            == WindowAction::Nothing,
        window_action_of(WindowInput::MouseWheel { delta: ScrollDelta::Pixel(Sign::Zero) }, display, true)
            == WindowAction::Nothing,
{
}

/// A redraw request draws exactly when the current surface has pixels, and
/// then draws those pixels with the surface's numbers widened to 64 bits.
pub proof fn lemma_redraw_when_pixels(d: Display, input_available: bool)
    ensures
        window_action_of(WindowInput::RedrawRequested, None, input_available) == WindowAction::Nothing,
        d.canvas_img is None ==> window_action_of(WindowInput::RedrawRequested, Some(d), input_available)
            == WindowAction::Nothing,
        d.canvas_img matches Some(img) ==> window_action_of(WindowInput::RedrawRequested, Some(d), input_available)
            == (WindowAction::Redraw {
            img,
            stride: d.stride as u64,
            height: d.height as u64,
            width: d.width as u64,
        }),
{
}

} // verus!
