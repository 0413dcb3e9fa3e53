use vstd::prelude::*;

verus! {

/// The inputs channel: the handle of the channel object and the pointer
/// offsets it keeps.
pub struct InputChannel<H> {
    inner: H,
    pub dy: i32,
    pub dx: i32,
}

impl<H> InputChannel<H> {
    /// The handle of the channel object.
    pub closed spec fn handle(&self) -> H {
        self.inner
    }

    /// The pointer offsets `(dx, dy)`.
    pub closed spec fn offsets(&self) -> (i32, i32) {
        (self.dx, self.dy)
    }

    /// A channel around `inner` with both offsets zero.
    pub fn from(inner: H) -> (c: Self)
        ensures
            c.handle() == inner,
            c.offsets() == (0i32, 0i32),
    {
        InputChannel { inner, dx: 0, dy: 0 }
    }

    /// The handle of the channel object.
    pub fn inner(&self) -> (h: &H)
        ensures
            *h == self.handle(),
    {
        &self.inner
    }
}

/// A message to send on the inputs channel.
#[derive(Clone, Copy, PartialEq, Eq, Structural, Debug)]
pub enum InputCommand {
    /// Place the pointer at `(x, y)` on display `display_id`.
    SetCursorPos { display_id: i32, x: i32, y: i32 },
    /// Press `button`, with `button_state` the mask of the buttons held.
    PressButton { button: i32, button_state: i32 },
    /// Release `button`, with `button_state` the mask of the buttons held.
    ReleaseButton { button: i32, button_state: i32 },
    /// Move the pointer by `(dx, dy)`, with `button_state` the mask of the buttons held.
    Motion { dx: i32, dy: i32, button_state: i32 },
    /// Press the key with XT scancode `key`.
    KeyPress { key: u32 },
    /// Release the key with XT scancode `key`.
    KeyRelease { key: u32 },
}

/// The arguments of the absolute-position message that `SetCursorPos` sends:
/// `(x, y, display, button_state)`; no button is reported held.
pub open spec fn position_message(display_id: i32, x: i32, y: i32) -> (i32, i32, i32, i32) {
    (x, y, display_id, 0)
}

/// Orders the arguments of a pointer placement as the position message takes them.
pub fn position_args(display_id: i32, x: i32, y: i32) -> (m: (i32, i32, i32, i32))
    ensures
        m == position_message(display_id, x, y),
{
    (x, y, display_id, 0)
}

/// The relative motion that a request to move the pointer sends. Whatever
/// offsets it is given, it moves the pointer 5 to the right and 5 up with
/// no button held.
pub open spec fn cursor_motion_of(dx: i32, dy: i32) -> InputCommand {
    InputCommand::Motion { dx: 5, dy: -5i32, button_state: 0 }
}

/// Decides the motion sent for a request to move the pointer by the
/// (floored) offsets `dx` and `dy`.
pub fn cursor_motion(dx: i32, dy: i32) -> (c: InputCommand)
    ensures
        c == cursor_motion_of(dx, dy),
{
    InputCommand::Motion { dx: 5, dy: -5, button_state: 0 }
}

/// The position message carries x, then y, then the display, and reports
/// no button held.
pub proof fn lemma_position_message_order(display_id: i32, x: i32, y: i32)
    ensures
        position_message(display_id, x, y).0 == x,
        position_message(display_id, x, y).1 == y,
        position_message(display_id, x, y).2 == display_id,
        position_message(display_id, x, y).3 == 0,
{
}

/// Whatever offsets it is given, moving the pointer sends a motion of 5 to
/// the right and 5 up with no button held.
pub proof fn lemma_cursor_motion_fixed(dx: i32, dy: i32, dx2: i32, dy2: i32)
    ensures
        cursor_motion_of(dx, dy) == cursor_motion_of(dx2, dy2),
        cursor_motion_of(dx, dy) matches InputCommand::Motion { dx: mx, dy: my, button_state }
            && mx == 5 && my == -5 && button_state == 0,
{
}

} // verus!
