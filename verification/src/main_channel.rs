use vstd::prelude::*;

use crate::signal::{is_object_arg, object_arg_at, SignalArg};

verus! {

/// The mouse mode in which the server draws the pointer.
pub const MOUSE_MODE_SERVER: i32 = 1;

/// The mouse mode in which the client draws the pointer.
pub const MOUSE_MODE_CLIENT: i32 = 2;

/// The main channel: the handle of the channel object and the mouse mode
/// that the server last announced.
pub struct MainChannel<H> {
    inner: H,
    mouse_mode: i32,
}

impl<H> MainChannel<H> {
    /// The handle of the channel object.
    pub closed spec fn handle(&self) -> H {
        self.inner
    }

    /// The mouse mode last announced, `0` before any announcement.
    pub closed spec fn mode(&self) -> i32 {
        self.mouse_mode
    }

    /// A channel around `inner`, before the server announced a mouse mode.
    pub fn from(inner: H) -> (c: Self)
        ensures
            c.handle() == inner,
            c.mode() == 0,
    {
        MainChannel { inner, mouse_mode: 0 }
    }

    /// The handle of the channel object.
    pub fn inner(&self) -> (h: &H)
        ensures
            *h == self.handle(),
    {
        &self.inner
    }

    /// Records the mouse mode read from the channel after a `main-mouse-update`.
    pub fn set_mouse_mode(&mut self, mode: i32)
        ensures
            final(self).mode() == mode,
            final(self).handle() == old(self).handle(),
    {
        self.mouse_mode = mode;
    }

    pub fn is_mouse_mode_server(&self) -> (b: bool)
        ensures
            b == (self.mode() == MOUSE_MODE_SERVER),
    {
        self.mouse_mode == MOUSE_MODE_SERVER
    }

    pub fn is_mouse_mode_client(&self) -> (b: bool)
        ensures
            b == (self.mode() == MOUSE_MODE_CLIENT),
    {
        self.mouse_mode == MOUSE_MODE_CLIENT
    }
}

/// Tells whether a `main-mouse-update` emission carries the channel object,
/// from which the new mouse mode is then read.
pub fn mouse_update_carries_channel(args: &Vec<SignalArg>) -> (b: bool)
    ensures
        b == object_arg_at(args@, 0),
{
    is_object_arg(args, 0)
}

/// Mode 1 is the server mouse mode and mode 2 the client one.
pub proof fn lemma_mouse_mode_numbers()
    ensures
        MOUSE_MODE_SERVER == 1,
        MOUSE_MODE_CLIENT == 2,
{
}

/// A main channel is never in server and client mouse mode at once.
pub proof fn lemma_mouse_modes_exclusive<H>(c: MainChannel<H>)
    ensures
        !(c.mode() == MOUSE_MODE_SERVER && c.mode() == MOUSE_MODE_CLIENT),
{
}

} // verus!
